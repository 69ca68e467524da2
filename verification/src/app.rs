//! The application's state, the events it reacts to and the commands it hands
//! back to the code that talks to the window system, the network and the disk.
use vstd::prelude::*;
use crate::config::{Config, ConfigView, opt_view};
use crate::hotkeys::{HotkeyModifier, KeyCode, spec_hotkey_id};
use crate::controllers::main::{AuthResponse, AuthResponseView, UserRecord};
use crate::controllers::timer::{TimerController, TimerState, timer_step};
use crate::controllers::main::{MainController, main_step};
use crate::controllers::hotkeys::{HotkeysController, hotkeys_step};
use crate::controllers::Controller;
use crate::hotkeys::hotkey_id;
use vstd::string::StringExecFns;

verus! {

/// How a window is shown.
#[derive(Clone, Copy, PartialEq, Eq, Debug, Structural)]
pub enum WindowMode {
    Windowed,
    Hidden,
}

/// An event of the tray icon: a click on it, or anything else.
#[derive(Clone, Copy, PartialEq, Eq, Debug, Structural)]
pub enum TrayEventKind {
    Click,
    Other,
}

/// A change made in the hotkey settings panel.
#[derive(Clone, Copy, PartialEq, Eq, Debug, Structural)]
pub enum HotkeysConfigMessage {
    StartModifierChanged(HotkeyModifier),
    StartKeyChanged(KeyCode),
    StopModifierChanged(HotkeyModifier),
    StopKeyChanged(KeyCode),
}

/// Everything the application reacts to. `W` identifies a window.
#[derive(Debug)]
pub enum Message<W> {
    DomainChanged(String),
    IdentityChanged(String),
    PasswordChanged(String),
    LoginPressed,
    LoginFinished(Result<AuthResponse, String>),
    HotKeyTriggered(u32),
    TimerRequestFinished(String, Result<(), String>),
    TrayEvent(TrayEventKind),
    /// A tray menu entry was chosen; the string is the entry's id.
    MenuEvent(String),
    MinimizeToTray,
    WindowOpened(W),
    WindowFocused,
    TimerStatusFinished(Result<bool, String>),
    HotkeysConfig(HotkeysConfigMessage),
}

/// The mathematical value of a [`Message`].
pub enum MessageView<W> {
    DomainChanged(Seq<char>),
    IdentityChanged(Seq<char>),
    PasswordChanged(Seq<char>),
    LoginPressed,
    LoginFinished(Result<AuthResponseView, Seq<char>>),
    HotKeyTriggered(u32),
    TimerRequestFinished(Seq<char>, Result<(), Seq<char>>),
    TrayEvent(TrayEventKind),
    MenuEvent(Seq<char>),
    MinimizeToTray,
    WindowOpened(W),
    WindowFocused,
    TimerStatusFinished(Result<bool, Seq<char>>),
    HotkeysConfig(HotkeysConfigMessage),
}

/// The character sequence of the error of a result.
pub open spec fn unit_result_view(r: Result<(), String>) -> Result<(), Seq<char>> {
    match r {
        Ok(u) => Ok(u),
        Err(e) => Err(e@),
    }
}

impl<W> View for Message<W> {
    type V = MessageView<W>;

    open spec fn view(&self) -> MessageView<W> {
        match self {
            Message::DomainChanged(s) => MessageView::DomainChanged(s@),
            Message::IdentityChanged(s) => MessageView::IdentityChanged(s@),
            Message::PasswordChanged(s) => MessageView::PasswordChanged(s@),
            Message::LoginPressed => MessageView::LoginPressed,
            Message::LoginFinished(r) => MessageView::LoginFinished(
                match r {
                    Ok(a) => Ok(a@),
                    Err(e) => Err(e@),
                },
            ),
            Message::HotKeyTriggered(id) => MessageView::HotKeyTriggered(*id),
            Message::TimerRequestFinished(a, r) => MessageView::TimerRequestFinished(
                a@,
                unit_result_view(*r),
            ),
            Message::TrayEvent(e) => MessageView::TrayEvent(*e),
            Message::MenuEvent(id) => MessageView::MenuEvent(id@),
            Message::MinimizeToTray => MessageView::MinimizeToTray,
            Message::WindowOpened(w) => MessageView::WindowOpened(*w),
            Message::WindowFocused => MessageView::WindowFocused,
            Message::TimerStatusFinished(r) => MessageView::TimerStatusFinished(
                match r {
                    Ok(b) => Ok(*b),
                    Err(e) => Err(e@),
                },
            ),
            Message::HotkeysConfig(c) => MessageView::HotkeysConfig(*c),
        }
    }
}

impl<W: Copy> Clone for Message<W> {
    fn clone(&self) -> (m: Self)
        ensures
            m@ == self@,
    {
        match self {
            Message::DomainChanged(s) => Message::DomainChanged(s.clone()),
            Message::IdentityChanged(s) => Message::IdentityChanged(s.clone()),
            Message::PasswordChanged(s) => Message::PasswordChanged(s.clone()),
            Message::LoginPressed => Message::LoginPressed,
            Message::LoginFinished(r) => Message::LoginFinished(
                match r {
                    Ok(a) => Ok(AuthResponse {
                        token: a.token.clone(),
                        record: UserRecord { id: a.record.id.clone() },
                    }),
                    Err(e) => Err(e.clone()),
                },
            ),
            Message::HotKeyTriggered(id) => Message::HotKeyTriggered(*id),
            Message::TimerRequestFinished(a, r) => Message::TimerRequestFinished(
                a.clone(),
                match r {
                    Ok(_) => Ok(()),
                    Err(e) => Err(e.clone()),
                },
            ),
            Message::TrayEvent(e) => Message::TrayEvent(*e),
            Message::MenuEvent(id) => Message::MenuEvent(id.clone()),
            Message::MinimizeToTray => Message::MinimizeToTray,
            Message::WindowOpened(w) => Message::WindowOpened(*w),
            Message::WindowFocused => Message::WindowFocused,
            Message::TimerStatusFinished(r) => Message::TimerStatusFinished(
                match r {
                    Ok(b) => Ok(*b),
                    Err(e) => Err(e.clone()),
                },
            ),
            Message::HotkeysConfig(c) => Message::HotkeysConfig(*c),
        }
    }
}

/// What the application is to do after an event, in this order.
pub enum Command<W> {
    /// Write the settings to the configuration file.
    SaveConfig(Config),
    /// Drop the registered hotkeys and register these two instead.
    RegisterHotkeys {
        start_modifier: HotkeyModifier,
        start_key: KeyCode,
        stop_modifier: HotkeyModifier,
        stop_key: KeyCode,
    },
    /// End the process.
    Exit,
    /// Print a line on standard output.
    Print(String),
    /// Log in; the answer comes back as [`Message::LoginFinished`].
    Login { domain: String, identity: String, password: String },
    /// Send a timer action ("start" or "stop"); the answer comes back as
    /// [`Message::TimerRequestFinished`] with the same action.
    TimerAction { action: String, domain: String, token: String },
    /// Ask whether the user's timer runs; the answer comes back as
    /// [`Message::TimerStatusFinished`].
    FetchTimerStatus { user_id: String, domain: String },
    /// Show or hide a window.
    SetWindowMode(W, WindowMode),
}

/// The mathematical value of a [`Command`].
pub enum CommandView<W> {
    SaveConfig(ConfigView),
    RegisterHotkeys {
        start_modifier: HotkeyModifier,
        start_key: KeyCode,
        stop_modifier: HotkeyModifier,
        stop_key: KeyCode,
    },
    Exit,
    Print(Seq<char>),
    Login { domain: Seq<char>, identity: Seq<char>, password: Seq<char> },
    TimerAction { action: Seq<char>, domain: Seq<char>, token: Seq<char> },
    FetchTimerStatus { user_id: Seq<char>, domain: Seq<char> },
    SetWindowMode(W, WindowMode),
}

impl<W> View for Command<W> {
    type V = CommandView<W>;

    open spec fn view(&self) -> CommandView<W> {
        match self {
            Command::SaveConfig(c) => CommandView::SaveConfig(c@),
            Command::RegisterHotkeys { start_modifier, start_key, stop_modifier, stop_key } =>
                CommandView::RegisterHotkeys {
                start_modifier: *start_modifier,
                start_key: *start_key,
                stop_modifier: *stop_modifier,
                stop_key: *stop_key,
            },
            Command::Exit => CommandView::Exit,
            Command::Print(s) => CommandView::Print(s@),
            Command::Login { domain, identity, password } => CommandView::Login {
                domain: domain@,
                identity: identity@,
                password: password@,
            },
            Command::TimerAction { action, domain, token } => CommandView::TimerAction {
                action: action@,
                domain: domain@,
                token: token@,
            },
            Command::FetchTimerStatus { user_id, domain } => CommandView::FetchTimerStatus {
                user_id: user_id@,
                domain: domain@,
            },
            Command::SetWindowMode(w, m) => CommandView::SetWindowMode(*w, *m),
        }
    }
}

/// The values of a list of commands.
pub open spec fn commands_view<W>(c: Seq<Command<W>>) -> Seq<CommandView<W>> {
    c.map_values(|x: Command<W>| x@)
}

/// The state of the application that its decisions read and write.
/// `W` identifies a window; the menu ids are those of the tray menu entries.
pub struct AdventuriaApp<W> {
    pub domain: String,
    pub identity: String,
    pub password: String,
    pub status_message: String,
    pub hotkey_start_id: u32,
    pub hotkey_stop_id: u32,
    pub config: Config,
    pub timer: TimerState,
    pub show_item_id: String,
    pub quit_item_id: String,
    pub window_id: Option<W>,
}

/// The mathematical value of an [`AdventuriaApp`].
pub struct AppView<W> {
    pub domain: Seq<char>,
    pub identity: Seq<char>,
    pub password: Seq<char>,
    pub status_message: Seq<char>,
    pub hotkey_start_id: u32,
    pub hotkey_stop_id: u32,
    pub config: ConfigView,
    pub timer_active: bool,
    pub show_item_id: Seq<char>,
    pub quit_item_id: Seq<char>,
    pub window_id: Option<W>,
}

impl<W> View for AdventuriaApp<W> {
    type V = AppView<W>;

    open spec fn view(&self) -> AppView<W> {
        AppView {
            domain: self.domain@,
            identity: self.identity@,
            password: self.password@,
            status_message: self.status_message@,
            hotkey_start_id: self.hotkey_start_id,
            hotkey_stop_id: self.hotkey_stop_id,
            config: self.config@,
            timer_active: self.timer.is_active,
            show_item_id: self.show_item_id@,
            quit_item_id: self.quit_item_id@,
            window_id: self.window_id,
        }
    }
}

/// The registered hotkey ids are those of the configured hotkeys.
pub open spec fn ids_match_config<W>(s: AppView<W>) -> bool {
    &&& s.hotkey_start_id == spec_hotkey_id(s.config.start_modifier, s.config.start_key)
    &&& s.hotkey_stop_id == spec_hotkey_id(s.config.stop_modifier, s.config.stop_key)
}

/// The address of the server the application talks to at first.
pub open spec fn default_domain() -> Seq<char> {
    "https://adventuria-api.tw1.su"@
}

/// The strings of a list joined with `sep` between each two.
pub open spec fn seq_join(list: Seq<Seq<char>>, sep: Seq<char>) -> Seq<char>
    decreases list.len(),
{
    if list.len() == 0 {
        Seq::empty()
    } else if list.len() == 1 {
        list[0]
    } else {
        seq_join(list.drop_last(), sep) + sep + list.last()
    }
}

/// The strings of `list` joined with `sep` between each two.
pub fn join_strings(list: &Vec<String>, sep: &str) -> (res: String)
    ensures
        res@ == seq_join(list@.map_values(|v: String| v@), sep@),
{
    let ghost views = list@.map_values(|v: String| v@);
    let mut res = String::new();
    let mut i: usize = 0;
    while i < list.len()
        invariant
            0 <= i <= list.len(),
            views == list@.map_values(|v: String| v@),
            res@ == seq_join(views.take(i as int), sep@),
        decreases list.len() - i,
    {
        assert(views.take(i + 1).drop_last() =~= views.take(i as int));
        if i != 0 {
            res.append(sep);
        }
        res.append(list[i].as_str());
        i = i + 1;
    }
    assert(views.take(list.len() as int) =~= views);
    res
}

/// The hotkey registration failures, each with the hotkey it concerns.
pub open spec fn registration_errors(start_error: Option<Seq<char>>, stop_error: Option<Seq<char>>) -> Seq<Seq<char>> {
    let a = match start_error {
        Some(e) => seq!["Failed to register start hotkey: "@ + e],
        None => Seq::<Seq<char>>::empty(),
    };
    let b = match stop_error {
        Some(e) => seq!["Failed to register stop hotkey: "@ + e],
        None => Seq::<Seq<char>>::empty(),
    };
    a + b
}

/// The status line at start: ready, or the hotkey registrations that failed.
pub open spec fn startup_status(start_error: Option<Seq<char>>, stop_error: Option<Seq<char>>) -> Seq<char> {
    let errors = registration_errors(start_error, stop_error);
    if errors.len() == 0 {
        "Ready"@
    } else {
        "Hotkey registration failed: "@ + seq_join(errors, ", "@)
    }
}

/// The state at start, given the loaded settings, the outcome of registering
/// the two hotkeys and the ids of the tray menu entries.
pub open spec fn spec_new_app<W>(
    config: ConfigView,
    start_error: Option<Seq<char>>,
    stop_error: Option<Seq<char>>,
    show_item_id: Seq<char>,
    quit_item_id: Seq<char>,
) -> AppView<W> {
    AppView {
        domain: default_domain(),
        identity: Seq::empty(),
        password: Seq::empty(),
        status_message: startup_status(start_error, stop_error),
        hotkey_start_id: spec_hotkey_id(config.start_modifier, config.start_key),
        hotkey_stop_id: spec_hotkey_id(config.stop_modifier, config.stop_key),
        config,
        timer_active: false,
        show_item_id,
        quit_item_id,
        window_id: None,
    }
}

/// What [`AdventuriaApp::update`] does: the main, the hotkey and the timer
/// controllers react to the message in turn, and their commands follow each other.
pub open spec fn app_step<W>(s: AppView<W>, m: MessageView<W>) -> (AppView<W>, Seq<CommandView<W>>) {
    let a = main_step(s, m);
    let b = hotkeys_step(a.0, m);
    let c = timer_step(b.0, m);
    (c.0, a.1 + b.1 + c.1)
}

impl<W: Copy> AdventuriaApp<W> {
    /// The state at start. `start_error` and `stop_error` say why registering
    /// the start and the stop hotkey failed, if it did.
    pub fn new(
        config: Config,
        start_error: Option<String>,
        stop_error: Option<String>,
        show_item_id: String,
        quit_item_id: String,
    ) -> (app: Self)
        ensures
            app@ == spec_new_app::<W>(
                config@,
                opt_view(start_error),
                opt_view(stop_error),
                show_item_id@,
                quit_item_id@,
            ),
            app@.config == config@,
            app@.domain == "https://adventuria-api.tw1.su"@,
            app@.identity == Seq::<char>::empty(),
            app@.password == Seq::<char>::empty(),
            app.hotkey_start_id == spec_hotkey_id(config.start_modifier, config.start_key),
            app.hotkey_stop_id == spec_hotkey_id(config.stop_modifier, config.stop_key),
            !app.timer.is_active,
            app@.show_item_id == show_item_id@,
            app@.quit_item_id == quit_item_id@,
            app.window_id is None,
            start_error is None && stop_error is None ==> app@.status_message == "Ready"@,
    {
        let mut errors: Vec<String> = Vec::new();
        match &start_error {
            Some(e) => errors.push(String::from_str("Failed to register start hotkey: ").concat(e.as_str())),
            None => {},
        }
        match &stop_error {
            Some(e) => errors.push(String::from_str("Failed to register stop hotkey: ").concat(e.as_str())),
            None => {},
        }
        assert(errors@.map_values(|v: String| v@) =~= registration_errors(opt_view(start_error), opt_view(stop_error)));
        let status_message = if errors.len() == 0 {
            String::from_str("Ready")
        } else {
            String::from_str("Hotkey registration failed: ").concat(join_strings(&errors, ", ").as_str())
        };
        let hotkey_start_id = hotkey_id(config.start_modifier, config.start_key);
        let hotkey_stop_id = hotkey_id(config.stop_modifier, config.stop_key);
        AdventuriaApp {
            domain: String::from_str("https://adventuria-api.tw1.su"),
            identity: String::new(),
            password: String::new(),
            status_message,
            hotkey_start_id,
            hotkey_stop_id,
            config,
            timer: TimerState { is_active: false },
            show_item_id,
            quit_item_id,
            window_id: None,
        }
    }

    /// Lets the main, the hotkey and the timer controllers react to `message`
    /// in turn, and returns their commands in that order.
    pub fn update(&mut self, message: &Message<W>) -> (cmds: Vec<Command<W>>)
        ensures
            final(self)@ == app_step(old(self)@, message@).0,
            commands_view(cmds@) == app_step(old(self)@, message@).1,
    {
        let mut cmds = MainController::update(self, message);
        let mut from_hotkeys = HotkeysController::update(self, message);
        let mut from_timer = TimerController::update(self, message);
        let ghost a = cmds@;
        let ghost b = from_hotkeys@;
        let ghost c = from_timer@;
        cmds.append(&mut from_hotkeys);
        cmds.append(&mut from_timer);
        assert(commands_view(a + b + c) =~= commands_view(a) + commands_view(b) + commands_view(c));
        cmds
    }
}

} // verus!
