//! Login, the timer hotkeys, the tray icon and the window.
use vstd::prelude::*;
use vstd::string::StringExecFns;
use crate::app::{
    AdventuriaApp, AppView, Command, CommandView, Message, MessageView, TrayEventKind,
    WindowMode, commands_view,
};
use crate::config::ConfigView;

use crate::controllers::Controller;

verus! {

/// The user record in a login answer.
#[derive(Clone, Debug)]
pub struct UserRecord {
    pub id: String,
}

/// The server's answer to a successful login.
#[derive(Clone, Debug)]
pub struct AuthResponse {
    pub token: String,
    pub record: UserRecord,
}

/// The mathematical value of an [`AuthResponse`].
pub struct AuthResponseView {
    pub token: Seq<char>,
    pub user_id: Seq<char>,
}

impl View for AuthResponse {
    type V = AuthResponseView;

    open spec fn view(&self) -> AuthResponseView {
        AuthResponseView { token: self.token@, user_id: self.record.id@ }
    }
}

/// How a request to the server went: it could not be sent, the server
/// refused it with the given status, or its answer was read (or failed to be
/// read, with the reason).
pub enum Reply<T> {
    SendFailed(String),
    Refused(String),
    Answered(Result<T, String>),
}

/// Reacts to login, the timer hotkeys, the tray icon and the window.
pub struct MainController {}

/// The timer action a pressed hotkey stands for: the start hotkey is checked first.
pub open spec fn hotkey_action<W>(s: AppView<W>, id: u32) -> Option<Seq<char>> {
    if id == s.hotkey_start_id {
        Some("start"@)
    } else if id == s.hotkey_stop_id {
        Some("stop"@)
    } else {
        None
    }
}

/// Shows the window, when there is one.
pub open spec fn show_window<W>(s: AppView<W>, mode: WindowMode) -> Seq<CommandView<W>> {
    match s.window_id {
        Some(w) => seq![CommandView::SetWindowMode(w, mode)],
        None => seq![],
    }
}

/// The settings after a successful login.
pub open spec fn logged_in_config(c: ConfigView, token: Seq<char>, user_id: Seq<char>) -> ConfigView {
    ConfigView { token: Some(token), user_id: Some(user_id), ..c }
}

/// The address that logs a user in on the server at `domain`.
pub open spec fn spec_login_url(domain: Seq<char>) -> Seq<char> {
    domain + "/api/collections/users/auth-with-password"@
}

/// The address that starts or stops the timer on the server at `domain`.
pub open spec fn spec_timer_action_url(domain: Seq<char>, action: Seq<char>) -> Seq<char> {
    domain + "/api/timer/"@ + action
}

/// The result of a login, given how the request went.
pub open spec fn spec_login_outcome(reply: Reply<AuthResponse>) -> Result<AuthResponseView, Seq<char>> {
    match reply {
        Reply::SendFailed(e) => Err("Request error: "@ + e@),
        Reply::Refused(status) => Err("Login failed: "@ + status@),
        Reply::Answered(Ok(a)) => Ok(a@),
        Reply::Answered(Err(e)) => Err("JSON error: "@ + e@),
    }
}

/// The result of a timer action, given whether it could be sent.
pub open spec fn spec_timer_action_outcome(action: Seq<char>, sent: Result<(), String>) -> Result<(), Seq<char>> {
    match sent {
        Ok(_) => Ok(()),
        Err(e) => Err("Timer "@ + action + " error: "@ + e@),
    }
}

/// What [`MainController::update`] does: the new state and the commands.
pub open spec fn main_step<W>(s: AppView<W>, m: MessageView<W>) -> (AppView<W>, Seq<CommandView<W>>) {
    match m {
        MessageView::DomainChanged(d) => (AppView { domain: d, ..s }, seq![]),
        MessageView::IdentityChanged(i) => (AppView { identity: i, ..s }, seq![]),
        MessageView::PasswordChanged(p) => (AppView { password: p, ..s }, seq![]),
        MessageView::LoginPressed => (
            AppView { status_message: "Logging in..."@, ..s },
            seq![CommandView::Login { domain: s.domain, identity: s.identity, password: s.password }],
        ),
        MessageView::LoginFinished(Ok(r)) => {
            let c = logged_in_config(s.config, r.token, r.user_id);
            (
                AppView {
                    config: c,
                    status_message: "Logged in successfully"@,
                    identity: Seq::empty(),
                    password: Seq::empty(),
                    ..s
                },
                seq![CommandView::SaveConfig(c)],
            )
        },
        MessageView::LoginFinished(Err(msg)) => (AppView { status_message: msg, ..s }, seq![]),
        MessageView::HotKeyTriggered(id) => match hotkey_action(s, id) {
            Some(action) => match s.config.token {
                Some(token) => (
                    s,
                    seq![CommandView::TimerAction { action, domain: s.domain, token }],
                ),
                None => (AppView { status_message: "Not logged in"@, ..s }, seq![]),
            },
            None => (s, seq![]),
        },
        MessageView::TimerRequestFinished(action, res) => match res {
            Err(e) => (AppView { status_message: e, ..s }, seq![]),
            Ok(_) => (s, seq![CommandView::Print("Timer "@ + action + " successful"@)]),
        },
        MessageView::TrayEvent(TrayEventKind::Click) => (s, show_window(s, WindowMode::Windowed)),
        MessageView::MenuEvent(id) => if id == s.show_item_id {
            (s, show_window(s, WindowMode::Windowed))
        } else if id == s.quit_item_id {
            (s, seq![CommandView::Exit])
        } else {
            (s, seq![])
        },
        MessageView::MinimizeToTray => (s, show_window(s, WindowMode::Hidden)),
        MessageView::WindowOpened(w) => (AppView { window_id: Some(w), ..s }, seq![]),
        _ => (s, seq![]),
    }
}

/// The command that shows or hides the window, when there is one.
fn set_window_mode<W: Copy>(window_id: Option<W>, mode: WindowMode) -> (v: Vec<Command<W>>)
    ensures
        commands_view(v@) == match window_id {
            Some(w) => seq![CommandView::SetWindowMode(w, mode)],
            None => Seq::<CommandView<W>>::empty(),
        },
{
    let mut v: Vec<Command<W>> = Vec::new();
    match window_id {
        Some(w) => {
            v.push(Command::SetWindowMode(w, mode));
        },
        None => {},
    }
    assert(commands_view(v@) =~= match window_id {
        Some(w) => seq![CommandView::SetWindowMode(w, mode)],
        None => Seq::<CommandView<W>>::empty(),
    });
    v
}

/// A list of one command.
pub(crate) fn one_command<W>(c: Command<W>) -> (v: Vec<Command<W>>)
    ensures
        commands_view(v@) == seq![c@],
{
    let mut v: Vec<Command<W>> = Vec::new();
    v.push(c);
    assert(commands_view(v@) =~= seq![c@]);
    v
}

/// An empty list of commands.
pub(crate) fn no_command<W>() -> (v: Vec<Command<W>>)
    ensures
        commands_view(v@) == Seq::<CommandView<W>>::empty(),
{
    let v: Vec<Command<W>> = Vec::new();
    assert(commands_view(v@) =~= Seq::<CommandView<W>>::empty());
    v
}

impl Controller for MainController {
    /// Applies `message` to the login fields, the status line and the window,
    /// and says which requests to send.
    fn update<W: Copy>(state: &mut AdventuriaApp<W>, message: &Message<W>) -> (cmds: Vec<Command<W>>)
        ensures
            final(state)@ == main_step(old(state)@, message@).0,
            commands_view(cmds@) == main_step(old(state)@, message@).1,
    {
        match message {
            Message::DomainChanged(d) => {
                state.domain = d.clone();
                no_command()
            },
            Message::IdentityChanged(i) => {
                state.identity = i.clone();
                no_command()
            },
            Message::PasswordChanged(p) => {
                state.password = p.clone();
                no_command()
            },
            Message::LoginPressed => {
                state.status_message = String::from_str("Logging in...");
                one_command(Command::Login {
                    domain: state.domain.clone(),
                    identity: state.identity.clone(),
                    password: state.password.clone(),
                })
            },
            Message::LoginFinished(result) => match result {
                Ok(res) => {
                    state.config.token = Some(res.token.clone());
                    state.config.user_id = Some(res.record.id.clone());
                    let saved = state.config.duplicate();
                    state.status_message = String::from_str("Logged in successfully");
                    state.identity = String::new();
                    state.password = String::new();
                    one_command(Command::SaveConfig(saved))
                },
                Err(msg) => {
                    state.status_message = msg.clone();
                    no_command()
                },
            },
            Message::HotKeyTriggered(id) => {
                let action: Option<&str> = if *id == state.hotkey_start_id {
                    Some("start")
                } else if *id == state.hotkey_stop_id {
                    Some("stop")
                } else {
                    None
                };
                match action {
                    Some(a) => match &state.config.token {
                        Some(token) => one_command(Command::TimerAction {
                            action: String::from_str(a),
                            domain: state.domain.clone(),
                            token: token.clone(),
                        }),
                        None => {
                            state.status_message = String::from_str("Not logged in");
                            no_command()
                        },
                    },
                    None => no_command(),
                }
            },
            Message::TimerRequestFinished(action, res) => match res {
                Err(e) => {
                    state.status_message = e.clone();
                    no_command()
                },
                Ok(_) => {
                    let line = String::from_str("Timer ").concat(action.as_str()).concat(" successful");
                    one_command(Command::Print(line))
                },
            },
            Message::TrayEvent(TrayEventKind::Click) => set_window_mode(state.window_id, WindowMode::Windowed),
            Message::MenuEvent(id) => {
                if *id == state.show_item_id {
                    set_window_mode(state.window_id, WindowMode::Windowed)
                } else if *id == state.quit_item_id {
                    one_command(Command::Exit)
                } else {
                    no_command()
                }
            },
            Message::MinimizeToTray => set_window_mode(state.window_id, WindowMode::Hidden),
            Message::WindowOpened(w) => {
                state.window_id = Some(*w);
                no_command()
            },
            _ => no_command(),
        }
    }
}

impl MainController {

    /// The address that logs a user in on the server at `domain`.
    pub fn login_url(domain: &str) -> (url: String)
        ensures
            url@ == spec_login_url(domain@),
            url@ == domain@ + "/api/collections/users/auth-with-password"@,
    {
        String::from_str(domain).concat("/api/collections/users/auth-with-password")
    }

    /// The address that starts or stops (`action`) the timer on the server at `domain`.
    pub fn timer_action_url(domain: &str, action: &str) -> (url: String)
        ensures
            url@ == spec_timer_action_url(domain@, action@),
            url@ == domain@ + "/api/timer/"@ + action@,
    {
        String::from_str(domain).concat("/api/timer/").concat(action)
    }

    /// The login's answer, or the message that says why there is none.
    pub fn login_outcome(reply: Reply<AuthResponse>) -> (r: Result<AuthResponse, String>)
        ensures
            match r {
                Ok(a) => spec_login_outcome(reply) == Ok::<AuthResponseView, Seq<char>>(a@),
                Err(e) => spec_login_outcome(reply) == Err::<AuthResponseView, Seq<char>>(e@),
            },
    {
        match reply {
            Reply::SendFailed(e) => Err(String::from_str("Request error: ").concat(e.as_str())),
            Reply::Refused(status) => Err(String::from_str("Login failed: ").concat(status.as_str())),
            Reply::Answered(Ok(a)) => Ok(a),
            Reply::Answered(Err(e)) => Err(String::from_str("JSON error: ").concat(e.as_str())),
        }
    }

    /// The result of a timer action: success once it was sent, whatever the
    /// server answered, else the message that says why it could not be sent.
    pub fn timer_action_outcome(action: &str, sent: Result<(), String>) -> (r: Result<(), String>)
        ensures
            match r {
                Ok(_) => spec_timer_action_outcome(action@, sent) == Ok::<(), Seq<char>>(()),
                Err(e) => spec_timer_action_outcome(action@, sent) == Err::<(), Seq<char>>(e@),
            },
    {
        match sent {
            Ok(_) => Ok(()),
            Err(e) => Err(String::from_str("Timer ").concat(action).concat(" error: ").concat(e.as_str())),
        }
    }
}

} // verus!
