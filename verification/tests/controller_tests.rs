use adventuria_timer::app::{
    join_strings, AdventuriaApp, Command, HotkeysConfigMessage, Message, TrayEventKind,
    WindowMode,
};
use adventuria_timer::config::Config;
use adventuria_timer::controllers::hotkeys::HotkeysController;
use adventuria_timer::controllers::main::{AuthResponse, MainController, UserRecord};
use adventuria_timer::controllers::timer::TimerController;
use adventuria_timer::controllers::Controller;
use adventuria_timer::hotkeys::{hotkey_id, HotkeyModifier, KeyCode};
use adventuria_timer::views::hotkeys::{HotkeysPanel, HotkeysView};
use adventuria_timer::views::main::MainView;
use adventuria_timer::views::timer::{TimerStatus, TimerView};

fn describe(c: &Command<u32>) -> String {
    match c {
        Command::SaveConfig(cfg) => format!(
            "save token={:?} user={:?} start={:?}+{:?} stop={:?}+{:?}",
            cfg.token, cfg.user_id, cfg.start_modifier, cfg.start_key, cfg.stop_modifier, cfg.stop_key
        ),
        Command::RegisterHotkeys { start_modifier, start_key, stop_modifier, stop_key } => {
            format!("register {:?}+{:?} {:?}+{:?}", start_modifier, start_key, stop_modifier, stop_key)
        }
        Command::Exit => "exit".to_string(),
        Command::Print(s) => format!("print {}", s),
        Command::Login { domain, identity, password } => format!("login {} {} {}", domain, identity, password),
        Command::TimerAction { action, domain, token } => format!("timer {} {} {}", action, domain, token),
        Command::FetchTimerStatus { user_id, domain } => format!("fetch {} {}", user_id, domain),
        Command::SetWindowMode(w, WindowMode::Windowed) => format!("window {} windowed", w),
        Command::SetWindowMode(w, WindowMode::Hidden) => format!("window {} hidden", w),
    }
}

fn run(app: &mut AdventuriaApp<u32>, m: Message<u32>) -> Vec<String> {
    app.update(&m).iter().map(describe).collect()
}

fn fresh() -> AdventuriaApp<u32> {
    AdventuriaApp::new(Config::default(), None, None, "show".to_string(), "quit".to_string())
}

fn logged_in() -> AdventuriaApp<u32> {
    let mut app = fresh();
    run(
        &mut app,
        Message::LoginFinished(Ok(AuthResponse {
            token: "tok".to_string(),
            record: UserRecord { id: "u1".to_string() },
        })),
    );
    app
}

#[test]
fn new_app_initial_state() {
    let app = fresh();
    assert_eq!(app.domain, "https://adventuria-api.tw1.su");
    assert_eq!(app.identity, "");
    assert_eq!(app.password, "");
    assert_eq!(app.status_message, "Ready");
    assert_eq!(app.hotkey_start_id, hotkey_id(HotkeyModifier::Alt, KeyCode::F8));
    assert_eq!(app.hotkey_stop_id, hotkey_id(HotkeyModifier::Alt, KeyCode::F9));
    assert!(!app.timer.is_active);
    assert!(app.window_id.is_none());
}

#[test]
fn new_app_reports_registration_failures() {
    let a: AdventuriaApp<u32> =
        AdventuriaApp::new(Config::default(), Some("busy".to_string()), None, "s".to_string(), "q".to_string());
    assert_eq!(a.status_message, "Hotkey registration failed: Failed to register start hotkey: busy");
    let b: AdventuriaApp<u32> =
        AdventuriaApp::new(Config::default(), None, Some("taken".to_string()), "s".to_string(), "q".to_string());
    assert_eq!(b.status_message, "Hotkey registration failed: Failed to register stop hotkey: taken");
    let c: AdventuriaApp<u32> = AdventuriaApp::new(
        Config::default(),
        Some("busy".to_string()),
        Some("taken".to_string()),
        "s".to_string(),
        "q".to_string(),
    );
    assert_eq!(
        c.status_message,
        "Hotkey registration failed: Failed to register start hotkey: busy, Failed to register stop hotkey: taken"
    );
}

#[test]
fn join_strings_cases() {
    assert_eq!(join_strings(&vec![], ", "), "");
    assert_eq!(join_strings(&vec!["a".to_string()], ", "), "a");
    assert_eq!(join_strings(&vec!["a".to_string(), "b".to_string(), "c".to_string()], "-"), "a-b-c");
}

#[test]
fn editing_fields() {
    let mut app = fresh();
    assert!(run(&mut app, Message::DomainChanged("http://x".to_string())).is_empty());
    assert!(run(&mut app, Message::IdentityChanged("me".to_string())).is_empty());
    assert!(run(&mut app, Message::PasswordChanged("pw".to_string())).is_empty());
    assert_eq!(app.domain, "http://x");
    assert_eq!(app.identity, "me");
    assert_eq!(app.password, "pw");
    assert_eq!(app.status_message, "Ready");
}

#[test]
fn login_pressed_sends_credentials() {
    let mut app = fresh();
    run(&mut app, Message::IdentityChanged("me".to_string()));
    run(&mut app, Message::PasswordChanged("pw".to_string()));
    let cmds = run(&mut app, Message::LoginPressed);
    assert_eq!(cmds, vec!["login https://adventuria-api.tw1.su me pw".to_string()]);
    assert_eq!(app.status_message, "Logging in...");
}

#[test]
fn login_success_stores_session_and_shows_panels() {
    let mut app = fresh();
    run(&mut app, Message::IdentityChanged("me".to_string()));
    run(&mut app, Message::PasswordChanged("pw".to_string()));
    assert_eq!(TimerView::view(&app), None);
    assert_eq!(HotkeysView::view(&app), HotkeysPanel::NotAuthenticated);
    let cmds = run(
        &mut app,
        Message::LoginFinished(Ok(AuthResponse { token: "tok".to_string(), record: UserRecord { id: "u1".to_string() } })),
    );
    assert_eq!(
        cmds,
        vec!["save token=Some(\"tok\") user=Some(\"u1\") start=Alt+F8 stop=Alt+F9".to_string()]
    );
    assert_eq!(app.config.token.as_deref(), Some("tok"));
    assert_eq!(app.config.user_id.as_deref(), Some("u1"));
    assert_eq!(app.identity, "");
    assert_eq!(app.password, "");
    assert_eq!(app.status_message, "Logged in successfully");
    assert_eq!(TimerView::view(&app), Some(TimerStatus::Paused));
    assert_eq!(
        HotkeysView::view(&app),
        HotkeysPanel::Pickers {
            start_modifier: HotkeyModifier::Alt,
            start_key: KeyCode::F8,
            stop_modifier: HotkeyModifier::Alt,
            stop_key: KeyCode::F9,
        }
    );
}

#[test]
fn login_failure_shows_message() {
    let mut app = fresh();
    let cmds = run(&mut app, Message::LoginFinished(Err("Login failed: 400 Bad Request".to_string())));
    assert!(cmds.is_empty());
    assert_eq!(app.status_message, "Login failed: 400 Bad Request");
    assert!(app.config.token.is_none());
}

#[test]
fn hotkey_without_login() {
    let mut app = fresh();
    let id = app.hotkey_start_id;
    let cmds = run(&mut app, Message::HotKeyTriggered(id));
    assert!(cmds.is_empty());
    assert_eq!(app.status_message, "Not logged in");
}

#[test]
fn hotkeys_send_timer_actions() {
    let mut app = logged_in();
    let start = app.hotkey_start_id;
    let stop = app.hotkey_stop_id;
    assert_eq!(
        run(&mut app, Message::HotKeyTriggered(start)),
        vec!["timer start https://adventuria-api.tw1.su tok".to_string()]
    );
    assert_eq!(
        run(&mut app, Message::HotKeyTriggered(stop)),
        vec!["timer stop https://adventuria-api.tw1.su tok".to_string()]
    );
    assert!(run(&mut app, Message::HotKeyTriggered(12345)).is_empty());
    assert_eq!(app.status_message, "Logged in successfully");
}

#[test]
fn timer_request_results() {
    let mut app = logged_in();
    let cmds = run(&mut app, Message::TimerRequestFinished("start".to_string(), Ok(())));
    assert_eq!(cmds, vec!["print Timer start successful".to_string()]);
    assert!(app.timer.is_active);
    assert_eq!(TimerView::view(&app), Some(TimerStatus::Active));
    let cmds = run(&mut app, Message::TimerRequestFinished("stop".to_string(), Ok(())));
    assert_eq!(cmds, vec!["print Timer stop successful".to_string()]);
    assert!(!app.timer.is_active);
    let cmds = run(&mut app, Message::TimerRequestFinished("pause".to_string(), Ok(())));
    assert_eq!(cmds, vec!["print Timer pause successful".to_string()]);
    assert!(!app.timer.is_active);
    let cmds = run(&mut app, Message::TimerRequestFinished("start".to_string(), Err("Timer start error: down".to_string())));
    assert!(cmds.is_empty());
    assert!(!app.timer.is_active);
    assert_eq!(app.status_message, "Timer start error: down");
}

#[test]
fn focus_fetches_timer_status() {
    let mut app = fresh();
    assert!(run(&mut app, Message::WindowFocused).is_empty());
    let mut app = logged_in();
    assert_eq!(
        run(&mut app, Message::WindowFocused),
        vec!["fetch u1 https://adventuria-api.tw1.su".to_string()]
    );
    assert!(run(&mut app, Message::TimerStatusFinished(Ok(true))).is_empty());
    assert!(app.timer.is_active);
    assert_eq!(TimerView::view(&app).unwrap().label(), "Active");
    assert!(run(&mut app, Message::TimerStatusFinished(Err("JSON error: eof".to_string()))).is_empty());
    assert_eq!(app.status_message, "JSON error: eof");
    assert!(app.timer.is_active);
    run(&mut app, Message::TimerStatusFinished(Ok(false)));
    assert_eq!(TimerView::view(&app).unwrap().label(), "Paused");
}

#[test]
fn window_tray_and_menu() {
    let mut app = fresh();
    assert!(run(&mut app, Message::MinimizeToTray).is_empty());
    assert!(run(&mut app, Message::TrayEvent(TrayEventKind::Click)).is_empty());
    assert!(run(&mut app, Message::WindowOpened(7)).is_empty());
    assert_eq!(app.window_id, Some(7));
    assert_eq!(run(&mut app, Message::MinimizeToTray), vec!["window 7 hidden".to_string()]);
    assert_eq!(run(&mut app, Message::TrayEvent(TrayEventKind::Click)), vec!["window 7 windowed".to_string()]);
    assert!(run(&mut app, Message::TrayEvent(TrayEventKind::Other)).is_empty());
    assert_eq!(run(&mut app, Message::MenuEvent("show".to_string())), vec!["window 7 windowed".to_string()]);
    assert_eq!(run(&mut app, Message::MenuEvent("quit".to_string())), vec!["exit".to_string()]);
    assert!(run(&mut app, Message::MenuEvent("other".to_string())).is_empty());
}

#[test]
fn changing_hotkeys_rebinds_and_saves() {
    let mut app = logged_in();
    let cmds = run(&mut app, Message::HotkeysConfig(HotkeysConfigMessage::StartKeyChanged(KeyCode::KeyS)));
    assert_eq!(
        cmds,
        vec![
            "register Alt+KeyS Alt+F9".to_string(),
            "save token=Some(\"tok\") user=Some(\"u1\") start=Alt+KeyS stop=Alt+F9".to_string(),
        ]
    );
    assert_eq!(app.hotkey_start_id, hotkey_id(HotkeyModifier::Alt, KeyCode::KeyS));
    let new_start = hotkey_id(HotkeyModifier::Alt, KeyCode::KeyS);
    assert_eq!(
        run(&mut app, Message::HotKeyTriggered(new_start)),
        vec!["timer start https://adventuria-api.tw1.su tok".to_string()]
    );
    let old_start = hotkey_id(HotkeyModifier::Alt, KeyCode::F8);
    assert!(run(&mut app, Message::HotKeyTriggered(old_start)).is_empty());

    run(&mut app, Message::HotkeysConfig(HotkeysConfigMessage::StartModifierChanged(HotkeyModifier::Ctrl)));
    run(&mut app, Message::HotkeysConfig(HotkeysConfigMessage::StopModifierChanged(HotkeyModifier::NoModifier)));
    let cmds = run(&mut app, Message::HotkeysConfig(HotkeysConfigMessage::StopKeyChanged(KeyCode::F2)));
    assert_eq!(cmds[0], "register Ctrl+KeyS NoModifier+F2");
    assert_eq!(app.hotkey_start_id, hotkey_id(HotkeyModifier::Ctrl, KeyCode::KeyS));
    assert_eq!(app.hotkey_stop_id, hotkey_id(HotkeyModifier::NoModifier, KeyCode::F2));
}

#[test]
fn each_controller_alone() {
    let mut app = logged_in();
    let m: Message<u32> = Message::TimerRequestFinished("start".to_string(), Ok(()));
    let main = MainController::update(&mut app, &m);
    assert_eq!(main.len(), 1);
    assert!(!app.timer.is_active);
    assert!(HotkeysController::update(&mut app, &m).is_empty());
    assert!(TimerController::update(&mut app, &m).is_empty());
    assert!(app.timer.is_active);
    let cmds = HotkeysController::update_hotkeys(&mut app);
    assert_eq!(cmds.len(), 2);
}

#[test]
fn main_view_status_line() {
    let app = fresh();
    let screen = MainView::view(&app);
    assert_eq!(screen.title, "Adventuria Timer");
    assert_eq!(screen.status_line, "Status: Ready");
    assert_eq!(screen.timer, None);
    assert_eq!(screen.hotkeys, HotkeysPanel::NotAuthenticated);
}

#[test]
fn message_clone_behaves_like_original() {
    let m: Message<u32> = Message::LoginFinished(Ok(AuthResponse {
        token: "tok2".to_string(),
        record: UserRecord { id: "u2".to_string() },
    }));
    let c = m.clone();
    let mut a = fresh();
    let mut b = fresh();
    assert_eq!(run(&mut a, m), run(&mut b, c));
    assert_eq!(a.config.token, b.config.token);
    assert_eq!(b.config.user_id.as_deref(), Some("u2"));
    let t: Message<u32> = Message::TimerRequestFinished("stop".to_string(), Err("e".to_string()));
    match t.clone() {
        Message::TimerRequestFinished(a, Err(e)) => {
            assert_eq!(a, "stop");
            assert_eq!(e, "e");
        }
        _ => panic!("clone changed the variant"),
    }
}

#[test]
fn ids_follow_config_through_updates() {
    let mut app = logged_in();
    let msgs: Vec<Message<u32>> = vec![
        Message::HotkeysConfig(HotkeysConfigMessage::StopKeyChanged(KeyCode::KeyX)),
        Message::LoginFinished(Err("x".to_string())),
        Message::WindowFocused,
        Message::HotkeysConfig(HotkeysConfigMessage::StartModifierChanged(HotkeyModifier::Shift)),
        Message::DomainChanged("d".to_string()),
    ];
    for m in msgs {
        run(&mut app, m);
        assert_eq!(app.hotkey_start_id, hotkey_id(app.config.start_modifier, app.config.start_key));
        assert_eq!(app.hotkey_stop_id, hotkey_id(app.config.stop_modifier, app.config.stop_key));
    }
}
