//! Properties of the application that span several messages or functions.
use vstd::prelude::*;
use crate::app::{
    AppView, CommandView, HotkeysConfigMessage, MessageView, WindowMode, app_step,
    ids_match_config, spec_new_app,
};
use crate::config::ConfigView;
use crate::controllers::main::AuthResponseView;
use crate::hotkeys::{
    HotkeyModifier, KeyCode, key_number, lemma_hotkey_id_arith, modifier_bits, spec_hotkey_id,
};
use crate::views::hotkeys::{HotkeysPanel, spec_hotkeys_view};
use crate::views::timer::{TimerStatus, spec_timer_view};
use crate::views::main::spec_status_line;
use crate::app::{TrayEventKind, seq_join, startup_status};
use crate::config::spec_default_config;
use crate::controllers::main::{
    Reply, spec_login_outcome, spec_login_url, spec_timer_action_outcome, spec_timer_action_url,
};
use crate::controllers::timer::{
    TimerRecord, TimerResponse, spec_timer_records_url, spec_timer_status_outcome, spec_user_filter,
};
use crate::log::{decimal, digit_char, spec_crash_report};
use crate::hotkeys::{modifier_flags, modifier_name, spec_all_keys, spec_all_modifiers};
use crate::views::timer::timer_status_label;

verus! {

/// Two hotkeys have the same id only when they have the same modifier and
/// the same key, so a pressed hotkey is never taken for another.
pub proof fn lemma_hotkey_id_injective(m1: HotkeyModifier, k1: KeyCode, m2: HotkeyModifier, k2: KeyCode)
    requires
        spec_hotkey_id(m1, k1) == spec_hotkey_id(m2, k2),
    ensures
        m1 == m2,
        k1 == k2,
{
    lemma_hotkey_id_arith(m1, k1);
    lemma_hotkey_id_arith(m2, k2);
    let b1 = modifier_bits(m1) as int;
    let b2 = modifier_bits(m2) as int;
    let n1 = key_number(k1) as int;
    let n2 = key_number(k2) as int;
    assert(b1 == b2 && n1 == n2) by (nonlinear_arith)
        requires
            b1 * 65536 + n1 == b2 * 65536 + n2,
            0 <= n1 < 65536,
            0 <= n2 < 65536,
            0 <= b1,
            0 <= b2,
    {
        if b1 < b2 {
            assert(b1 * 65536 + 65536 <= b2 * 65536);
        } else if b2 < b1 {
            assert(b2 * 65536 + 65536 <= b1 * 65536);
        }
    }
}

/// At start the registered hotkey ids are those of the loaded settings.
pub proof fn lemma_new_ids_match_config<W>(
    config: ConfigView,
    start_error: Option<Seq<char>>,
    stop_error: Option<Seq<char>>,
    show_item_id: Seq<char>,
    quit_item_id: Seq<char>,
)
    ensures
        ids_match_config(spec_new_app::<W>(config, start_error, stop_error, show_item_id, quit_item_id)),
{
}

/// Whatever message comes, the registered hotkey ids stay those of the
/// configured hotkeys.
pub proof fn lemma_update_keeps_ids_matching<W>(s: AppView<W>, m: MessageView<W>)
    requires
        ids_match_config(s),
    ensures
        ids_match_config(app_step(s, m).0),
{
}

/// After a successful login the session token and the user id are kept in
/// the settings, which are saved, the login fields are emptied, and the
/// window shows the timer line and the hotkey pickers.
pub proof fn lemma_login_success<W>(s: AppView<W>, r: AuthResponseView)
    ensures
        ({
            let (t, cmds) = app_step(s, MessageView::LoginFinished(Ok(r)));
            &&& t == AppView {
                config: ConfigView { token: Some(r.token), user_id: Some(r.user_id), ..s.config },
                status_message: "Logged in successfully"@,
                identity: Seq::<char>::empty(),
                password: Seq::<char>::empty(),
                ..s
            }
            &&& t.config.token == Some(r.token)
            &&& t.config.user_id == Some(r.user_id)
            &&& t.identity == Seq::<char>::empty()
            &&& t.password == Seq::<char>::empty()
            &&& t.status_message == "Logged in successfully"@
            &&& cmds == seq![CommandView::<W>::SaveConfig(t.config)]
            &&& spec_timer_view(t) is Some
            &&& spec_hotkeys_view(t) is Pickers
        }),
{
}

/// A failed login only shows why it failed.
pub proof fn lemma_login_failure<W>(s: AppView<W>, msg: Seq<char>)
    ensures
        app_step(s, MessageView::LoginFinished(Err(msg))) == (
            AppView { status_message: msg, ..s },
            Seq::<CommandView<W>>::empty(),
        ),
{
    assert(app_step(s, MessageView::LoginFinished(Err(msg))).1 =~= Seq::<CommandView<W>>::empty());
}

/// Pressing the start (or else the stop) hotkey of a logged-in user asks the
/// server to start (or stop) the timer with the session token, and changes nothing.
pub proof fn lemma_hotkey_sends_action<W>(s: AppView<W>, id: u32)
    requires
        s.config.token is Some,
        id == s.hotkey_start_id || id == s.hotkey_stop_id,
    ensures
        app_step(s, MessageView::HotKeyTriggered(id)) == (
            s,
            seq![CommandView::<W>::TimerAction {
                action: if id == s.hotkey_start_id { "start"@ } else { "stop"@ },
                domain: s.domain,
                token: s.config.token->0,
            }],
        ),
{
    let r = app_step(s, MessageView::HotKeyTriggered(id));
    assert(r.1 =~= seq![CommandView::<W>::TimerAction {
        action: if id == s.hotkey_start_id { "start"@ } else { "stop"@ },
        domain: s.domain,
        token: s.config.token->0,
    }]);
}

/// Without a session a timer hotkey only says that nobody is logged in.
pub proof fn lemma_hotkey_needs_login<W>(s: AppView<W>, id: u32)
    requires
        s.config.token is None,
        id == s.hotkey_start_id || id == s.hotkey_stop_id,
    ensures
        app_step(s, MessageView::HotKeyTriggered(id)) == (
            AppView { status_message: "Not logged in"@, ..s },
            Seq::<CommandView<W>>::empty(),
        ),
{
    assert(app_step(s, MessageView::HotKeyTriggered(id)).1 =~= Seq::<CommandView<W>>::empty());
}

/// A key combination that is neither hotkey is ignored.
pub proof fn lemma_other_hotkey_ignored<W>(s: AppView<W>, id: u32)
    requires
        id != s.hotkey_start_id,
        id != s.hotkey_stop_id,
    ensures
        app_step(s, MessageView::HotKeyTriggered(id)) == (s, Seq::<CommandView<W>>::empty()),
{
    assert(app_step(s, MessageView::HotKeyTriggered(id)).1 =~= Seq::<CommandView<W>>::empty());
}

/// After the start key is changed, pressing the new combination of a
/// logged-in user starts the timer.
pub proof fn lemma_rebound_start_key_starts<W>(s: AppView<W>, k: KeyCode)
    requires
        ids_match_config(s),
        s.config.token is Some,
    ensures
        ({
            let t = app_step(s, MessageView::HotkeysConfig(HotkeysConfigMessage::StartKeyChanged(k))).0;
            let id = spec_hotkey_id(s.config.start_modifier, k);
            &&& t.config.start_key == k
            &&& app_step(t, MessageView::HotKeyTriggered(id)).1 == seq![CommandView::<W>::TimerAction {
                action: "start"@,
                domain: s.domain,
                token: s.config.token->0,
            }]
        }),
{
    let t = app_step(s, MessageView::HotkeysConfig(HotkeysConfigMessage::StartKeyChanged(k))).0;
    let id = spec_hotkey_id(s.config.start_modifier, k);
    assert(t.hotkey_start_id == id);
    assert(app_step(t, MessageView::HotKeyTriggered(id)).1 =~= seq![CommandView::<W>::TimerAction {
        action: "start"@,
        domain: s.domain,
        token: s.config.token->0,
    }]);
}

/// A change of a hotkey registers both hotkeys anew and saves the settings,
/// in that order.
pub proof fn lemma_hotkey_change_registers_and_saves<W>(s: AppView<W>, c: HotkeysConfigMessage)
    ensures
        ({
            let (t, cmds) = app_step(s, MessageView::HotkeysConfig(c));
            cmds == seq![
                CommandView::<W>::RegisterHotkeys {
                    start_modifier: t.config.start_modifier,
                    start_key: t.config.start_key,
                    stop_modifier: t.config.stop_modifier,
                    stop_key: t.config.stop_key,
                },
                CommandView::<W>::SaveConfig(t.config)
            ]
        }),
{
    let (t, cmds) = app_step(s, MessageView::HotkeysConfig(c));
    assert(cmds =~= seq![
        CommandView::<W>::RegisterHotkeys {
            start_modifier: t.config.start_modifier,
            start_key: t.config.start_key,
            stop_modifier: t.config.stop_modifier,
            stop_key: t.config.stop_key,
        },
        CommandView::<W>::SaveConfig(t.config)
    ]);
}

/// Once the server accepted "start" the timer shows as active, once it
/// accepted "stop" as paused; each success is printed.
pub proof fn lemma_timer_action_success<W>(s: AppView<W>, action: Seq<char>)
    requires
        action == "start"@ || action == "stop"@,
    ensures
        ({
            let (t, cmds) = app_step(s, MessageView::TimerRequestFinished(action, Ok(())));
            &&& t == AppView { timer_active: action == "start"@, ..s }
            &&& cmds == seq![CommandView::<W>::Print("Timer "@ + action + " successful"@)]
        }),
{
    let (t, cmds) = app_step(s, MessageView::TimerRequestFinished(action, Ok(())));
    assert(cmds =~= seq![CommandView::<W>::Print("Timer "@ + action + " successful"@)]);
    assert("start"@ != "stop"@) by {
        reveal_strlit("start");
        reveal_strlit("stop");
        assert("start"@.len() != "stop"@.len());
    }
}

/// A timer action that could not be sent shows why and leaves the timer as it was.
pub proof fn lemma_timer_action_failure<W>(s: AppView<W>, action: Seq<char>, e: Seq<char>)
    ensures
        app_step(s, MessageView::TimerRequestFinished(action, Err(e))) == (
            AppView { status_message: e, ..s },
            Seq::<CommandView<W>>::empty(),
        ),
{
    assert(app_step(s, MessageView::TimerRequestFinished(action, Err(e))).1 =~= Seq::<CommandView<W>>::empty());
}

/// The timer line of a logged-in user shows what the server last said about the timer.
pub proof fn lemma_status_shown<W>(s: AppView<W>, active: bool)
    requires
        s.config.token is Some,
    ensures
        spec_timer_view(app_step(s, MessageView::TimerStatusFinished(Ok(active))).0) == Some(
            if active { TimerStatus::Active } else { TimerStatus::Paused },
        ),
{
}

/// When the window gets the focus, a logged-in user's timer state is asked
/// for; without a user id nothing happens.
pub proof fn lemma_focus_fetches_status<W>(s: AppView<W>)
    ensures
        app_step(s, MessageView::WindowFocused) == (
            s,
            match s.config.user_id {
                Some(u) => seq![CommandView::<W>::FetchTimerStatus { user_id: u, domain: s.domain }],
                None => Seq::<CommandView<W>>::empty(),
            },
        ),
{
    assert(app_step(s, MessageView::WindowFocused).1 =~= match s.config.user_id {
        Some(u) => seq![CommandView::<W>::FetchTimerStatus { user_id: u, domain: s.domain }],
        None => Seq::<CommandView<W>>::empty(),
    });
}

/// Once a window has opened, minimizing hides it and a click on the tray
/// icon shows it again.
pub proof fn lemma_minimize_and_restore<W>(s: AppView<W>, w: W)
    ensures
        ({
            let t = app_step(s, MessageView::WindowOpened(w)).0;
            &&& t.window_id == Some(w)
            &&& app_step(t, MessageView::MinimizeToTray) == (t, seq![CommandView::SetWindowMode(w, WindowMode::Hidden)])
            &&& app_step(t, MessageView::TrayEvent(crate::app::TrayEventKind::Click)) == (
                t,
                seq![CommandView::SetWindowMode(w, WindowMode::Windowed)],
            )
        }),
{
    let t = app_step(s, MessageView::WindowOpened(w)).0;
    assert(app_step(t, MessageView::MinimizeToTray).1 =~= seq![CommandView::SetWindowMode(w, WindowMode::Hidden)]);
    assert(app_step(t, MessageView::TrayEvent(crate::app::TrayEventKind::Click)).1
        =~= seq![CommandView::SetWindowMode(w, WindowMode::Windowed)]);
}

/// Choosing the quit entry of the tray menu ends the application.
pub proof fn lemma_quit_exits<W>(s: AppView<W>)
    requires
        s.quit_item_id != s.show_item_id,
    ensures
        app_step(s, MessageView::MenuEvent(s.quit_item_id)) == (s, seq![CommandView::<W>::Exit]),
{
    assert(app_step(s, MessageView::MenuEvent(s.quit_item_id)).1 =~= seq![CommandView::<W>::Exit]);
}

/// Editing the domain, the identity or the password changes that field
/// alone and sends nothing.
pub proof fn lemma_editing_fields<W>(s: AppView<W>, v: Seq<char>)
    ensures
        app_step(s, MessageView::DomainChanged(v)) == (AppView { domain: v, ..s }, Seq::<CommandView<W>>::empty()),
        app_step(s, MessageView::IdentityChanged(v)) == (AppView { identity: v, ..s }, Seq::<CommandView<W>>::empty()),
        app_step(s, MessageView::PasswordChanged(v)) == (AppView { password: v, ..s }, Seq::<CommandView<W>>::empty()),
{
    assert(app_step(s, MessageView::DomainChanged(v)).1 =~= Seq::<CommandView<W>>::empty());
    assert(app_step(s, MessageView::IdentityChanged(v)).1 =~= Seq::<CommandView<W>>::empty());
    assert(app_step(s, MessageView::PasswordChanged(v)).1 =~= Seq::<CommandView<W>>::empty());
}

/// Pressing login sends the domain, identity and password the state holds
/// and says that the login runs; nothing else changes.
pub proof fn lemma_login_pressed<W>(s: AppView<W>)
    ensures
        app_step(s, MessageView::LoginPressed) == (
            AppView { status_message: "Logging in..."@, ..s },
            seq![CommandView::<W>::Login { domain: s.domain, identity: s.identity, password: s.password }],
        ),
{
    assert(app_step(s, MessageView::LoginPressed).1 =~= seq![
        CommandView::<W>::Login { domain: s.domain, identity: s.identity, password: s.password },
    ]);
}

/// The login request carries what the user typed last into the three fields.
pub proof fn lemma_login_uses_typed_fields<W>(s: AppView<W>, d: Seq<char>, i: Seq<char>, p: Seq<char>)
    ensures
        ({
            let s1 = app_step(s, MessageView::DomainChanged(d)).0;
            let s2 = app_step(s1, MessageView::IdentityChanged(i)).0;
            let s3 = app_step(s2, MessageView::PasswordChanged(p)).0;
            app_step(s3, MessageView::LoginPressed).1
                == seq![CommandView::<W>::Login { domain: d, identity: i, password: p }]
        }),
{
    let s1 = app_step(s, MessageView::DomainChanged(d)).0;
    let s2 = app_step(s1, MessageView::IdentityChanged(i)).0;
    let s3 = app_step(s2, MessageView::PasswordChanged(p)).0;
    lemma_login_pressed(s3);
}

/// A change in the hotkey panel replaces exactly the named setting; the
/// other settings, the session and the rest of the state stay, and the ids
/// become those of the new hotkeys.
pub proof fn lemma_hotkey_change_sets_one_field<W>(s: AppView<W>, c: HotkeysConfigMessage)
    ensures
        ({
            let t = app_step(s, MessageView::HotkeysConfig(c)).0;
            &&& t.config.token == s.config.token
            &&& t.config.user_id == s.config.user_id
            &&& t.config.start_modifier == (match c {
                HotkeysConfigMessage::StartModifierChanged(x) => x,
                _ => s.config.start_modifier,
            })
            &&& t.config.start_key == (match c {
                HotkeysConfigMessage::StartKeyChanged(k) => k,
                _ => s.config.start_key,
            })
            &&& t.config.stop_modifier == (match c {
                HotkeysConfigMessage::StopModifierChanged(x) => x,
                _ => s.config.stop_modifier,
            })
            &&& t.config.stop_key == (match c {
                HotkeysConfigMessage::StopKeyChanged(k) => k,
                _ => s.config.stop_key,
            })
            &&& t.hotkey_start_id == spec_hotkey_id(t.config.start_modifier, t.config.start_key)
            &&& t.hotkey_stop_id == spec_hotkey_id(t.config.stop_modifier, t.config.stop_key)
            &&& t == AppView {
                config: t.config,
                hotkey_start_id: t.hotkey_start_id,
                hotkey_stop_id: t.hotkey_stop_id,
                ..s
            }
        }),
{
}

/// Two changes of the stop hotkey in a row keep both: the key of the first
/// and the modifier of the second, and the stop id is that pair's.
pub proof fn lemma_stop_changes_accumulate<W>(s: AppView<W>, k: KeyCode, x: HotkeyModifier)
    ensures
        ({
            let t1 = app_step(s, MessageView::HotkeysConfig(HotkeysConfigMessage::StopKeyChanged(k))).0;
            let (t2, cmds) = app_step(t1, MessageView::HotkeysConfig(HotkeysConfigMessage::StopModifierChanged(x)));
            &&& t2.config.stop_key == k
            &&& t2.config.stop_modifier == x
            &&& t2.config.start_modifier == s.config.start_modifier
            &&& t2.config.start_key == s.config.start_key
            &&& t2.hotkey_stop_id == spec_hotkey_id(x, k)
            &&& cmds == seq![
                CommandView::<W>::RegisterHotkeys {
                    start_modifier: s.config.start_modifier,
                    start_key: s.config.start_key,
                    stop_modifier: x,
                    stop_key: k,
                },
                CommandView::<W>::SaveConfig(t2.config)
            ]
        }),
{
    let t1 = app_step(s, MessageView::HotkeysConfig(HotkeysConfigMessage::StopKeyChanged(k))).0;
    lemma_hotkey_change_sets_one_field(s, HotkeysConfigMessage::StopKeyChanged(k));
    lemma_hotkey_change_sets_one_field(t1, HotkeysConfigMessage::StopModifierChanged(x));
    lemma_hotkey_change_registers_and_saves(t1, HotkeysConfigMessage::StopModifierChanged(x));
}

/// At start the state holds the loaded settings as they are, the session
/// included, with the ids of their hotkeys, no window, the timer paused and
/// the login fields empty.
pub proof fn lemma_new_keeps_settings<W>(
    config: ConfigView,
    start_error: Option<Seq<char>>,
    stop_error: Option<Seq<char>>,
    show_item_id: Seq<char>,
    quit_item_id: Seq<char>,
)
    ensures
        ({
            let a = spec_new_app::<W>(config, start_error, stop_error, show_item_id, quit_item_id);
            &&& a.config == config
            &&& a.config.token == config.token
            &&& a.config.user_id == config.user_id
            &&& a.hotkey_start_id == spec_hotkey_id(config.start_modifier, config.start_key)
            &&& a.hotkey_stop_id == spec_hotkey_id(config.stop_modifier, config.stop_key)
            &&& a.domain == "https://adventuria-api.tw1.su"@
            &&& a.identity == Seq::<char>::empty()
            &&& a.password == Seq::<char>::empty()
            &&& !a.timer_active
            &&& a.window_id is None
            &&& a.show_item_id == show_item_id
            &&& a.quit_item_id == quit_item_id
        }),
{
}

/// After a restart with a saved session the user is still logged in: the
/// timer line and the pickers of the saved hotkeys show, and the start
/// hotkey starts the timer with the saved token.
pub proof fn lemma_restart_keeps_session<W>(
    config: ConfigView,
    start_error: Option<Seq<char>>,
    stop_error: Option<Seq<char>>,
    show_item_id: Seq<char>,
    quit_item_id: Seq<char>,
)
    requires
        config.token is Some,
    ensures
        ({
            let a = spec_new_app::<W>(config, start_error, stop_error, show_item_id, quit_item_id);
            &&& spec_timer_view(a) == Some(TimerStatus::Paused)
            &&& spec_hotkeys_view(a) == (HotkeysPanel::Pickers {
                start_modifier: config.start_modifier,
                start_key: config.start_key,
                stop_modifier: config.stop_modifier,
                stop_key: config.stop_key,
            })
            &&& app_step(a, MessageView::HotKeyTriggered(spec_hotkey_id(config.start_modifier, config.start_key))).1
                == seq![CommandView::<W>::TimerAction {
                    action: "start"@,
                    domain: "https://adventuria-api.tw1.su"@,
                    token: config.token->0,
                }]
        }),
{
    let a = spec_new_app::<W>(config, start_error, stop_error, show_item_id, quit_item_id);
    lemma_hotkey_sends_action(a, a.hotkey_start_id);
}

/// The start-up status: ready when both hotkeys were registered, else the
/// failures, start first, joined by a comma.
pub proof fn lemma_startup_status(a: Seq<char>, b: Seq<char>)
    ensures
        startup_status(None, None) == "Ready"@,
        startup_status(Some(a), None) == "Hotkey registration failed: "@ + ("Failed to register start hotkey: "@ + a),
        startup_status(None, Some(b)) == "Hotkey registration failed: "@ + ("Failed to register stop hotkey: "@ + b),
        startup_status(Some(a), Some(b)) == "Hotkey registration failed: "@
            + (("Failed to register start hotkey: "@ + a) + ", "@ + ("Failed to register stop hotkey: "@ + b)),
{
    let ea = "Failed to register start hotkey: "@ + a;
    let eb = "Failed to register stop hotkey: "@ + b;
    assert(seq![ea] + Seq::<Seq<char>>::empty() =~= seq![ea]);
    assert(Seq::<Seq<char>>::empty() + seq![eb] =~= seq![eb]);
    assert(seq![ea] + seq![eb] =~= seq![ea, eb]);
    assert(seq![ea, eb].drop_last() =~= seq![ea]);
    assert(Seq::<Seq<char>>::empty() + Seq::<Seq<char>>::empty() =~= Seq::<Seq<char>>::empty());
}

/// Joining: nothing gives the empty string, one string gives itself, and a
/// longer list is the join of all but the last, the separator and the last.
pub proof fn lemma_seq_join(list: Seq<Seq<char>>, sep: Seq<char>, x: Seq<char>)
    ensures
        seq_join(Seq::empty(), sep) == Seq::<char>::empty(),
        seq_join(seq![x], sep) == x,
        list.len() > 0 ==> seq_join(list.push(x), sep) == seq_join(list, sep) + sep + x,
{
    assert(list.push(x).drop_last() =~= list);
}

/// The hotkey panel of a logged-in user selects, in each picker, the
/// configured value of that same setting; without a session it is the notice.
pub proof fn lemma_hotkeys_panel_shows_config<W>(s: AppView<W>)
    ensures
        s.config.token is Some ==> spec_hotkeys_view(s) == (HotkeysPanel::Pickers {
            start_modifier: s.config.start_modifier,
            start_key: s.config.start_key,
            stop_modifier: s.config.stop_modifier,
            stop_key: s.config.stop_key,
        }),
        s.config.token is None ==> spec_hotkeys_view(s) == HotkeysPanel::NotAuthenticated,
{
}

/// The timer line shows only with a session, as active exactly when the timer runs.
pub proof fn lemma_timer_line<W>(s: AppView<W>)
    ensures
        s.config.token is None ==> spec_timer_view(s) is None,
        s.config.token is Some ==> spec_timer_view(s) == Some(
            if s.timer_active { TimerStatus::Active } else { TimerStatus::Paused },
        ),
{
}

/// The status line is the status message behind "Status: ".
pub proof fn lemma_status_line(m: Seq<char>)
    ensures
        spec_status_line(m) == "Status: "@ + m,
        spec_status_line(m).len() == "Status: "@.len() + m.len(),
        spec_status_line(m).skip("Status: "@.len() as int) == m,
{
    assert(spec_status_line(m).skip("Status: "@.len() as int) =~= m);
}

/// The server's answer about the timer replaces what the window shows; a
/// failed answer only shows why.
pub proof fn lemma_timer_status_answer<W>(s: AppView<W>, active: bool, e: Seq<char>)
    ensures
        app_step(s, MessageView::TimerStatusFinished(Ok(active))) == (
            AppView { timer_active: active, ..s },
            Seq::<CommandView<W>>::empty(),
        ),
        app_step(s, MessageView::TimerStatusFinished(Err(e))) == (
            AppView { status_message: e, ..s },
            Seq::<CommandView<W>>::empty(),
        ),
{
    assert(app_step(s, MessageView::TimerStatusFinished(Ok(active))).1 =~= Seq::<CommandView<W>>::empty());
    assert(app_step(s, MessageView::TimerStatusFinished(Err(e))).1 =~= Seq::<CommandView<W>>::empty());
}

/// The window: opening one records it; the tray icon and the menu show it,
/// minimizing hides it, and without a window they do nothing; other tray
/// events and unknown menu entries are ignored.
pub proof fn lemma_window_events<W>(s: AppView<W>, w: W, id: Seq<char>)
    ensures
        app_step(s, MessageView::WindowOpened(w)) == (AppView { window_id: Some(w), ..s }, Seq::<CommandView<W>>::empty()),
        app_step(s, MessageView::TrayEvent(TrayEventKind::Other)) == (s, Seq::<CommandView<W>>::empty()),
        app_step(s, MessageView::MinimizeToTray) == (s, match s.window_id {
            Some(v) => seq![CommandView::SetWindowMode(v, WindowMode::Hidden)],
            None => Seq::<CommandView<W>>::empty(),
        }),
        app_step(s, MessageView::TrayEvent(TrayEventKind::Click)) == (s, match s.window_id {
            Some(v) => seq![CommandView::SetWindowMode(v, WindowMode::Windowed)],
            None => Seq::<CommandView<W>>::empty(),
        }),
        app_step(s, MessageView::MenuEvent(s.show_item_id)) == (s, match s.window_id {
            Some(v) => seq![CommandView::SetWindowMode(v, WindowMode::Windowed)],
            None => Seq::<CommandView<W>>::empty(),
        }),
        id != s.show_item_id && id != s.quit_item_id ==> app_step(s, MessageView::MenuEvent(id)) == (
            s,
            Seq::<CommandView<W>>::empty(),
        ),
{
    assert(app_step(s, MessageView::WindowOpened(w)).1 =~= Seq::<CommandView<W>>::empty());
    assert(app_step(s, MessageView::TrayEvent(TrayEventKind::Other)).1 =~= Seq::<CommandView<W>>::empty());
    assert(app_step(s, MessageView::MinimizeToTray).1 =~= match s.window_id {
        Some(v) => seq![CommandView::SetWindowMode(v, WindowMode::Hidden)],
        None => Seq::<CommandView<W>>::empty(),
    });
    assert(app_step(s, MessageView::TrayEvent(TrayEventKind::Click)).1 =~= match s.window_id {
        Some(v) => seq![CommandView::SetWindowMode(v, WindowMode::Windowed)],
        None => Seq::<CommandView<W>>::empty(),
    });
    assert(app_step(s, MessageView::MenuEvent(s.show_item_id)).1 =~= match s.window_id {
        Some(v) => seq![CommandView::SetWindowMode(v, WindowMode::Windowed)],
        None => Seq::<CommandView<W>>::empty(),
    });
    assert(app_step(s, MessageView::MenuEvent(id)).1 =~= match s.window_id {
        Some(v) => if id == s.show_item_id {
            seq![CommandView::SetWindowMode(v, WindowMode::Windowed)]
        } else if id == s.quit_item_id {
            seq![CommandView::<W>::Exit]
        } else {
            Seq::<CommandView<W>>::empty()
        },
        None => if id == s.show_item_id {
            Seq::<CommandView<W>>::empty()
        } else if id == s.quit_item_id {
            seq![CommandView::<W>::Exit]
        } else {
            Seq::<CommandView<W>>::empty()
        },
    });
}

/// The timer action address is the domain, "/api/timer/" and the action
/// itself: it ends in the action, so different actions go to different addresses.
pub proof fn lemma_timer_action_url(d: Seq<char>, a: Seq<char>, b: Seq<char>)
    ensures
        spec_timer_action_url(d, a) == d + "/api/timer/"@ + a,
        spec_timer_action_url(d, a).take(d.len() as int) == d,
        spec_timer_action_url(d, a).skip(spec_timer_action_url(d, a).len() - a.len()) == a,
        a != b ==> spec_timer_action_url(d, a) != spec_timer_action_url(d, b),
{
    let u = spec_timer_action_url(d, a);
    assert(u.take(d.len() as int) =~= d);
    assert(u.skip(u.len() - a.len()) =~= a);
    if a != b && spec_timer_action_url(d, a) == spec_timer_action_url(d, b) {
        let p = d + "/api/timer/"@;
        assert(spec_timer_action_url(d, a).skip(p.len() as int) =~= a);
        assert(spec_timer_action_url(d, b).skip(p.len() as int) =~= b);
    }
}

/// The login address and the timer records address are the domain followed
/// by their fixed paths, and the records filter names the user in quotes.
pub proof fn lemma_request_addresses(d: Seq<char>, u: Seq<char>)
    ensures
        spec_login_url(d) == d + "/api/collections/users/auth-with-password"@,
        spec_login_url(d).take(d.len() as int) == d,
        spec_timer_records_url(d) == d + "/api/collections/timers/records"@,
        spec_timer_records_url(d).take(d.len() as int) == d,
        spec_user_filter(u) == "user=\""@ + u + "\""@,
{
    assert(spec_login_url(d).take(d.len() as int) =~= d);
    assert(spec_timer_records_url(d).take(d.len() as int) =~= d);
}

/// How a login request went decides its result: the answer when it was
/// read, else the reason behind a prefix that says which step failed.
pub proof fn lemma_login_outcomes(a: crate::controllers::main::AuthResponse, e: String)
    ensures
        spec_login_outcome(Reply::Answered(Ok(a))) == Ok::<AuthResponseView, Seq<char>>(a@),
        spec_login_outcome(Reply::SendFailed(e)) == Err::<AuthResponseView, Seq<char>>("Request error: "@ + e@),
        spec_login_outcome(Reply::Refused(e)) == Err::<AuthResponseView, Seq<char>>("Login failed: "@ + e@),
        spec_login_outcome(Reply::Answered(Err(e))) == Err::<AuthResponseView, Seq<char>>("JSON error: "@ + e@),
{
}

/// A timer action succeeds once it is sent; otherwise the message names the
/// action and the reason.
pub proof fn lemma_timer_action_outcomes(a: Seq<char>, e: String)
    ensures
        spec_timer_action_outcome(a, Ok(())) == Ok::<(), Seq<char>>(()),
        spec_timer_action_outcome(a, Err(e)) == Err::<(), Seq<char>>("Timer "@ + a + " error: "@ + e@),
{
}

/// Whether the timer runs is the first record's flag, no when there is
/// none; a failed request gives the reason behind a prefix naming the step.
pub proof fn lemma_timer_status_outcomes(r: TimerRecord, rest: Seq<TimerRecord>, e: String, resp: TimerResponse)
    ensures
        resp.items@ == seq![r] + rest ==> spec_timer_status_outcome(Reply::Answered(Ok(resp))) == Ok::<bool, Seq<char>>(r.is_active),
        resp.items@.len() == 0 ==> spec_timer_status_outcome(Reply::Answered(Ok(resp))) == Ok::<bool, Seq<char>>(false),
        spec_timer_status_outcome(Reply::SendFailed(e)) == Err::<bool, Seq<char>>("Request error: "@ + e@),
        spec_timer_status_outcome(Reply::Refused(e)) == Err::<bool, Seq<char>>("Timer request failed: "@ + e@),
        spec_timer_status_outcome(Reply::Answered(Err(e))) == Err::<bool, Seq<char>>("JSON error: "@ + e@),
{
    if resp.items@ == seq![r] + rest {
        assert(resp.items@[0] == r);
    }
}

/// The settings of a first run: no session, Alt+F8 to start and Alt+F9 to stop.
pub proof fn lemma_default_settings()
    ensures
        spec_default_config().token is None,
        spec_default_config().user_id is None,
        spec_default_config().start_modifier == HotkeyModifier::Alt,
        spec_default_config().start_key == KeyCode::F8,
        spec_default_config().stop_modifier == HotkeyModifier::Alt,
        spec_default_config().stop_key == KeyCode::F9,
{
}

/// A hotkey without modifier has the key's number as id, and a modifier
/// adds its bits times 65536.
pub proof fn lemma_hotkey_id_values(m: HotkeyModifier, k: KeyCode)
    ensures
        spec_hotkey_id(HotkeyModifier::NoModifier, k) == key_number(k),
        spec_hotkey_id(HotkeyModifier::Alt, k) == 0x01 * 65536 + key_number(k),
        spec_hotkey_id(HotkeyModifier::Ctrl, k) == 0x08 * 65536 + key_number(k),
        spec_hotkey_id(HotkeyModifier::Shift, k) == 0x200 * 65536 + key_number(k),
{
    lemma_hotkey_id_arith(HotkeyModifier::NoModifier, k);
    lemma_hotkey_id_arith(HotkeyModifier::Alt, k);
    lemma_hotkey_id_arith(HotkeyModifier::Ctrl, k);
    lemma_hotkey_id_arith(HotkeyModifier::Shift, k);
}

/// Appending a digit to a number appends its character to the number's
/// decimal notation; a digit alone is its own character.
pub proof fn lemma_decimal_digits(n: nat, d: nat)
    requires
        d < 10,
    ensures
        decimal(d) == seq![digit_char(d)],
        n > 0 ==> decimal(10 * n + d) == decimal(n) + seq![digit_char(d)],
{
    if n > 0 {
        let m = 10 * n + d;
        assert(m / 10 == n && m % 10 == d) by (nonlinear_arith)
            requires m == 10 * n + d, d < 10;
        assert(m >= 10);
    }
}

/// A crash report lists the time, the message ("Unknown panic" when there
/// is none) and the place ("at file:line", empty when unknown), each on its line.
pub proof fn lemma_crash_report(t: Seq<char>, m: Seq<char>, f: Seq<char>, l: u32)
    ensures
        spec_crash_report(t, Some(m), Some((f, l))) == "--- Application Crash ---\nTime: "@ + t
            + "\nMessage: "@ + m + "\nLocation: "@ + ("at "@ + f + ":"@ + decimal(l as nat)) + "\n\n"@,
        spec_crash_report(t, None, None) == "--- Application Crash ---\nTime: "@ + t
            + "\nMessage: "@ + "Unknown panic"@ + "\nLocation: "@ + Seq::<char>::empty() + "\n\n"@,
{
}

/// The modifier bits are the hotkey library's flags: Alt 0x01, Ctrl 0x08,
/// Shift 0x200, and no modifier gives no flags; each shows under its name.
pub proof fn lemma_modifier_flags()
    ensures
        modifier_flags(HotkeyModifier::Alt) == Some(0x01u32),
        modifier_flags(HotkeyModifier::Ctrl) == Some(0x08u32),
        modifier_flags(HotkeyModifier::Shift) == Some(0x200u32),
        modifier_flags(HotkeyModifier::NoModifier) is None,
        modifier_name(HotkeyModifier::Alt) == "Alt"@,
        modifier_name(HotkeyModifier::Ctrl) == "Ctrl"@,
        modifier_name(HotkeyModifier::Shift) == "Shift"@,
        modifier_name(HotkeyModifier::NoModifier) == "None"@,
        timer_status_label(TimerStatus::Active) == "Active"@,
        timer_status_label(TimerStatus::Paused) == "Paused"@,
{
}

/// The modifier picker offers each of the four modifiers once; the key
/// picker offers the letters A to Z and then the function keys F1 to F12.
pub proof fn lemma_picker_lists()
    ensures
        spec_all_modifiers().len() == 4,
        forall|m: HotkeyModifier| spec_all_modifiers().contains(m),
        spec_all_keys().len() == 38,
        forall|i: int| 0 <= i < 26 ==> key_number(#[trigger] spec_all_keys()[i]) == 19 + i,
        forall|i: int| 26 <= i < 38 ==> key_number(#[trigger] spec_all_keys()[i]) == 160 + (i - 26),
{
    assert forall|m: HotkeyModifier| spec_all_modifiers().contains(m) by {
        match m {
            HotkeyModifier::Alt => assert(spec_all_modifiers()[0] == m),
            HotkeyModifier::Ctrl => assert(spec_all_modifiers()[1] == m),
            HotkeyModifier::Shift => assert(spec_all_modifiers()[2] == m),
            HotkeyModifier::NoModifier => assert(spec_all_modifiers()[3] == m),
        }
    }
}

} // verus!
