use adventuria_timer::controllers::main::{AuthResponse, MainController, Reply, UserRecord};
use adventuria_timer::controllers::timer::{TimerController, TimerRecord, TimerResponse};
use adventuria_timer::log::{crash_report, push_decimal};

#[test]
fn request_addresses() {
    assert_eq!(
        MainController::login_url("https://a.b"),
        "https://a.b/api/collections/users/auth-with-password"
    );
    assert_eq!(MainController::timer_action_url("https://a.b", "start"), "https://a.b/api/timer/start");
    assert_eq!(TimerController::timer_records_url("https://a.b"), "https://a.b/api/collections/timers/records");
    let q = TimerController::timer_query("abc");
    assert_eq!(q.page, 1);
    assert_eq!(q.per_page, 1);
    assert_eq!(q.filter, "user=\"abc\"");
    assert_eq!(q.skip_total, 1);
}

#[test]
fn login_outcomes() {
    let ok = MainController::login_outcome(Reply::Answered(Ok(AuthResponse {
        token: "t".to_string(),
        record: UserRecord { id: "i".to_string() },
    })))
    .unwrap();
    assert_eq!(ok.token, "t");
    assert_eq!(ok.record.id, "i");
    assert_eq!(
        MainController::login_outcome(Reply::SendFailed("dns".to_string())).err().unwrap(),
        "Request error: dns"
    );
    assert_eq!(
        MainController::login_outcome(Reply::Refused("400 Bad Request".to_string())).err().unwrap(),
        "Login failed: 400 Bad Request"
    );
    assert_eq!(
        MainController::login_outcome(Reply::Answered(Err("missing field".to_string()))).err().unwrap(),
        "JSON error: missing field"
    );
}

#[test]
fn timer_action_outcomes() {
    assert_eq!(MainController::timer_action_outcome("start", Ok(())), Ok(()));
    assert_eq!(
        MainController::timer_action_outcome("stop", Err("timeout".to_string())),
        Err("Timer stop error: timeout".to_string())
    );
}

fn record(active: bool) -> TimerRecord {
    TimerRecord { id: "r".to_string(), is_active: active }
}

#[test]
fn timer_status_outcomes() {
    assert_eq!(
        TimerController::timer_status_outcome(Reply::Answered(Ok(TimerResponse { items: vec![record(true), record(false)] }))),
        Ok(true)
    );
    assert_eq!(
        TimerController::timer_status_outcome(Reply::Answered(Ok(TimerResponse { items: vec![record(false), record(true)] }))),
        Ok(false)
    );
    assert_eq!(TimerController::timer_status_outcome(Reply::Answered(Ok(TimerResponse { items: vec![] }))), Ok(false));
    assert_eq!(
        TimerController::timer_status_outcome(Reply::Refused("500 Internal Server Error".to_string())),
        Err("Timer request failed: 500 Internal Server Error".to_string())
    );
    assert_eq!(
        TimerController::timer_status_outcome(Reply::SendFailed("refused".to_string())),
        Err("Request error: refused".to_string())
    );
    assert_eq!(
        TimerController::timer_status_outcome(Reply::Answered(Err("eof".to_string()))),
        Err("JSON error: eof".to_string())
    );
    assert!(TimerResponse { items: vec![record(true)] }.first_is_active());
}

#[test]
fn decimal_numbers() {
    for n in [0u32, 7, 10, 99, 100, 4096, 4294967295] {
        let mut s = String::from("x");
        push_decimal(n, &mut s);
        assert_eq!(s, format!("x{}", n));
    }
}

#[test]
fn crash_reports() {
    assert_eq!(
        crash_report("2024-01-02 03:04:05", Some("boom"), Some(("src/main.rs", 42))),
        "--- Application Crash ---\nTime: 2024-01-02 03:04:05\nMessage: boom\nLocation: at src/main.rs:42\n\n"
    );
    assert_eq!(
        crash_report("t", None, None),
        "--- Application Crash ---\nTime: t\nMessage: Unknown panic\nLocation: \n\n"
    );
}
