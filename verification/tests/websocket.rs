use comfyui_openai_api::codec::parse_text;
use comfyui_openai_api::ws::{
    completed_job, history_has, history_lists, job_in_text, JobWait, Listener, ListenerAction,
    ListenerEvent, WaitAction, WaitEvent, WebSocketManager,
};

fn manager() -> WebSocketManager {
    WebSocketManager::new("localhost".to_string(), "8188".to_string(), "client-1".to_string())
}

fn executing(prompt_id: &str, node: &str) -> String {
    format!(
        r#"{{"type":"executing","data":{{"prompt_id":"{}","node":{}}}}}"#,
        prompt_id, node
    )
}

fn is_known(manager: &mut WebSocketManager, prompt_id: &str) -> bool {
    let (_, action) = manager.wait_for_job_completion(prompt_id, JobWait::new(), WaitEvent::Check);
    action == WaitAction::Done
}

const URL: &str = "ws://localhost:8188/ws?clientId=client-1";

#[test]
fn addresses_name_the_backend() {
    assert_eq!(manager().websocket_url(), URL);
    assert_eq!(manager().history_url("id-1"), "http://localhost:8188/history/id-1");
}

#[test]
fn messages_report_completed_jobs() {
    for (message, job) in [
        (executing("a", "null"), Some("a")),
        (executing("a", "\"5\""), None),
        (executing("a", "false"), None),
        (r#"{"type":"executing","data":{"prompt_id":"a"}}"#.to_string(), Some("a")),
        (r#"{"type":"executing","data":{"node":null}}"#.to_string(), None),
        (r#"{"type":"executing","data":{"prompt_id":5,"node":null}}"#.to_string(), None),
        (r#"{"type":"executing"}"#.to_string(), None),
        (r#"{"type":"execution_success","data":{"prompt_id":"b","node":"5"}}"#.to_string(), Some("b")),
        (r#"{"type":"execution_success","data":["b"]}"#.to_string(), None),
        (r#"{"type":"progress","data":{"prompt_id":"b","node":null}}"#.to_string(), None),
        (r#"{"type":7,"data":{"prompt_id":"b","node":null}}"#.to_string(), None),
        ("[]".to_string(), None),
    ] {
        assert_eq!(completed_job(&parse_text(&message).unwrap()).as_deref(), job);
        assert_eq!(job_in_text(&message).as_deref(), job);
    }
    assert_eq!(job_in_text("no json"), None);
    assert_eq!(job_in_text(""), None);
}

#[test]
fn a_reported_job_is_known() {
    let mut manager = manager();
    assert!(!is_known(&mut manager, "a"));
    let event = ListenerEvent::Text(executing("a", "null"));
    let (_, action) = manager.message_listener(Listener::new(), event);
    assert_eq!(action, ListenerAction::Listen { timeout_secs: 60 });
    assert!(is_known(&mut manager, "a"));
    assert!(!is_known(&mut manager, "b"));
}

#[test]
fn other_messages_change_nothing() {
    let mut manager = manager();
    for event in [
        ListenerEvent::Text("no json".to_string()),
        ListenerEvent::Text(executing("a", "\"3\"")),
        ListenerEvent::OtherMessage,
    ] {
        let (_, action) = manager.message_listener(Listener::new(), event);
        assert_eq!(action, ListenerAction::Listen { timeout_secs: 60 });
    }
    assert!(!is_known(&mut manager, "a"));
}

#[test]
fn the_hundred_most_recent_jobs_are_known() {
    let mut manager = manager();
    for i in 0..101 {
        let event = ListenerEvent::Text(executing(&format!("job-{}", i), "null"));
        let _ = manager.message_listener(Listener::new(), event);
    }
    assert!(!is_known(&mut manager, "job-0"));
    assert!(is_known(&mut manager, "job-1"));
    assert!(is_known(&mut manager, "job-100"));
}

#[test]
fn reconnecting_waits_longer_each_time() {
    let mut manager = manager();
    let delays = [
        2_000_000_000,
        3_000_000_000,
        4_500_000_000,
        6_750_000_000,
        10_125_000_000,
        15_187_500_000,
        22_781_250_000,
        34_171_875_000,
        51_257_812_500,
        60_000_000_000,
        60_000_000_000,
        60_000_000_000,
    ];
    let mut listener = Listener::new();
    let mut event = ListenerEvent::Lost;
    for (i, delay) in delays.iter().enumerate() {
        let (next, action) = manager.message_listener(listener, event);
        assert_eq!(
            action,
            ListenerAction::Reconnect {
                attempt: i as u32 + 1,
                delay_nanos: *delay,
                url: URL.to_string(),
            }
        );
        listener = next;
        event = ListenerEvent::ConnectFailed;
    }
}

#[test]
fn delays_are_those_of_seconds_times_one_and_a_half() {
    let mut manager = manager();
    let (mut listener, _) = manager.message_listener(Listener::new(), ListenerEvent::Lost);
    let mut delay = std::time::Duration::from_secs(2);
    for _ in 0..15 {
        let (next, action) = manager.message_listener(listener, ListenerEvent::ConnectFailed);
        delay = std::time::Duration::from_secs_f64((delay.as_secs_f64() * 1.5).min(60.0));
        match action {
            ListenerAction::Reconnect { delay_nanos, .. } => {
                assert_eq!(std::time::Duration::from_nanos(delay_nanos), delay)
            }
            ListenerAction::Listen { .. } => panic!("no attempt to reconnect"),
        }
        listener = next;
    }
}

#[test]
fn a_connection_starts_the_delays_over() {
    let mut manager = manager();
    let (listener, _) = manager.message_listener(Listener::new(), ListenerEvent::Lost);
    let (listener, _) = manager.message_listener(listener, ListenerEvent::ConnectFailed);
    let (listener, action) = manager.message_listener(listener, ListenerEvent::Connected);
    assert_eq!(action, ListenerAction::Listen { timeout_secs: 60 });
    let (_, action) = manager.message_listener(listener, ListenerEvent::Lost);
    assert_eq!(
        action,
        ListenerAction::Reconnect { attempt: 1, delay_nanos: 2_000_000_000, url: URL.to_string() }
    );
}

#[test]
fn every_fourth_check_asks_the_history() {
    let mut manager = manager();
    let mut wait = JobWait::new();
    for round in 1..=12 {
        let (next, action) = manager.wait_for_job_completion("id-1", wait, WaitEvent::Check);
        wait = next;
        if round % 4 == 0 {
            assert_eq!(
                action,
                WaitAction::AskHistory {
                    url: "http://localhost:8188/history/id-1".to_string(),
                    timeout_secs: 3,
                }
            );
            let (next, action) = manager.wait_for_job_completion("id-1", wait, WaitEvent::HistoryFailed);
            assert_eq!(action, WaitAction::Sleep { millis: 500 });
            wait = next;
        } else {
            assert_eq!(action, WaitAction::Sleep { millis: 500 });
        }
    }
}

fn asking(manager: &mut WebSocketManager) -> JobWait {
    let mut wait = JobWait::new();
    for _ in 0..4 {
        wait = manager.wait_for_job_completion("id-1", wait, WaitEvent::Check).0;
    }
    wait
}

#[test]
fn the_history_completes_a_job() {
    let mut manager = manager();
    let wait = asking(&mut manager);
    let event = WaitEvent::History { status: 200, body: br#"{"id-1":null}"#.to_vec() };
    assert_eq!(manager.wait_for_job_completion("id-1", wait, event).1, WaitAction::Done);
    assert!(is_known(&mut manager, "id-1"));
}

#[test]
fn a_history_that_does_not_show_the_job_leaves_it_waiting() {
    for (status, body) in [
        (200, "{}"),
        (200, "[]"),
        (200, "no json"),
        (404, r#"{"id-1":{}}"#),
        (500, r#"{"id-1":{}}"#),
        (199, r#"{"id-1":{}}"#),
        (300, r#"{"id-1":{}}"#),
    ] {
        let mut manager = manager();
        let wait = asking(&mut manager);
        let event = WaitEvent::History { status, body: body.as_bytes().to_vec() };
        let (_, action) = manager.wait_for_job_completion("id-1", wait, event);
        assert_eq!(action, WaitAction::Sleep { millis: 500 });
        assert!(!is_known(&mut manager, "id-1"));
    }
}

#[test]
fn any_success_counts_as_an_answer_of_the_history() {
    let body = br#"{"id-1":{}}"#.to_vec();
    assert!(history_has(200, &body, "id-1"));
    assert!(history_has(299, &body, "id-1"));
    assert!(!history_has(300, &body, "id-1"));
    assert!(!history_has(200, &body, "id-2"));
    assert!(history_lists(&parse_text(r#"{"id-1":{}}"#).unwrap(), "id-1"));
}
