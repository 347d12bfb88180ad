use vkoxide::dispatcher::{PollAction, Poller};
use vkoxide::types::{ApiError, LongPollResponse, LongPollServer, Update, UpdateKind, VkError};

fn server(ts: &str) -> LongPollServer {
    LongPollServer {
        server: "https://lp.vk.ru/whp/1".to_string(),
        key: "secret".to_string(),
        ts: ts.to_string(),
    }
}

fn api_error() -> VkError {
    VkError::Api(ApiError { error_code: 5, error_msg: "auth".to_string(), request_params: vec![] })
}

fn answer(ts: Option<&str>, updates: Option<Vec<Update>>, failed: Option<i32>) -> LongPollResponse {
    LongPollResponse { ts: ts.map(|t| t.to_string()), updates, failed }
}

fn expect_poll(a: PollAction, ts: &str) {
    match a {
        PollAction::Poll { url, params } => {
            assert_eq!(url, "https://lp.vk.ru/whp/1");
            let expected: Vec<(String, String)> = vec![
                ("act".to_string(), "a_check".to_string()),
                ("key".to_string(), "secret".to_string()),
                ("wait".to_string(), "25".to_string()),
                ("ts".to_string(), ts.to_string()),
            ];
            assert_eq!(params, expected);
        }
        other => panic!("expected a poll, got {:?}", other),
    }
}

fn expect_sleep(a: PollAction, seconds: u64) {
    match a {
        PollAction::Sleep { seconds: s } => assert_eq!(s, seconds),
        other => panic!("expected a sleep, got {:?}", other),
    }
}

fn polling() -> Poller {
    let mut p = Poller::new();
    expect_poll(p.on_server(Ok(server("10"))), "10");
    p
}

#[test]
fn starts_by_requesting_a_server() {
    let p = Poller::new();
    assert!(matches!(p.start(), PollAction::RequestServer));
}

#[test]
fn first_server_failure_stops_with_the_error() {
    let mut p = Poller::new();
    match p.on_server(Err(api_error())) {
        PollAction::Stop { result: Err(VkError::Api(e)) } => assert_eq!(e.error_code, 5),
        other => panic!("expected a stop, got {:?}", other),
    }
}

#[test]
fn failures_back_off_up_to_thirty_seconds() {
    let mut p = polling();
    for s in [1, 2, 4, 8, 16, 30, 30] {
        expect_sleep(p.on_poll_failed(), s);
        expect_poll(p.on_sleep_end(), "10");
    }
}

#[test]
fn delivery_takes_the_marker_and_resets_the_delay() {
    let mut p = polling();
    expect_sleep(p.on_poll_failed(), 1);
    expect_sleep(p.on_poll_failed(), 2);
    let u = Update {
        event_id: "e".to_string(),
        group_id: 1,
        v: "5.199".to_string(),
        kind: UpdateKind::Unknown("{}".to_string()),
    };
    match p.on_answer(answer(Some("11"), Some(vec![u]), None)) {
        PollAction::Deliver { updates } => {
            assert_eq!(updates.len(), 1);
            assert_eq!(updates[0].event_id, "e");
        }
        other => panic!("expected a delivery, got {:?}", other),
    }
    expect_poll(p.on_delivered(), "11");
    expect_sleep(p.on_poll_failed(), 1);
}

#[test]
fn answer_without_updates_delivers_none() {
    let mut p = polling();
    match p.on_answer(answer(Some("12"), None, None)) {
        PollAction::Deliver { updates } => assert!(updates.is_empty()),
        other => panic!("expected a delivery, got {:?}", other),
    }
    expect_poll(p.on_delivered(), "12");
}

#[test]
fn answer_without_marker_polls_again() {
    let mut p = polling();
    expect_poll(p.on_answer(answer(None, Some(vec![]), None)), "10");
}

#[test]
fn failed_one_moves_to_the_new_marker() {
    let mut p = polling();
    expect_poll(p.on_answer(answer(Some("123456"), None, Some(1))), "123456");
    expect_poll(p.on_answer(answer(None, None, Some(1))), "123456");
}

#[test]
fn failed_two_or_three_requests_a_new_server() {
    let mut p = polling();
    assert!(matches!(p.on_answer(answer(None, None, Some(2))), PollAction::RequestServer));
    assert!(matches!(p.on_answer(answer(None, None, Some(3))), PollAction::RequestServer));
    expect_sleep(p.on_poll_failed(), 1);
    expect_poll(p.on_server(Ok(server("99"))), "99");
    expect_sleep(p.on_poll_failed(), 1);
}

#[test]
fn later_server_failure_backs_off() {
    let mut p = polling();
    assert!(matches!(p.on_answer(answer(None, None, Some(2))), PollAction::RequestServer));
    expect_sleep(p.on_server(Err(api_error())), 1);
    expect_poll(p.on_sleep_end(), "10");
    expect_sleep(p.on_server(Err(api_error())), 2);
}

#[test]
fn other_failed_codes_back_off() {
    let mut p = polling();
    expect_sleep(p.on_answer(answer(Some("1"), None, Some(4))), 1);
    expect_sleep(p.on_answer(answer(None, None, Some(-1))), 2);
    expect_poll(p.on_sleep_end(), "10");
}

#[test]
fn shutdown_stops_without_error() {
    let p = polling();
    assert!(matches!(p.on_shutdown(), PollAction::Stop { result: Ok(()) }));
}

#[test]
fn a_long_run_backs_off_and_recovers() {
    let mut p = polling();
    for s in [1, 2, 4] {
        expect_sleep(p.on_poll_failed(), s);
        expect_poll(p.on_sleep_end(), "10");
    }
    expect_poll(p.on_answer(answer(Some("20"), None, Some(1))), "20");
    expect_sleep(p.on_answer(answer(None, None, Some(7))), 8);
    assert!(matches!(p.on_answer(answer(None, None, Some(3))), PollAction::RequestServer));
    expect_poll(p.on_server(Ok(server("30"))), "30");
    expect_sleep(p.on_poll_failed(), 1);
}
