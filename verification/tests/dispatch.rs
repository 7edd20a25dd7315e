use puxbay_sdk::client::Method;
use puxbay_sdk::dispatch::{backoff_secs, Action, Dispatch, Event, Phase};
use puxbay_sdk::{Puxbay, PuxbayConfig, PuxbayError};

/// Feeds the events to a fresh dispatcher and collects what it asks for.
fn drive(max_retries: u32, events: Vec<Event>) -> (Dispatch, Vec<Action>) {
    let mut dispatch = Dispatch::new(max_retries);
    let mut actions = Vec::new();
    for event in events {
        actions.push(dispatch.step(event));
    }
    (dispatch, actions)
}

fn body(text: &str) -> Event {
    Event::Body(text.to_string())
}

fn transport(reason: &str) -> Event {
    Event::TransportFailed(reason.to_string())
}

fn attempts(actions: &[Action]) -> usize {
    1 + actions.iter().filter(|a| matches!(a, Action::RetryAfter(_))).count()
}

fn waited(actions: &[Action]) -> u64 {
    actions
        .iter()
        .map(|a| match a {
            Action::RetryAfter(secs) => *secs,
            _ => 0,
        })
        .sum()
}

#[test]
fn two_server_errors_then_success_takes_three_attempts() {
    let (dispatch, actions) = drive(
        3,
        vec![
            Event::Status(500),
            Event::Status(500),
            Event::Status(200),
            body("{\"id\": \"p1\"}"),
            Event::Decoded,
        ],
    );
    assert_eq!(
        actions,
        vec![
            Action::RetryAfter(1),
            Action::RetryAfter(2),
            Action::ReadBody,
            Action::Decode,
            Action::Complete,
        ]
    );
    assert_eq!(attempts(&actions), 3);
    assert_eq!(waited(&actions), 3);
    assert_eq!(dispatch.attempt(), 2);
    assert!(dispatch.is_finished());
}

#[test]
fn server_errors_on_every_attempt_end_in_a_server_error() {
    let (dispatch, actions) = drive(
        3,
        vec![
            Event::Status(500),
            Event::Status(502),
            Event::Status(503),
            Event::Status(504),
            body("{\"detail\": \"Upstream down\"}"),
        ],
    );
    assert_eq!(
        actions,
        vec![
            Action::RetryAfter(1),
            Action::RetryAfter(2),
            Action::RetryAfter(4),
            Action::ReadBody,
            Action::Fail(PuxbayError::ServerError("Upstream down".to_string())),
        ]
    );
    assert_eq!(attempts(&actions), 4);
    assert_eq!(waited(&actions), 7);
    assert!(dispatch.is_finished());
}

#[test]
fn exhausted_budget_is_terminal_for_any_budget() {
    for max_retries in [0u32, 1, 2, 5, 8] {
        let mut events: Vec<Event> = (0..=max_retries).map(|_| Event::Status(500)).collect();
        events.push(body("{}"));
        let (dispatch, actions) = drive(max_retries, events);
        assert_eq!(attempts(&actions), max_retries as usize + 1);
        assert_eq!(
            actions.last(),
            Some(&Action::Fail(PuxbayError::ServerError("Unknown error".to_string())))
        );
        assert_eq!(actions[actions.len() - 2], Action::ReadBody);
        assert!(dispatch.is_finished());
    }
}

#[test]
fn rate_limit_on_every_attempt_ends_in_a_rate_limit_error() {
    let (_, actions) = drive(
        2,
        vec![
            Event::Status(429),
            Event::Status(429),
            Event::Status(429),
            body("{\"message\": \"Slow down\"}"),
        ],
    );
    assert_eq!(
        actions,
        vec![
            Action::RetryAfter(1),
            Action::RetryAfter(2),
            Action::ReadBody,
            Action::Fail(PuxbayError::RateLimitError("Slow down".to_string())),
        ]
    );
}

#[test]
fn not_found_is_never_retried() {
    let (dispatch, actions) =
        drive(3, vec![Event::Status(404), body("{\"detail\": \"No such product\"}")]);
    assert_eq!(
        actions,
        vec![
            Action::ReadBody,
            Action::Fail(PuxbayError::NotFoundError("No such product".to_string())),
        ]
    );
    assert_eq!(attempts(&actions), 1);
    assert_eq!(dispatch.attempt(), 0);
    assert!(dispatch.is_finished());
}

#[test]
fn not_found_after_retries_is_not_retried_either() {
    let (_, actions) = drive(5, vec![Event::Status(503), Event::Status(404), body("{}")]);
    assert_eq!(
        actions,
        vec![
            Action::RetryAfter(1),
            Action::ReadBody,
            Action::Fail(PuxbayError::NotFoundError("Unknown error".to_string())),
        ]
    );
}

#[test]
fn client_errors_other_than_429_are_terminal() {
    for status in [400u16, 401, 403, 404, 409, 422, 428, 430, 499] {
        let (dispatch, actions) = drive(3, vec![Event::Status(status)]);
        assert_eq!(actions, vec![Action::ReadBody], "status {}", status);
        assert_eq!(dispatch.phase(), Phase::ReadingFailure(status));
        assert_eq!(dispatch.attempt(), 0);
    }
}

#[test]
fn redirects_and_informational_statuses_are_terminal_failures() {
    let (_, actions) = drive(3, vec![Event::Status(304), body("")]);
    assert_eq!(
        actions,
        vec![
            Action::ReadBody,
            Action::Fail(PuxbayError::ApiError("Unknown error".to_string(), 304)),
        ]
    );
}

#[test]
fn validation_error_carries_the_detail() {
    let (_, actions) =
        drive(3, vec![Event::Status(400), body("{\"detail\": \"Insufficient stock\"}")]);
    assert_eq!(
        actions.last(),
        Some(&Action::Fail(PuxbayError::ValidationError("Insufficient stock".to_string())))
    );
}

#[test]
fn empty_success_body_is_a_decode_failure() {
    let (dispatch, actions) = drive(3, vec![Event::Status(204), body("")]);
    assert_eq!(
        actions,
        vec![
            Action::ReadBody,
            Action::Fail(PuxbayError::DecodeError("empty response body".to_string())),
        ]
    );
    assert!(dispatch.is_finished());
}

#[test]
fn undecodable_success_body_is_a_decode_failure() {
    let (dispatch, actions) = drive(
        3,
        vec![
            Event::Status(200),
            body("<html></html>"),
            Event::DecodeFailed("expected value at line 1 column 1".to_string()),
        ],
    );
    assert_eq!(
        actions,
        vec![
            Action::ReadBody,
            Action::Decode,
            Action::Fail(PuxbayError::DecodeError("expected value at line 1 column 1".to_string())),
        ]
    );
    assert!(dispatch.is_finished());
}

#[test]
fn decode_failure_is_not_an_api_error() {
    let (_, actions) = drive(0, vec![Event::Status(200), body("")]);
    match actions.last() {
        Some(Action::Fail(PuxbayError::DecodeError(_))) => {}
        other => panic!("unexpected outcome {:?}", other),
    }
}

#[test]
fn success_completes_only_after_decoding() {
    let (dispatch, actions) = drive(3, vec![Event::Status(201), body("{\"id\": \"1\"}")]);
    assert_eq!(actions, vec![Action::ReadBody, Action::Decode]);
    assert_eq!(dispatch.phase(), Phase::Decoding);
    assert!(!dispatch.is_finished());
}

#[test]
fn transport_failures_are_retried_then_surfaced() {
    let (dispatch, actions) = drive(
        2,
        vec![transport("connection refused"), transport("timed out"), transport("dns failure")],
    );
    assert_eq!(
        actions,
        vec![
            Action::RetryAfter(1),
            Action::RetryAfter(2),
            Action::Fail(PuxbayError::RequestError("dns failure".to_string())),
        ]
    );
    assert!(dispatch.is_finished());
}

#[test]
fn transport_failure_then_success() {
    let (_, actions) = drive(
        3,
        vec![transport("connection reset"), Event::Status(200), body("[]"), Event::Decoded],
    );
    assert_eq!(
        actions,
        vec![Action::RetryAfter(1), Action::ReadBody, Action::Decode, Action::Complete]
    );
}

#[test]
fn failure_while_reading_a_body_is_terminal() {
    let (dispatch, actions) = drive(3, vec![Event::Status(500), Event::Status(400), transport("reset")]);
    assert_eq!(
        actions,
        vec![
            Action::RetryAfter(1),
            Action::ReadBody,
            Action::Fail(PuxbayError::RequestError("reset".to_string())),
        ]
    );
    assert!(dispatch.is_finished());

    let (dispatch, actions) = drive(3, vec![Event::Status(200), transport("reset")]);
    assert_eq!(
        actions,
        vec![Action::ReadBody, Action::Fail(PuxbayError::RequestError("reset".to_string()))]
    );
    assert!(dispatch.is_finished());
}

#[test]
fn zero_budget_means_a_single_attempt() {
    let (_, actions) = drive(0, vec![Event::Status(503), body("{\"detail\": \"down\"}")]);
    assert_eq!(
        actions,
        vec![Action::ReadBody, Action::Fail(PuxbayError::ServerError("down".to_string()))]
    );
    let (_, actions) = drive(0, vec![transport("refused")]);
    assert_eq!(actions, vec![Action::Fail(PuxbayError::RequestError("refused".to_string()))]);
}

#[test]
fn backoff_doubles_from_one_second() {
    assert_eq!(backoff_secs(0), 1);
    assert_eq!(backoff_secs(1), 2);
    assert_eq!(backoff_secs(2), 4);
    assert_eq!(backoff_secs(3), 8);
    assert_eq!(backoff_secs(10), 1024);
    assert_eq!(backoff_secs(32), 1u64 << 32);
    assert_eq!(backoff_secs(63), 1u64 << 63);
}

#[test]
fn backoff_is_capped_where_it_no_longer_fits() {
    assert_eq!(backoff_secs(64), u64::MAX);
    assert_eq!(backoff_secs(65), u64::MAX);
    assert_eq!(backoff_secs(u32::MAX), u64::MAX);
}

#[test]
fn backoff_never_decreases() {
    let mut previous = 0u64;
    for attempt in 0..80u32 {
        let secs = backoff_secs(attempt);
        assert!(secs >= previous, "attempt {}", attempt);
        previous = secs;
    }
}

#[test]
fn delays_follow_the_schedule_across_a_long_run() {
    let events: Vec<Event> = (0..10).map(|_| Event::Status(503)).collect();
    let (dispatch, actions) = drive(20, events);
    let expected: Vec<Action> = (0..10u32).map(|n| Action::RetryAfter(1u64 << n)).collect();
    assert_eq!(actions, expected);
    assert_eq!(waited(&actions), 1023);
    assert_eq!(dispatch.attempt(), 10);
    assert_eq!(dispatch.phase(), Phase::Sending);
}

#[test]
fn events_out_of_protocol_end_the_call() {
    let unknown = || vec![Action::Fail(PuxbayError::UnknownError)];
    assert_eq!(drive(3, vec![Event::Decoded]).1, unknown());
    assert_eq!(drive(3, vec![body("{}")]).1, unknown());
    assert_eq!(drive(3, vec![Event::DecodeFailed("x".to_string())]).1, unknown());
    let (dispatch, actions) = drive(3, vec![Event::Status(404), Event::Status(404)]);
    assert_eq!(actions, vec![Action::ReadBody, Action::Fail(PuxbayError::UnknownError)]);
    assert!(dispatch.is_finished());
    let (_, actions) = drive(3, vec![Event::Status(200), Event::Decoded]);
    assert_eq!(actions, vec![Action::ReadBody, Action::Fail(PuxbayError::UnknownError)]);
    let (_, actions) = drive(3, vec![Event::Status(200), body("1"), body("1")]);
    assert_eq!(
        actions,
        vec![Action::ReadBody, Action::Decode, Action::Fail(PuxbayError::UnknownError)]
    );
}

#[test]
fn a_finished_call_stays_finished() {
    let (mut dispatch, _) = drive(3, vec![Event::Status(200), body("1"), Event::Decoded]);
    assert!(dispatch.is_finished());
    for event in [Event::Status(500), transport("x"), body("1"), Event::Decoded] {
        assert_eq!(dispatch.step(event), Action::Fail(PuxbayError::UnknownError));
        assert!(dispatch.is_finished());
        assert_eq!(dispatch.attempt(), 0);
    }
}

#[test]
fn a_new_dispatch_is_sending_its_first_attempt() {
    let dispatch = Dispatch::new(7);
    assert_eq!(dispatch.attempt(), 0);
    assert_eq!(dispatch.max_retries(), 7);
    assert_eq!(dispatch.phase(), Phase::Sending);
    assert!(!dispatch.is_finished());
}

#[test]
fn interleaved_calls_do_not_affect_each_other() {
    let config = PuxbayConfig {
        base_url: "http://localhost:8000/api/v1".to_string(),
        timeout: 30,
        max_retries: 2,
    };
    let client = Puxbay::with_config("pb_test_key", config).unwrap();
    let mut products = client.request(Method::Get, "products/1/");
    let mut orders = client.request(Method::Get, "orders/9/");

    assert_eq!(products.dispatch.step(Event::Status(500)), Action::RetryAfter(1));
    assert_eq!(orders.dispatch.step(Event::Status(404)), Action::ReadBody);
    assert_eq!(products.dispatch.step(Event::Status(200)), Action::ReadBody);
    assert_eq!(
        orders.dispatch.step(body("{\"detail\": \"No such order\"}")),
        Action::Fail(PuxbayError::NotFoundError("No such order".to_string()))
    );
    assert_eq!(products.dispatch.step(body("{\"id\": \"1\"}")), Action::Decode);
    assert_eq!(products.dispatch.step(Event::Decoded), Action::Complete);

    assert_eq!(products.url, "http://localhost:8000/api/v1/products/1/");
    assert_eq!(orders.url, "http://localhost:8000/api/v1/orders/9/");
    assert_eq!(products.dispatch.attempt(), 1);
    assert_eq!(orders.dispatch.attempt(), 0);

    let mut next = client.request(Method::Get, "orders/9/");
    assert_eq!(next.dispatch.attempt(), 0);
    assert_eq!(next.dispatch.step(Event::Status(503)), Action::RetryAfter(1));
}

#[test]
fn a_failed_call_leaves_the_client_usable() {
    let client = Puxbay::new("pb_test_key").unwrap();
    let mut failed = client.request(Method::Get, "products/");
    assert_eq!(
        failed.dispatch.step(transport("refused")),
        Action::RetryAfter(1)
    );
    let mut fresh = client.request(Method::Get, "products/");
    assert_eq!(fresh.dispatch.step(Event::Status(200)), Action::ReadBody);
    assert_eq!(fresh.dispatch.step(body("{}")), Action::Decode);
    assert_eq!(fresh.dispatch.step(Event::Decoded), Action::Complete);
}
