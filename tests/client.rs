use server_axum::client::{
    parse_seconds, redirect_policy, retry_after_secs, ClientError, NextRequest, RedirectAction,
    RetryLoop, Step,
};
use server_axum::registry::{PollOutcome, WorkRegistry};
use server_axum::surface::{poll_reply, start_work_reply, Reply};

fn some(s: &str) -> Option<String> {
    Some(s.to_string())
}

#[test]
fn parse_seconds_reads_unsigned_decimal() {
    assert_eq!(parse_seconds("0"), Some(0));
    assert_eq!(parse_seconds("12"), Some(12));
    assert_eq!(parse_seconds("+5"), Some(5));
    assert_eq!(parse_seconds("007"), Some(7));
    assert_eq!(parse_seconds("18446744073709551615"), Some(u64::MAX));
}

#[test]
fn parse_seconds_rejects_malformed_hints() {
    for s in ["", "+", "-1", "1a", " 1", "1.5", "++1", "18446744073709551616", "Wed, 21 Oct 2015 07:28:00 GMT"] {
        assert_eq!(parse_seconds(s), None, "{:?}", s);
    }
}

#[test]
fn retry_after_secs_needs_a_retry_status() {
    for status in [429u16, 503, 301, 302, 303, 307] {
        assert_eq!(retry_after_secs(status, &some("3")), Some(3));
        assert_eq!(retry_after_secs(status, &None), None);
    }
    for status in [200u16, 201, 304, 308, 404, 500] {
        assert_eq!(retry_after_secs(status, &some("3")), None);
    }
}

#[test]
fn start_refuses_a_request_that_cannot_be_copied() {
    assert_eq!(RetryLoop::start(false, 10).err(), Some(ClientError::NonRetryableRequest));
    let l = RetryLoop::start(true, 10).unwrap();
    assert_eq!((l.max_retries, l.retries), (10, 0));
}

#[test]
fn see_other_with_hint_follows_location_with_get() {
    let mut l = RetryLoop::start(true, 10).unwrap();
    match l.on_response(303, &some("2"), some("/work/XYZ")) {
        Ok(Step::Retry { wait_secs, next: NextRequest::FollowGet { location } }) => {
            assert_eq!(wait_secs, 2);
            assert_eq!(location, some("/work/XYZ"));
        }
        _ => panic!("expected a GET to the redirect target"),
    }
    assert_eq!(l.retries, 1);
}

#[test]
fn other_retry_statuses_replay_the_request() {
    for status in [429u16, 503, 301, 302, 307] {
        let mut l = RetryLoop::start(true, 10).unwrap();
        match l.on_response(status, &some("4"), some("/elsewhere")) {
            Ok(Step::Retry { wait_secs: 4, next: NextRequest::Replay }) => {}
            _ => panic!("expected a replay for {}", status),
        }
    }
}

#[test]
fn responses_without_usable_hint_are_final() {
    let mut l = RetryLoop::start(true, 10).unwrap();
    assert!(matches!(l.on_response(303, &None, some("/work/XYZ")), Ok(Step::Finish)));
    assert!(matches!(l.on_response(303, &some("soon"), None), Ok(Step::Finish)));
    assert!(matches!(l.on_response(200, &some("1"), None), Ok(Step::Finish)));
    assert!(matches!(l.on_response(404, &None, None), Ok(Step::Finish)));
    assert_eq!(l.retries, 0);
}

#[test]
fn exhausted_budget_is_a_client_timeout() {
    let mut l = RetryLoop::start(true, 1).unwrap();
    assert!(matches!(l.on_response(503, &some("0"), None), Ok(Step::Retry { .. })));
    assert!(matches!(l.on_response(503, &some("0"), None), Err(ClientError::ClientTimeout)));
    assert_eq!(l.retries, 1);
}

#[test]
fn redirect_policy_stops_at_see_other_and_errs_past_five() {
    assert_eq!(redirect_policy(0, 303), RedirectAction::Stop);
    assert_eq!(redirect_policy(0, 302), RedirectAction::Follow);
    assert_eq!(redirect_policy(5, 301), RedirectAction::Follow);
    assert_eq!(redirect_policy(6, 301), RedirectAction::Error);
    assert_eq!(redirect_policy(6, 303), RedirectAction::Error);
}

fn hint_text(r: &Reply) -> Option<String> {
    r.retry_after_secs.map(|s| s.to_string())
}

#[test]
fn unknown_work_is_final_for_the_client() {
    let mut reg = WorkRegistry::new();
    let id: u128 = 0x1234_5678_9abc_def0_1234_5678_9abc_def0;
    let reply = poll_reply(id, &reg.poll(id, 0));
    assert_eq!(reply.status, 404);
    let mut l = RetryLoop::start(true, 30).unwrap();
    assert!(matches!(l.on_response(reply.status, &hint_text(&reply), reply.location.clone()), Ok(Step::Finish)));
    assert_eq!(l.retries, 0);
}

#[test]
fn polling_with_retry_loop_reaches_the_result() {
    let mut reg = WorkRegistry::new();
    let started_ms: u64 = 10_000;
    let mut now_ms = started_ms;
    let s = reg.submit(now_ms).unwrap();
    let mut reply = start_work_reply(&s);
    let mut l = RetryLoop::start(true, 100).unwrap();
    loop {
        match l.on_response(reply.status, &hint_text(&reply), reply.location.clone()) {
            Ok(Step::Finish) => break,
            Ok(Step::Retry { wait_secs, next: NextRequest::FollowGet { location } }) => {
                now_ms += wait_secs * 1000;
                let path = location.unwrap();
                let expected = format!("/work/{}", uuid::Uuid::from_u128(s.work_id));
                assert_eq!(path, expected);
                reply = poll_reply(s.work_id, &reg.poll(s.work_id, now_ms));
            }
            _ => panic!("unexpected step"),
        }
    }
    assert_eq!(reply.status, 200);
    let body = reply.body.unwrap();
    assert_eq!(body.work_id, s.work_id);
    assert!(body.poll_count < 20);
    assert!(body.duration_secs * 1000 <= now_ms - started_ms);
    assert!(now_ms - started_ms < 21_000);
}
