use codex_core::client::attempt::{
    after_failed_attempt, attempt_stream_responses, response_head, AfterFailure, AttemptAction,
    AttemptEvent, RefreshTokenError, ResponseHead, RetryDelay, StreamAttemptError, StreamResponses,
};
use codex_core::client::sse::ApiError;
use codex_core::error::CodexErr;
use reqwest::header::{HeaderMap, HeaderValue};

fn head(status: u16) -> ResponseHead {
    ResponseHead {
        status,
        retry_after_secs: None,
        request_id: Some("req".to_string()),
    }
}

#[test]
fn the_head_of_a_response_is_read_from_its_headers() {
    let mut map = HeaderMap::new();
    map.insert("cf-ray", HeaderValue::from_static("ray"));
    map.insert("retry-after", HeaderValue::from_static("7"));
    let head = response_head(503, &map);
    assert_eq!(head.status, 503);
    assert_eq!(head.retry_after_secs, Some(7));
    assert_eq!(head.request_id.as_deref(), Some("ray"));
}

#[test]
fn success_starts_the_stream() {
    assert!(matches!(
        attempt_stream_responses(AttemptEvent::Responded {
            head: head(200),
            can_refresh: true
        }),
        AttemptAction::StartStream { .. }
    ));
}

#[test]
fn an_expired_token_is_refreshed() {
    assert!(matches!(
        attempt_stream_responses(AttemptEvent::Responded {
            head: head(401),
            can_refresh: true
        }),
        AttemptAction::RefreshToken(_)
    ));
    match attempt_stream_responses(AttemptEvent::Refreshed {
        head: head(401),
        result: Err(RefreshTokenError::Permanent("revoked".to_string())),
    }) {
        AttemptAction::Fail(StreamAttemptError::Fatal(CodexErr::RefreshTokenFailed(m))) => {
            assert_eq!(m, "revoked")
        }
        other => panic!("unexpected {other:?}"),
    }
}

#[test]
fn the_service_is_tried_again_after_server_errors() {
    match attempt_stream_responses(AttemptEvent::Responded {
        head: head(503),
        can_refresh: false,
    }) {
        AttemptAction::Fail(error) => {
            assert!(matches!(
                after_failed_attempt(error, 0, 2),
                AfterFailure::Retry(RetryDelay::Backoff(1))
            ));
        }
        other => panic!("unexpected {other:?}"),
    }
}

#[test]
fn a_delay_that_the_service_asks_for_is_kept() {
    let error = StreamAttemptError::RetryableHttpError {
        status: 429,
        retry_after_secs: Some(11),
        request_id: None,
    };
    assert!(matches!(error.delay(0), RetryDelay::Seconds(11)));
    let error = StreamAttemptError::RetryableHttpError {
        status: 503,
        retry_after_secs: None,
        request_id: None,
    };
    assert!(matches!(error.delay(3), RetryDelay::Backoff(4)));
}

#[test]
fn attempts_are_bounded() {
    let failing = || StreamAttemptError::RetryableHttpError {
        status: 503,
        retry_after_secs: None,
        request_id: None,
    };
    let mut attempts = StreamResponses::new(2);
    let mut made = 1;
    while let AfterFailure::Retry(_) = attempts.failed(failing()) {
        made += 1;
        assert!(made < 10);
    }
    assert_eq!(made, 3);
}

#[test]
fn the_last_error_is_returned() {
    let error = StreamAttemptError::RetryableHttpError {
        status: 500,
        retry_after_secs: None,
        request_id: None,
    };
    assert!(matches!(error.into_error(), CodexErr::InternalServerError));
    let error = StreamAttemptError::RetryableHttpError {
        status: 503,
        retry_after_secs: None,
        request_id: Some("r".to_string()),
    };
    assert!(matches!(
        error.into_error(),
        CodexErr::RetryLimit { status: 503, .. }
    ));
}

fn limit_error(resets_at: Option<i64>) -> AttemptEvent {
    AttemptEvent::ErrorRead {
        head: head(429),
        error: Some(ApiError {
            kind: Some("usage_limit_reached".to_string()),
            code: None,
            message: None,
            plan_type: Some("pro".to_string()),
            resets_at,
        }),
        known_plan: None,
        rate_limits: None,
    }
}

#[test]
fn a_limit_of_use_is_fatal_and_says_when_it_is_lifted() {
    match attempt_stream_responses(limit_error(Some(1704067200))) {
        AttemptAction::Fail(StreamAttemptError::Fatal(CodexErr::UsageLimitReached {
            plan_type,
            resets_at,
            ..
        })) => {
            assert_eq!(plan_type.as_deref(), Some("pro"));
            assert_eq!(resets_at, Some(1704067200));
        }
        other => panic!("unexpected {other:?}"),
    }
}

#[test]
fn a_time_outside_the_calendar_is_no_time() {
    let limit = |secs: i64| match attempt_stream_responses(limit_error(Some(secs))) {
        AttemptAction::Fail(StreamAttemptError::Fatal(CodexErr::UsageLimitReached {
            resets_at,
            ..
        })) => resets_at,
        other => panic!("unexpected {other:?}"),
    };
    assert_eq!(limit(-8334601228800), Some(-8334601228800));
    assert_eq!(limit(8210266876799), Some(8210266876799));
    assert_eq!(limit(-8334601228801), None);
    assert_eq!(limit(8210266876800), None);
    assert!(chrono::DateTime::<chrono::Utc>::from_timestamp(8210266876799, 0).is_some());
    assert!(chrono::DateTime::<chrono::Utc>::from_timestamp(8210266876800, 0).is_none());
    assert!(chrono::DateTime::<chrono::Utc>::from_timestamp(-8334601228800, 0).is_some());
    assert!(chrono::DateTime::<chrono::Utc>::from_timestamp(-8334601228801, 0).is_none());
}

#[test]
fn other_errors_are_fatal_with_their_body() {
    assert!(matches!(
        attempt_stream_responses(AttemptEvent::Responded {
            head: head(400),
            can_refresh: false
        }),
        AttemptAction::ReadBody(_)
    ));
    match attempt_stream_responses(AttemptEvent::BodyRead {
        head: head(400),
        body: "bad".to_string(),
    }) {
        AttemptAction::Fail(StreamAttemptError::Fatal(CodexErr::UnexpectedStatus {
            status,
            body,
            ..
        })) => {
            assert_eq!(status, 400);
            assert_eq!(body, "bad");
        }
        other => panic!("unexpected {other:?}"),
    }
}
