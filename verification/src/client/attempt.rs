//! Attempts at a request: what a response means, and when and how the request is tried again.
use vstd::prelude::*;

use crate::client::headers;
use crate::client::sse::ApiError;
use crate::error::CodexErr;
use crate::protocol::RateLimitSnapshot;
use crate::text;

verus! {

pub const UNAUTHORIZED: u16 = 401;

pub const TOO_MANY_REQUESTS: u16 = 429;

pub const INTERNAL_SERVER_ERROR: u16 = 500;

/// The first and the last second since 1970 that the calendar of `chrono` reaches: the years
/// -262143 to 262142.
pub const FIRST_SECOND: i64 = -8334601228800;

pub const LAST_SECOND: i64 = 8210266876799;

/// An attempt that failed.
#[derive(Debug)]
pub enum StreamAttemptError {
    /// The service answered with an error; it may say after how many seconds to try again.
    RetryableHttpError {
        status: u16,
        retry_after_secs: Option<u64>,
        request_id: Option<String>,
    },
    /// The service could not be reached.
    RetryableTransportError(CodexErr),
    /// Trying again would not help.
    Fatal(CodexErr),
}

/// How long to wait before the next attempt.
#[derive(Debug, Clone, Copy, PartialEq, Eq, Structural)]
pub enum RetryDelay {
    /// This many seconds.
    Seconds(u64),
    /// The usual delay before the attempt of this number, counted from 1.
    Backoff(u64),
}

/// Why an access token could not be refreshed.
#[derive(Debug)]
pub enum RefreshTokenError {
    Permanent(String),
    Transient(String),
}

/// A response, as far as the decision on it depends on it.
#[derive(Debug)]
pub struct ResponseHead {
    pub status: u16,
    pub retry_after_secs: Option<u64>,
    pub request_id: Option<String>,
}

/// What happens in an attempt.
#[derive(Debug)]
pub enum AttemptEvent {
    /// The service answered. Tells whether an access token is at hand that can be refreshed.
    Responded { head: ResponseHead, can_refresh: bool },
    /// The service could not be reached.
    TransportFailed(String),
    /// The access token was to be refreshed.
    Refreshed { head: ResponseHead, result: Result<(), RefreshTokenError> },
    /// The body of an error was read.
    BodyRead { head: ResponseHead, body: String },
    /// The body of an error about limits was read, as the service describes it.
    ErrorRead {
        head: ResponseHead,
        error: Option<ApiError>,
        known_plan: Option<String>,
        rate_limits: Option<RateLimitSnapshot>,
    },
}

/// What to do next in an attempt.
#[derive(Debug)]
pub enum AttemptAction {
    /// The answer is coming in.
    StartStream { request_id: Option<String> },
    /// Refresh the access token, then go on with the response.
    RefreshToken(ResponseHead),
    /// Read the body of the error, then go on with it.
    ReadBody(ResponseHead),
    /// Read the error about limits, then go on with it.
    ReadError(ResponseHead),
    /// The attempt failed.
    Fail(StreamAttemptError),
}

pub open spec fn is_success(status: u16) -> bool {
    200 <= status && status < 300
}

pub open spec fn is_server_error(status: u16) -> bool {
    500 <= status && status < 600
}

/// The statuses after which a request may be tried again.
pub open spec fn is_retryable(status: u16) -> bool {
    status == TOO_MANY_REQUESTS || status == UNAUTHORIZED || is_server_error(status)
}

/// The failure of an attempt that may be tried again.
pub open spec fn retryable(head: ResponseHead) -> AttemptAction {
    AttemptAction::Fail(
        StreamAttemptError::RetryableHttpError {
            status: head.status,
            retry_after_secs: head.retry_after_secs,
            request_id: head.request_id,
        },
    )
}

/// The kind of error that the service gave.
pub open spec fn has_kind(error: ApiError, kind: Seq<char>) -> bool {
    match error.kind {
        Some(k) => k@ == kind,
        None => false,
    }
}

/// A time in seconds since 1970, where the calendar reaches it.
pub open spec fn calendar_time(seconds: Option<i64>) -> Option<i64> {
    match seconds {
        Some(s) => if FIRST_SECOND <= s <= LAST_SECOND {
            Some(s)
        } else {
            None
        },
        None => None,
    }
}

/// What an error about limits means.
pub open spec fn limit_action(
    head: ResponseHead,
    error: Option<ApiError>,
    known_plan: Option<String>,
    rate_limits: Option<RateLimitSnapshot>,
) -> AttemptAction {
    match error {
        Some(e) => if has_kind(e, "usage_limit_reached"@) {
            AttemptAction::Fail(
                StreamAttemptError::Fatal(
                    CodexErr::UsageLimitReached {
                        plan_type: if e.plan_type is Some {
                            e.plan_type
                        } else {
                            known_plan
                        },
                        resets_at: calendar_time(e.resets_at),
                        rate_limits,
                    },
                ),
            )
        } else if has_kind(e, "usage_not_included"@) {
            AttemptAction::Fail(StreamAttemptError::Fatal(CodexErr::UsageNotIncluded))
        } else if crate::client::sse::has_code(e, "insufficient_quota"@) {
            AttemptAction::Fail(StreamAttemptError::Fatal(CodexErr::QuotaExceeded))
        } else {
            retryable(head)
        },
        None => retryable(head),
    }
}

/// What to do next in an attempt.
pub open spec fn next_action(event: AttemptEvent) -> AttemptAction {
    match event {
        AttemptEvent::Responded { head, can_refresh } => if is_success(head.status) {
            AttemptAction::StartStream { request_id: head.request_id }
        } else if head.status == UNAUTHORIZED && can_refresh {
            AttemptAction::RefreshToken(head)
        } else {
            after_refresh(head)
        },
        AttemptEvent::TransportFailed(source) => AttemptAction::Fail(
            StreamAttemptError::RetryableTransportError(CodexErr::ConnectionFailed { source }),
        ),
        AttemptEvent::Refreshed { head, result } => match result {
            Ok(_) => after_refresh(head),
            Err(RefreshTokenError::Permanent(why)) => AttemptAction::Fail(
                StreamAttemptError::Fatal(CodexErr::RefreshTokenFailed(why)),
            ),
            Err(RefreshTokenError::Transient(why)) => AttemptAction::Fail(
                StreamAttemptError::RetryableTransportError(CodexErr::Io(why)),
            ),
        },
        AttemptEvent::BodyRead { head, body } => AttemptAction::Fail(
            StreamAttemptError::Fatal(
                CodexErr::UnexpectedStatus { status: head.status, body, request_id: None },
            ),
        ),
        AttemptEvent::ErrorRead { head, error, known_plan, rate_limits } => limit_action(
            head,
            error,
            known_plan,
            rate_limits,
        ),
    }
}

/// What to do with an error once the access token is as good as it gets.
pub open spec fn after_refresh(head: ResponseHead) -> AttemptAction {
    if !is_retryable(head.status) {
        AttemptAction::ReadBody(head)
    } else if head.status == TOO_MANY_REQUESTS {
        AttemptAction::ReadError(head)
    } else {
        retryable(head)
    }
}

/// `DateTime::from_timestamp` gives the time of a number of seconds since 1970 where its calendar,
/// the years -262143 to 262142, reaches it; its timestamp is that number.
#[verifier::external_body]
fn utc_timestamp(seconds: i64) -> (r: Option<i64>)
    ensures
        r == calendar_time(Some(seconds)),
{
    chrono::DateTime::<chrono::Utc>::from_timestamp(seconds, 0).map(|time| time.timestamp())
}

/// The failure of an attempt that may be tried again.
fn retry_later(head: ResponseHead) -> (r: AttemptAction)
    ensures
        r == retryable(head),
{
    AttemptAction::Fail(
        StreamAttemptError::RetryableHttpError {
            status: head.status,
            retry_after_secs: head.retry_after_secs,
            request_id: head.request_id,
        },
    )
}

/// What to do with an error once the access token is as good as it gets.
fn go_on_with_error(head: ResponseHead) -> (r: AttemptAction)
    ensures
        r == after_refresh(head),
{
    let status = head.status;
    if !(status == TOO_MANY_REQUESTS || status == UNAUTHORIZED || (500 <= status && status < 600)) {
        AttemptAction::ReadBody(head)
    } else if status == TOO_MANY_REQUESTS {
        AttemptAction::ReadError(head)
    } else {
        retry_later(head)
    }
}

/// Single attempt to start a streaming call: what each of its events leads to.
pub fn attempt_stream_responses(event: AttemptEvent) -> (r: AttemptAction)
    ensures
        r == next_action(event),
{
    match event {
        AttemptEvent::Responded { head, can_refresh } => {
            if 200 <= head.status && head.status < 300 {
                AttemptAction::StartStream { request_id: head.request_id }
            } else if head.status == UNAUTHORIZED && can_refresh {
                AttemptAction::RefreshToken(head)
            } else {
                go_on_with_error(head)
            }
        },
        AttemptEvent::TransportFailed(source) => AttemptAction::Fail(
            StreamAttemptError::RetryableTransportError(CodexErr::ConnectionFailed { source }),
        ),
        AttemptEvent::Refreshed { head, result } => match result {
            Ok(_) => go_on_with_error(head),
            Err(RefreshTokenError::Permanent(why)) => AttemptAction::Fail(
                StreamAttemptError::Fatal(CodexErr::RefreshTokenFailed(why)),
            ),
            Err(RefreshTokenError::Transient(why)) => AttemptAction::Fail(
                StreamAttemptError::RetryableTransportError(CodexErr::Io(why)),
            ),
        },
        AttemptEvent::BodyRead { head, body } => AttemptAction::Fail(
            StreamAttemptError::Fatal(
                CodexErr::UnexpectedStatus { status: head.status, body, request_id: None },
            ),
        ),
        AttemptEvent::ErrorRead { head, error, known_plan, rate_limits } => {
            match error {
                Some(e) => {
                    let (limit_reached, not_included) = match &e.kind {
                        Some(kind) => (
                            text::same(kind.as_str(), "usage_limit_reached"),
                            text::same(kind.as_str(), "usage_not_included"),
                        ),
                        None => (false, false),
                    };
                    if limit_reached {
                        let resets_at = match e.resets_at {
                            Some(seconds) => utc_timestamp(seconds),
                            None => None,
                        };
                        let plan_type = match e.plan_type {
                            Some(plan) => Some(plan),
                            None => known_plan,
                        };
                        AttemptAction::Fail(
                            StreamAttemptError::Fatal(
                                CodexErr::UsageLimitReached { plan_type, resets_at, rate_limits },
                            ),
                        )
                    } else if not_included {
                        AttemptAction::Fail(StreamAttemptError::Fatal(CodexErr::UsageNotIncluded))
                    } else if crate::client::sse::is_quota_exceeded_error(&e) {
                        AttemptAction::Fail(StreamAttemptError::Fatal(CodexErr::QuotaExceeded))
                    } else {
                        retry_later(head)
                    }
                },
                None => retry_later(head),
            }
        },
    }
}

/// What a response's headers say of a later attempt and of the request.
pub open spec fn is_head_of(
    head: ResponseHead,
    status: u16,
    values: Map<Seq<char>, Seq<u8>>,
) -> bool {
    &&& head.status == status
    &&& match headers::header_text(values, "retry-after"@) {
        Some(t) => match head.retry_after_secs {
            Some(n) => headers::parsed_u64(t) == Some(n as int),
            None => headers::parsed_u64(t) is None,
        },
        None => head.retry_after_secs is None,
    }
    &&& match head.request_id {
        Some(id) => values.contains_key("cf-ray"@) && id@ == (match headers::header_text(
            values,
            "cf-ray"@,
        ) {
            Some(t) => t,
            None => Seq::empty(),
        }),
        None => !values.contains_key("cf-ray"@),
    }
}

/// Reads what a response's headers say of a later attempt and of the request.
pub fn response_head(
    status: u16,
    map: &reqwest::header::HeaderMap<reqwest::header::HeaderValue>,
) -> (head: ResponseHead)
    ensures
        is_head_of(head, status, headers::header_values(*map)),
{
    proof {
        reveal_strlit("retry-after");
        reveal_strlit("cf-ray");
        assert(text::ascii_lower("retry-after"@) =~= "retry-after"@);
        assert(text::ascii_lower("cf-ray"@) =~= "cf-ray"@);
    }
    let retry_after_secs = match headers::parse_header_str(map, "retry-after") {
        Some(raw) => headers::parse_u64(raw.as_str()),
        None => None,
    };
    let request_id = match headers::header_bytes(map, "cf-ray") {
        Some(bytes) => Some(
            match headers::visible_string(&bytes) {
                Some(id) => id,
                None => String::new(),
            },
        ),
        None => None,
    };
    ResponseHead { status, retry_after_secs, request_id }
}

impl StreamAttemptError {
    /// How long to wait after this failure; `attempt` is counted from 0.
    pub open spec fn delay_model(self, attempt: u64) -> RetryDelay {
        match self {
            StreamAttemptError::RetryableHttpError { retry_after_secs: Some(secs), .. } => {
                RetryDelay::Seconds(secs)
            },
            StreamAttemptError::Fatal(_) => RetryDelay::Seconds(0),
            _ => RetryDelay::Backoff((attempt + 1) as u64),
        }
    }

    /// The error to report when no attempt is left.
    pub open spec fn error_model(self) -> CodexErr {
        match self {
            StreamAttemptError::RetryableHttpError { status, request_id, .. } => if status
                == INTERNAL_SERVER_ERROR {
                CodexErr::InternalServerError
            } else {
                CodexErr::RetryLimit { status, request_id }
            },
            StreamAttemptError::RetryableTransportError(e) => e,
            StreamAttemptError::Fatal(e) => e,
        }
    }

    /// How long to wait after this failure; `attempt` is counted from 0.
    pub fn delay(&self, attempt: u64) -> (r: RetryDelay)
        requires
            attempt < u64::MAX,
        ensures
            r == self.delay_model(attempt),
    {
        match self {
            StreamAttemptError::RetryableHttpError { retry_after_secs, .. } => {
                match retry_after_secs {
                    Some(secs) => RetryDelay::Seconds(*secs),
                    None => RetryDelay::Backoff(attempt + 1),
                }
            },
            StreamAttemptError::RetryableTransportError(_) => RetryDelay::Backoff(attempt + 1),
            StreamAttemptError::Fatal(_) => RetryDelay::Seconds(0),
        }
    }

    /// The error to report when no attempt is left.
    pub fn into_error(self) -> (r: CodexErr)
        ensures
            r == self.error_model(),
    {
        match self {
            StreamAttemptError::RetryableHttpError { status, request_id, .. } => {
                if status == INTERNAL_SERVER_ERROR {
                    CodexErr::InternalServerError
                } else {
                    CodexErr::RetryLimit { status, request_id }
                }
            },
            StreamAttemptError::RetryableTransportError(e) => e,
            StreamAttemptError::Fatal(e) => e,
        }
    }
}

/// What follows a failed attempt.
#[derive(Debug)]
pub enum AfterFailure {
    /// Give up with the error.
    GiveUp(CodexErr),
    /// Wait, then make the next attempt.
    Retry(RetryDelay),
}

/// What follows a failed attempt: attempts are counted from 0, and `max_attempts` more than the
/// first are made.
pub fn after_failed_attempt(
    error: StreamAttemptError,
    attempt: u64,
    max_attempts: u64,
) -> (r: AfterFailure)
    requires
        attempt <= max_attempts,
    ensures
        r == if error is Fatal || attempt == max_attempts {
            AfterFailure::GiveUp(error.error_model())
        } else {
            AfterFailure::Retry(error.delay_model(attempt))
        },
{
    match error {
        StreamAttemptError::Fatal(e) => AfterFailure::GiveUp(e),
        other => {
            if attempt == max_attempts {
                AfterFailure::GiveUp(other.into_error())
            } else {
                AfterFailure::Retry(other.delay(attempt))
            }
        },
    }
}

/// Making a request until it succeeds, fails for good or has no attempt left.
#[derive(Debug)]
pub struct StreamResponses {
    pub attempt: u64,
    pub max_attempts: u64,
}

impl StreamResponses {
    pub open spec fn wf(self) -> bool {
        self.attempt <= self.max_attempts
    }

    /// The number of attempts that may still be made, the current one included.
    pub open spec fn attempts_left(self) -> int {
        self.max_attempts - self.attempt + 1
    }

    pub fn new(max_attempts: u64) -> (r: Self)
        ensures
            r.wf(),
            r.attempt == 0,
            r.max_attempts == max_attempts,
    {
        StreamResponses { attempt: 0, max_attempts }
    }

    /// Takes note that the current attempt failed.
    pub fn failed(&mut self, error: StreamAttemptError) -> (r: AfterFailure)
        requires
            old(self).wf(),
        ensures
            final(self).wf(),
            final(self).max_attempts == old(self).max_attempts,
            r == if error is Fatal || old(self).attempt == old(self).max_attempts {
                AfterFailure::GiveUp(error.error_model())
            } else {
                AfterFailure::Retry(error.delay_model(old(self).attempt))
            },
            r is Retry ==> final(self).attempts_left() == old(self).attempts_left() - 1,
            r is Retry ==> final(self).attempt == old(self).attempt + 1,
            r is GiveUp ==> *final(self) == *old(self),
    {
        let r = after_failed_attempt(error, self.attempt, self.max_attempts);
        match &r {
            AfterFailure::Retry(_) => {
                self.attempt = self.attempt + 1;
            },
            AfterFailure::GiveUp(_) => {},
        }
        r
    }
}

/// Errors about what the request asks for are never tried again, and carry the body of the
/// response.
pub proof fn law_client_errors_are_final(head: ResponseHead, can_refresh: bool, body: String)
    requires
        !is_success(head.status),
        !is_retryable(head.status),
    ensures
        next_action(AttemptEvent::Responded { head, can_refresh }) == AttemptAction::ReadBody(head),
        next_action(AttemptEvent::BodyRead { head, body }) == AttemptAction::Fail(
            StreamAttemptError::Fatal(
                CodexErr::UnexpectedStatus { status: head.status, body, request_id: None },
            ),
        ),
{
}

/// Errors of the service itself may always be tried again.
pub proof fn law_server_errors_are_retryable(head: ResponseHead, can_refresh: bool)
    requires
        is_server_error(head.status),
    ensures
        next_action(AttemptEvent::Responded { head, can_refresh }) == retryable(head),
{
}

/// Whether an error is of a kind.
pub open spec fn is_of_kind(error: ApiError, kind: Seq<char>) -> bool {
    error.kind is Some && (error.kind->0)@ == kind
}

/// The words of errors about limits differ.
proof fn lemma_limit_words_differ()
    ensures
        "usage_limit_reached"@ != "usage_not_included"@,
{
    reveal_strlit("usage_limit_reached");
    reveal_strlit("usage_not_included");
    assert("usage_limit_reached"@.len() != "usage_not_included"@.len());
}

/// An error about limits is given up on exactly where the use is used up, where it is not included
/// or where the quota is exceeded, each with the error of its own; any other, and one that cannot be
/// read, may be tried again, with the status, the delay and the identity that the response gave.
pub proof fn law_limit_is_final_only_where_it_says_so(
    head: ResponseHead,
    error: Option<ApiError>,
    known_plan: Option<String>,
    rate_limits: Option<RateLimitSnapshot>,
)
    ensures
        ({
            let action = next_action(
                AttemptEvent::ErrorRead { head, error, known_plan, rate_limits },
            );
            let reached = error is Some && is_of_kind(error->0, "usage_limit_reached"@);
            let not_included = error is Some && is_of_kind(error->0, "usage_not_included"@);
            let quota = error is Some && (error->0).code is Some && ((error->0).code->0)@
                == "insufficient_quota"@;
            &&& reached ==> (action matches AttemptAction::Fail(
                StreamAttemptError::Fatal(
                    CodexErr::UsageLimitReached { plan_type, resets_at, rate_limits: limits },
                ),
            ) && {
                &&& plan_type == if (error->0).plan_type is Some {
                    (error->0).plan_type
                } else {
                    known_plan
                }
                &&& limits == rate_limits
                &&& (error->0).resets_at is None ==> resets_at is None
                &&& resets_at is Some ==> resets_at == (error->0).resets_at
            })
            &&& not_included ==> action == AttemptAction::Fail(
                StreamAttemptError::Fatal(CodexErr::UsageNotIncluded),
            )
            &&& quota && !reached && !not_included ==> action == AttemptAction::Fail(
                StreamAttemptError::Fatal(CodexErr::QuotaExceeded),
            )
            &&& !reached && !not_included && !quota ==> (action matches AttemptAction::Fail(
                StreamAttemptError::RetryableHttpError { status, retry_after_secs, request_id },
            ) && status == head.status && retry_after_secs == head.retry_after_secs && request_id
                == head.request_id)
        }),
{
    lemma_limit_words_differ();
}

/// A time at which a limit is lifted is told exactly where it lies within the years of the calendar.
pub proof fn law_reset_time_is_told(
    head: ResponseHead,
    error: ApiError,
    seconds: i64,
    known_plan: Option<String>,
    rate_limits: Option<RateLimitSnapshot>,
)
    requires
        is_of_kind(error, "usage_limit_reached"@),
        error.resets_at == Some(seconds),
    ensures
        next_action(
            AttemptEvent::ErrorRead { head, error: Some(error), known_plan, rate_limits },
        ) matches AttemptAction::Fail(
            StreamAttemptError::Fatal(CodexErr::UsageLimitReached { resets_at, .. }),
        ) && resets_at == if -8334601228800 <= seconds <= 8210266876799 {
            Some(seconds)
        } else {
            None
        },
{
}

/// What the status of a response leads to. An answer is read; where the service does not know the
/// user, the access token is refreshed if it can be; where it has too many requests, its error is
/// read; where it is in trouble itself, or does not know the user and nothing can be refreshed, the
/// request may be tried again; and any other error is read whole.
pub proof fn law_status_decides(head: ResponseHead, can_refresh: bool)
    ensures
        ({
            let status = head.status;
            let action = next_action(AttemptEvent::Responded { head, can_refresh });
            &&& action is StartStream <==> 200 <= status <= 299
            &&& action matches AttemptAction::StartStream { request_id } ==> request_id
                == head.request_id
            &&& action is RefreshToken <==> status == 401 && can_refresh
            &&& action is ReadError <==> status == 429
            &&& action is Fail <==> 500 <= status <= 599 || (status == 401 && !can_refresh)
            &&& action is ReadBody <==> !(200 <= status <= 299) && status != 401 && status != 429
                && !(500 <= status <= 599)
            &&& action matches AttemptAction::RefreshToken(kept) ==> kept == head
            &&& action matches AttemptAction::ReadError(kept) ==> kept == head
            &&& action matches AttemptAction::ReadBody(kept) ==> kept == head
            &&& action matches AttemptAction::Fail(failure) ==> failure == (
            StreamAttemptError::RetryableHttpError {
                status,
                retry_after_secs: head.retry_after_secs,
                request_id: head.request_id,
            })
        }),
{
}

/// A refreshed token does not change what the response means otherwise: the response is gone on
/// with as if nothing could be refreshed. A token that can never be refreshed ends the request; one
/// that could not be refreshed this time does not.
pub proof fn law_refresh_goes_on_with_the_response(
    head: ResponseHead,
    result: Result<(), RefreshTokenError>,
)
    requires
        !(200 <= head.status <= 299),
    ensures
        match result {
            Ok(_) => next_action(AttemptEvent::Refreshed { head, result }) == next_action(
                AttemptEvent::Responded { head, can_refresh: false },
            ),
            Err(RefreshTokenError::Permanent(why)) => next_action(
                AttemptEvent::Refreshed { head, result },
            ) == AttemptAction::Fail(StreamAttemptError::Fatal(CodexErr::RefreshTokenFailed(why))),
            Err(RefreshTokenError::Transient(why)) => next_action(
                AttemptEvent::Refreshed { head, result },
            ) == AttemptAction::Fail(
                StreamAttemptError::RetryableTransportError(CodexErr::Io(why)),
            ),
        },
{
}

/// A service that cannot be reached may be tried again; an error that was read whole ends the
/// request, with its status and its body.
pub proof fn law_unreachable_service_is_tried_again(
    source: String,
    head: ResponseHead,
    body: String,
)
    ensures
        next_action(AttemptEvent::TransportFailed(source)) == AttemptAction::Fail(
            StreamAttemptError::RetryableTransportError(CodexErr::ConnectionFailed { source }),
        ),
        next_action(AttemptEvent::BodyRead { head, body }) == AttemptAction::Fail(
            StreamAttemptError::Fatal(
                CodexErr::UnexpectedStatus { status: head.status, body, request_id: None },
            ),
        ),
{
}

/// Before a retry the seconds that the service asked for are waited, and the usual time where it
/// asked for none; the usual time is that of the attempt that follows.
pub proof fn law_service_decides_the_delay(error: StreamAttemptError, attempt: u64)
    requires
        attempt < u64::MAX,
        error !is Fatal,
    ensures
        match error {
            StreamAttemptError::RetryableHttpError { retry_after_secs: Some(secs), .. } => {
                error.delay_model(attempt) == RetryDelay::Seconds(secs)
            },
            _ => error.delay_model(attempt) == RetryDelay::Backoff((attempt + 1) as u64),
        },
{
}

/// When no attempt is left the user is told of an error of the service as such, of any other status
/// with the status and the identity of the request, and of any other error as it is.
pub proof fn law_last_error_is_told(error: StreamAttemptError)
    ensures
        match error {
            StreamAttemptError::RetryableHttpError { status, request_id, .. } => {
                &&& status == 500 ==> error.error_model() == CodexErr::InternalServerError
                &&& status != 500 ==> error.error_model() == (CodexErr::RetryLimit {
                    status,
                    request_id,
                })
            },
            StreamAttemptError::RetryableTransportError(e) => error.error_model() == e,
            StreamAttemptError::Fatal(e) => error.error_model() == e,
        },
{
}

/// What is kept of a response: its status; the seconds that it asks to wait, where its header for
/// them holds a number; and its identity, which is empty where its header cannot be read.
pub proof fn law_head_keeps_what_the_headers_say(
    head: ResponseHead,
    status: u16,
    values: Map<Seq<char>, Seq<u8>>,
)
    requires
        is_head_of(head, status, values),
    ensures
        head.status == status,
        !values.contains_key("retry-after"@) ==> head.retry_after_secs is None,
        values.contains_key("retry-after"@) ==> ({
            let written = headers::visible_text(values["retry-after"@]);
            &&& head.retry_after_secs is Some <==> written is Some && headers::parsed_u64(
                written->0,
            ) is Some
            &&& head.retry_after_secs is Some ==> headers::parsed_u64(written->0) == Some(
                head.retry_after_secs->0 as int,
            )
        }),
        head.request_id is Some <==> values.contains_key("cf-ray"@),
        values.contains_key("cf-ray"@) ==> (head.request_id->0)@ == match headers::visible_text(
            values["cf-ray"@],
        ) {
            Some(written) => written,
            None => Seq::empty(),
        },
{
}

/// A request is tried again as long as attempts are left and the error is not final, and each retry
/// uses one up; then it is given up with the error that the user is told.
pub proof fn law_attempts_are_used_up(
    stream: &mut StreamResponses,
    error: StreamAttemptError,
    r: AfterFailure,
)
    requires
        old(stream).wf(),
        call_ensures(StreamResponses::failed, (stream, error), r),
    ensures
        final(stream).max_attempts == old(stream).max_attempts,
        r is GiveUp <==> error is Fatal || old(stream).attempt == old(stream).max_attempts,
        r is Retry ==> final(stream).attempt == old(stream).attempt + 1,
        r matches AfterFailure::GiveUp(e) ==> e == error.error_model() && *final(stream) == *old(stream),
        r matches AfterFailure::Retry(delay) ==> delay == error.delay_model(old(stream).attempt),
{
}

} // verus!
