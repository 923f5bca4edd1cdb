//! What can go wrong, as far as the library tells it apart.
use vstd::prelude::*;

use crate::codex::turn::ProcessedResponseItem;
use crate::exec::ExecToolCallOutput;
use crate::protocol::RateLimitSnapshot;

verus! {

/// The unit of a delay that a server asks for.
#[derive(Debug, PartialEq, Eq, Clone, Copy, Structural)]
pub enum RetryUnit {
    Seconds,
    Milliseconds,
}

/// A delay that a server asks for: a decimal numeral and its unit.
#[derive(Debug, PartialEq, Eq)]
pub struct RetryAfter {
    pub value: String,
    pub unit: RetryUnit,
}

/// Why a command failed in its sandbox.
#[derive(Debug)]
pub enum SandboxErr {
    /// The sandbox stopped the command.
    Denied { output: Box<ExecToolCallOutput> },
    /// The command took too long.
    Timeout { output: Box<ExecToolCallOutput> },
    /// A signal ended the command.
    Signal(i32),
}

/// An error of the agent. An HTTP status is held by its code, an error of the operating system by
/// its text.
#[derive(Debug)]
pub enum CodexErr {
    TurnAborted { dangling_artifacts: Vec<ProcessedResponseItem> },
    Stream(String, Option<RetryAfter>),
    ContextWindowExceeded,
    Interrupted,
    UnexpectedStatus { status: u16, body: String, request_id: Option<String> },
    UsageLimitReached {
        plan_type: Option<String>,
        resets_at: Option<i64>,
        rate_limits: Option<RateLimitSnapshot>,
    },
    ResponseStreamFailed { source: String, request_id: Option<String> },
    ConnectionFailed { source: String },
    QuotaExceeded,
    UsageNotIncluded,
    InternalServerError,
    RetryLimit { status: u16, request_id: Option<String> },
    InternalAgentDied,
    Sandbox(SandboxErr),
    LandlockSandboxExecutableNotProvided,
    UnsupportedOperation(String),
    RefreshTokenFailed(String),
    Fatal(String),
    Io(String),
    Json(String),
    EnvVar(String),
}

/// Whether an error says that the stream failed with this message and asks for no delay.
pub open spec fn is_stream_error(e: CodexErr, message: Seq<char>) -> bool {
    match e {
        CodexErr::Stream(m, delay) => m@ == message && delay is None,
        _ => false,
    }
}

/// Whether an error is one of the operating system with this text.
pub open spec fn is_io_error(e: CodexErr, message: Seq<char>) -> bool {
    match e {
        CodexErr::Io(m) => m@ == message,
        _ => false,
    }
}

} // verus!
