//! What can go wrong with an interactive command.
use vstd::prelude::*;

use crate::exec::ExecToolCallOutput;
use crate::text;

verus! {

#[derive(Debug)]
pub enum UnifiedExecError {
    CreateSession { message: String },
    UnknownSessionId { session_id: i32 },
    WriteToStdin,
    MissingCommandLine,
    SandboxDenied { message: String, output: ExecToolCallOutput },
}

impl UnifiedExecError {
    /// The text of the error.
    pub open spec fn text(self) -> Seq<char> {
        match self {
            UnifiedExecError::CreateSession { message } => {
                "Failed to create unified exec session: "@ + message@
            },
            UnifiedExecError::UnknownSessionId { session_id } => "Unknown session id "@
                + text::signed_decimal(session_id as int),
            UnifiedExecError::WriteToStdin => "failed to write to stdin"@,
            UnifiedExecError::MissingCommandLine => {
                "missing command line for unified exec request"@
            },
            UnifiedExecError::SandboxDenied { message, .. } => "Command denied by sandbox: "@
                + message@,
        }
    }

    pub fn create_session(message: String) -> (r: Self)
        ensures
            r == (UnifiedExecError::CreateSession { message }),
    {
        UnifiedExecError::CreateSession { message }
    }

    pub fn sandbox_denied(message: String, output: ExecToolCallOutput) -> (r: Self)
        ensures
            r == (UnifiedExecError::SandboxDenied { message, output }),
    {
        UnifiedExecError::SandboxDenied { message, output }
    }

    /// The text of the error.
    pub fn message(&self) -> (r: String)
        ensures
            r@ == self.text(),
    {
        match self {
            UnifiedExecError::CreateSession { message } => {
                let mut out = "Failed to create unified exec session: ".to_owned();
                out.append(message.as_str());
                out
            },
            UnifiedExecError::UnknownSessionId { session_id } => {
                let mut out = "Unknown session id ".to_owned();
                text::push_signed(&mut out, *session_id as i64);
                out
            },
            UnifiedExecError::WriteToStdin => "failed to write to stdin".to_owned(),
            UnifiedExecError::MissingCommandLine => {
                "missing command line for unified exec request".to_owned()
            },
            UnifiedExecError::SandboxDenied { message, .. } => {
                let mut out = "Command denied by sandbox: ".to_owned();
                out.append(message.as_str());
                out
            },
        }
    }
}

/// What each error says.
pub proof fn law_errors_say_what_happened(
    message: String,
    session_id: i32,
    output: ExecToolCallOutput,
)
    ensures
        (UnifiedExecError::CreateSession { message }).text()
            == "Failed to create unified exec session: "@ + message@,
        (UnifiedExecError::UnknownSessionId { session_id }).text() == "Unknown session id "@
            + text::signed_decimal(session_id as int),
        UnifiedExecError::WriteToStdin.text() == "failed to write to stdin"@,
        UnifiedExecError::MissingCommandLine.text()
            == "missing command line for unified exec request"@,
        (UnifiedExecError::SandboxDenied { message, output }).text()
            == "Command denied by sandbox: "@ + message@,
{
}

} // verus!
