//! The calls that the model makes, and what is returned to it.
use vstd::prelude::*;

use crate::protocol::AskForApproval;

verus! {

/// A command of the shell tools.
#[derive(Debug)]
pub struct ShellToolCallParams {
    pub command: Vec<String>,
    pub workdir: Option<String>,
    pub timeout_ms: Option<u64>,
    pub with_escalated_permissions: Option<bool>,
    pub justification: Option<String>,
}

/// A command of the shell tools that is one line of shell.
#[derive(Debug)]
pub struct ShellCommandToolCallParams {
    pub command: String,
    pub workdir: Option<String>,
    pub timeout_ms: Option<u64>,
    pub with_escalated_permissions: Option<bool>,
    pub justification: Option<String>,
}

/// What a call carries. The arguments of functions are JSON text.
#[derive(Debug)]
pub enum ToolPayload {
    Function { arguments: String },
    Custom { input: String },
    LocalShell { params: ShellToolCallParams },
    UnifiedExec { arguments: String },
    Mcp { server: String, tool: String, raw_arguments: String },
}

/// What kind of tool answers a call.
#[derive(Debug, Clone, Copy, PartialEq, Eq, Structural)]
pub enum ToolKind {
    Function,
    UnifiedExec,
    Mcp,
}

/// What a tool returns.
#[derive(Debug)]
pub struct ToolOutput {
    pub content: String,
    /// The structured content, as JSON text.
    pub content_items: Option<String>,
    pub success: Option<bool>,
}

/// Why a call gave no result.
#[derive(Debug)]
pub enum FunctionCallError {
    RespondToModel(String),
    Denied(String),
    MissingLocalShellCallId,
    Fatal(String),
}

/// Whether an error tells the model this.
pub open spec fn responds(e: FunctionCallError, message: Seq<char>) -> bool {
    e matches FunctionCallError::RespondToModel(m) && m@ == message
}

/// The name of a policy.
pub open spec fn policy_name(policy: AskForApproval) -> Seq<char> {
    match policy {
        AskForApproval::UnlessTrusted => "UnlessTrusted"@,
        AskForApproval::OnFailure => "OnFailure"@,
        AskForApproval::OnRequest => "OnRequest"@,
        AskForApproval::Never => "Never"@,
    }
}

/// The name of a policy.
pub fn policy_text(policy: AskForApproval) -> (r: &'static str)
    ensures
        r@ == policy_name(policy),
{
    match policy {
        AskForApproval::UnlessTrusted => "UnlessTrusted",
        AskForApproval::OnFailure => "OnFailure",
        AskForApproval::OnRequest => "OnRequest",
        AskForApproval::Never => "Never",
    }
}

/// What a call that succeeded returns.
pub fn succeeded(content: String) -> (r: ToolOutput)
    ensures
        r.content == content,
        r.content_items is None,
        r.success == Some(true),
{
    ToolOutput { content, content_items: None, success: Some(true) }
}

/// An error that tells the model `prefix` and then `detail`.
pub fn respond(prefix: &str, detail: &str) -> (r: FunctionCallError)
    ensures
        responds(r, prefix@ + detail@),
{
    let mut message = prefix.to_owned();
    message.append(detail);
    FunctionCallError::RespondToModel(message)
}

/// The policies go by these names.
pub proof fn law_policies_have_names(policy: AskForApproval)
    ensures
        policy == AskForApproval::UnlessTrusted ==> policy_name(policy) == "UnlessTrusted"@,
        policy == AskForApproval::OnFailure ==> policy_name(policy) == "OnFailure"@,
        policy == AskForApproval::OnRequest ==> policy_name(policy) == "OnRequest"@,
        policy == AskForApproval::Never ==> policy_name(policy) == "Never"@,
{
}

/// An error that the model is answered with holds the answer, and is no other error.
pub proof fn law_answers_are_answers(e: FunctionCallError, message: Seq<char>)
    ensures
        responds(e, message) <==> (e is RespondToModel && e->RespondToModel_0@ == message),
{
}

} // verus!
