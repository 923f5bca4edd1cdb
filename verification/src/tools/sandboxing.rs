//! Approvals and sandboxing that the tools have in common.
use vstd::prelude::*;

use crate::error::CodexErr;
use crate::exec::{CommandSpec, SandboxType};
use crate::named;
use crate::protocol::{AskForApproval, ReviewDecision, SandboxPolicy};

verus! {

/// What is demanded before a command runs.
#[allow(inconsistent_fields)]
#[derive(Debug, PartialEq, Eq, Clone)]
pub enum ApprovalRequirement {
    Skip,
    NeedsApproval { reason: Option<String> },
    Forbidden { reason: String },
}

/// The approvals that the user gave for the whole session, by what they were given for. Requests
/// of all kinds share it: a request is known by the text it is written as.
#[derive(Debug)]
pub struct ApprovalStore {
    map: Vec<(String, ReviewDecision)>,
}

impl ApprovalStore {
    pub closed spec fn wf(self) -> bool {
        named::unique(self.map@)
    }

    /// What is kept for a request.
    pub closed spec fn kept(self, key: Seq<char>) -> Option<ReviewDecision> {
        named::lookup(self.map@, key)
    }

    pub fn new() -> (r: Self)
        ensures
            r.wf(),
            forall|key: Seq<char>| (#[trigger] r.kept(key)) is None,
    {
        let r = ApprovalStore { map: Vec::new() };
        proof {
            assert forall|key: Seq<char>| (#[trigger] r.kept(key)) is None by {
                named::lemma_position_is(r.map@, key, 0);
            }
        }
        r
    }

    /// What is kept for a request; nothing for one that cannot be written as a text.
    pub fn get(&self, key: &Option<String>) -> (r: Option<ReviewDecision>)
        ensures
            r == match *key {
                Some(k) => self.kept(k@),
                None => None,
            },
    {
        match key {
            Some(k) => match named::find(&self.map, k.as_str()) {
                Some(i) => Some(self.map[i].1),
                None => None,
            },
            None => None,
        }
    }

    /// Keeps a decision for a request, unless it cannot be written as a text.
    pub fn put(&mut self, key: Option<String>, value: ReviewDecision)
        requires
            old(self).wf(),
        ensures
            final(self).wf(),
            key is None ==> *final(self) == *old(self),
            key matches Some(k) ==> final(self).kept(k@) == Some(value),
            forall|other: Seq<char>|
                (key matches Some(k) ==> other != k@) ==> #[trigger] final(self).kept(other)
                    == old(self).kept(other),
    {
        if let Some(k) = key {
            named::put(&mut self.map, k, value);
        }
    }

    /// What the user said to a request is kept where it was given for the session; any other
    /// answer is asked for again.
    pub fn remember(&mut self, key: Option<String>, decision: ReviewDecision)
        requires
            old(self).wf(),
        ensures
            final(self).wf(),
            decision != ReviewDecision::ApprovedForSession || key is None ==> *final(self) == *old(self),
            decision == ReviewDecision::ApprovedForSession ==> (key matches Some(k) ==> final(self).kept(k@) == Some(ReviewDecision::ApprovedForSession)),
            forall|other: Seq<char>|
                (key matches Some(k) ==> other != k@) ==> #[trigger] final(self).kept(other)
                    == old(self).kept(other),
    {
        if decision == ReviewDecision::ApprovedForSession {
            self.put(key, ReviewDecision::ApprovedForSession);
        }
    }
}

impl Default for ApprovalStore {
    fn default() -> (r: Self)
        ensures
            r.wf(),
            forall|key: Seq<char>| (#[trigger] r.kept(key)) is None,
    {
        ApprovalStore::new()
    }
}

/// Whether a request may be tried again without asking: once it was approved, or where the user
/// is never asked.
pub fn should_bypass_approval(policy: AskForApproval, already_approved: bool) -> (r: bool)
    ensures
        r == (already_approved || policy == AskForApproval::Never),
{
    if already_approved {
        return true;
    }
    policy == AskForApproval::Never
}

/// Whether the user is asked before the first attempt.
pub open spec fn asks_first(policy: AskForApproval, sandbox_policy: SandboxPolicy) -> bool {
    match policy {
        AskForApproval::Never | AskForApproval::OnFailure => false,
        AskForApproval::OnRequest => sandbox_policy !is DangerFullAccess,
        AskForApproval::UnlessTrusted => true,
    }
}

/// Whether the user is asked before the first attempt:
/// - Never, OnFailure: do not ask
/// - OnRequest: ask unless sandbox policy is DangerFullAccess
/// - UnlessTrusted: always ask
pub fn wants_initial_approval(policy: AskForApproval, sandbox_policy: &SandboxPolicy) -> (r: bool)
    ensures
        r == asks_first(policy, *sandbox_policy),
{
    match policy {
        AskForApproval::Never | AskForApproval::OnFailure => false,
        AskForApproval::OnRequest => match sandbox_policy {
            SandboxPolicy::DangerFullAccess => false,
            _ => true,
        },
        AskForApproval::UnlessTrusted => true,
    }
}

/// Whether the user may be asked to run a command without its sandbox.
pub fn wants_no_sandbox_approval(policy: AskForApproval) -> (r: bool)
    ensures
        r == (policy != AskForApproval::Never && policy != AskForApproval::OnRequest),
{
    !(policy == AskForApproval::Never || policy == AskForApproval::OnRequest)
}

/// What a tool says of its sandbox.
#[derive(Clone, Copy, Debug, PartialEq, Eq, Structural)]
pub enum SandboxablePreference {
    Auto,
    Require,
    Forbid,
}

/// The command of a request that may be tried again without its sandbox.
#[derive(Debug)]
pub struct SandboxRetryData {
    pub command: Vec<String>,
    pub cwd: String,
}

/// Why a tool gave no result.
#[derive(Debug)]
pub enum ToolError {
    Rejected(String),
    Codex(CodexErr),
}

/// Whether an error says that the user rejected the request.
pub open spec fn is_rejected_by_user(e: ToolError) -> bool {
    e matches ToolError::Rejected(m) && m@ == "rejected by user"@
}

/// An attempt at running a tool in a sandbox.
#[derive(Debug)]
pub struct SandboxAttempt<'a> {
    pub sandbox: SandboxType,
    pub policy: &'a SandboxPolicy,
    pub sandbox_cwd: &'a String,
    pub codex_linux_sandbox_exe: Option<&'a String>,
}

/// All that turning a command into a sandboxed environment depends on.
#[derive(Debug)]
pub struct SandboxTransform<'a> {
    pub spec: &'a CommandSpec,
    pub policy: &'a SandboxPolicy,
    pub sandbox: SandboxType,
    pub sandbox_cwd: &'a String,
    pub codex_linux_sandbox_exe: Option<&'a String>,
}

impl<'a> SandboxAttempt<'a> {
    /// The environment that a command is to be given in this attempt.
    pub fn env_for(&'a self, spec: &'a CommandSpec) -> (r: SandboxTransform<'a>)
        ensures
            *r.spec == *spec,
            *r.policy == *self.policy,
            r.sandbox == self.sandbox,
            *r.sandbox_cwd == *self.sandbox_cwd,
            r.codex_linux_sandbox_exe == self.codex_linux_sandbox_exe,
    {
        SandboxTransform {
            spec,
            policy: self.policy,
            sandbox: self.sandbox,
            sandbox_cwd: self.sandbox_cwd,
            codex_linux_sandbox_exe: self.codex_linux_sandbox_exe,
        }
    }
}

/// Whether the user is asked before a command runs depends on when they want to be asked: never
/// where they do not want to be, or only after a failure; always where they trust nothing; and where
/// the model may ask, unless everything is allowed anyway.
pub proof fn law_user_decides_when_to_be_asked(
    policy: AskForApproval,
    sandbox_policy: SandboxPolicy,
)
    ensures
        policy == AskForApproval::Never ==> !asks_first(policy, sandbox_policy),
        policy == AskForApproval::OnFailure ==> !asks_first(policy, sandbox_policy),
        policy == AskForApproval::UnlessTrusted ==> asks_first(policy, sandbox_policy),
        policy == AskForApproval::OnRequest ==> (asks_first(policy, sandbox_policy)
            <==> sandbox_policy != SandboxPolicy::DangerFullAccess),
{
}

/// A question is left out where it was answered before, or where the user never wants to be asked.
pub proof fn law_question_is_left_out(policy: AskForApproval, approved: bool, r: bool)
    requires
        call_ensures(should_bypass_approval, (policy, approved), r),
    ensures
        approved ==> r,
        !approved ==> (r <==> policy == AskForApproval::Never),
{
}

/// Whether the user may be asked for an attempt without a sandbox: where they want to be asked about
/// failures or trust nothing, and only then.
pub proof fn law_user_may_be_asked_after_a_failure(policy: AskForApproval, r: bool)
    requires
        call_ensures(wants_no_sandbox_approval, (policy,), r),
    ensures
        policy == AskForApproval::OnFailure || policy == AskForApproval::UnlessTrusted ==> r,
        policy == AskForApproval::Never || policy == AskForApproval::OnRequest ==> !r,
{
}

/// What is kept under a key is found under it, and changes nothing under another.
pub proof fn law_kept_decisions_are_found(
    store: &mut ApprovalStore,
    key: String,
    other: String,
    value: ReviewDecision,
    before: Option<ReviewDecision>,
    after: ApprovalStore,
    found: Option<ReviewDecision>,
    other_found: Option<ReviewDecision>,
    start: ApprovalStore,
)
    requires
        old(store).wf(),
        start == *old(store),
        after == *final(store),
        call_ensures(ApprovalStore::put, (store, Some(key), value), ()),
        call_ensures(ApprovalStore::get, (&after, &Some(key)), found),
        call_ensures(ApprovalStore::get, (&after, &Some(other)), other_found),
        call_ensures(ApprovalStore::get, (&start, &Some(other)), before),
        other@ != key@,
    ensures
        found == Some(value),
        other_found == before,
{
}

/// Only an approval for the session is remembered, and only where the request can be told again.
pub proof fn law_only_session_approvals_are_remembered(
    store: &mut ApprovalStore,
    key: Option<String>,
    decision: ReviewDecision,
)
    requires
        old(store).wf(),
        call_ensures(ApprovalStore::remember, (store, key, decision), ()),
    ensures
        decision == ReviewDecision::Approved || decision == ReviewDecision::Denied || decision
            == ReviewDecision::Abort ==> *final(store) == *old(store),
        decision == ReviewDecision::ApprovedForSession && key is Some ==> final(store).kept(
            (key->0)@,
        ) == Some(ReviewDecision::ApprovedForSession),
{
}

/// An attempt is made in its own sandbox and under its own policy, whatever it runs.
pub proof fn law_attempt_keeps_its_sandbox<'a>(
    attempt: &'a SandboxAttempt<'a>,
    spec: &'a CommandSpec,
    r: SandboxTransform<'a>,
)
    requires
        call_ensures(SandboxAttempt::env_for, (attempt, spec), r),
    ensures
        *r.spec == *spec,
        *r.policy == *attempt.policy,
        r.sandbox == attempt.sandbox,
        *r.sandbox_cwd == *attempt.sandbox_cwd,
        r.codex_linux_sandbox_exe == attempt.codex_linux_sandbox_exe,
{
}

} // verus!
