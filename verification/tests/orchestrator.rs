use codex_core::error::{CodexErr, SandboxErr};
use codex_core::exec::{CommandSpec, ExecToolCallOutput, SandboxType, StreamOutput};
use codex_core::protocol::{AskForApproval, ReviewDecision, SandboxPolicy};
use codex_core::tools::orchestrator::{
    build_denial_reason_from_output, AttemptOutcome, OrchestratorAction, OrchestratorEvent,
    ToolOrchestrator, ToolTraits,
};
use codex_core::tools::sandboxing::{
    should_bypass_approval, wants_initial_approval, wants_no_sandbox_approval, ApprovalStore,
    SandboxAttempt, ToolError,
};
use std::time::Duration;

fn output() -> Box<ExecToolCallOutput> {
    Box::new(ExecToolCallOutput {
        exit_code: 1,
        stdout: StreamOutput::new(String::new()),
        stderr: StreamOutput::new("denied".to_string()),
        aggregated_output: StreamOutput::new("denied".to_string()),
        duration: Duration::from_millis(1),
        timed_out: false,
    })
}

fn traits(policy: AskForApproval) -> ToolTraits {
    ToolTraits::under_policy(policy, &SandboxPolicy::ReadOnly, false, true, true)
}

fn denied() -> OrchestratorEvent<u32> {
    OrchestratorEvent::Ran(AttemptOutcome::Denied {
        output: output(),
        friendly: "no".to_string(),
    })
}

#[test]
fn a_trusted_policy_asks_first_and_not_again() {
    let tool = traits(AskForApproval::UnlessTrusted);
    let selected = SandboxType::LinuxSeccomp;
    let mut run: ToolOrchestrator = ToolOrchestrator::new();
    assert!(matches!(
        run.run::<u32>(&tool, selected, OrchestratorEvent::Begin),
        OrchestratorAction::Assess {
            failure_summary: None
        }
    ));
    assert!(matches!(
        run.run::<u32>(&tool, selected, OrchestratorEvent::Assessed(None)),
        OrchestratorAction::Ask {
            retry_reason: None,
            risk: None
        }
    ));
    assert!(matches!(
        run.run::<u32>(&tool, selected, OrchestratorEvent::Decided(ReviewDecision::Approved)),
        OrchestratorAction::Run {
            sandbox: SandboxType::LinuxSeccomp,
            with_sandbox_exe: true
        }
    ));
    assert!(matches!(
        run.run::<u32>(&tool, selected, denied()),
        OrchestratorAction::Run {
            sandbox: SandboxType::Unsandboxed,
            with_sandbox_exe: false
        }
    ));
    assert!(matches!(
        run.run(&tool, selected, OrchestratorEvent::Ran(AttemptOutcome::Done(7u32))),
        OrchestratorAction::Finish(Ok(7))
    ));
    assert!(matches!(
        run.run::<u32>(&tool, selected, OrchestratorEvent::Begin),
        OrchestratorAction::Ignore
    ));
}

#[test]
fn a_rejection_ends_the_request() {
    let tool = traits(AskForApproval::UnlessTrusted);
    for decision in [ReviewDecision::Denied, ReviewDecision::Abort] {
        let mut run = ToolOrchestrator::new();
        run.run::<u32>(&tool, SandboxType::Unsandboxed, OrchestratorEvent::Begin);
        run.run::<u32>(&tool, SandboxType::Unsandboxed, OrchestratorEvent::Assessed(None));
        match run.run::<u32>(
            &tool,
            SandboxType::Unsandboxed,
            OrchestratorEvent::Decided(decision),
        ) {
            OrchestratorAction::Finish(Err(ToolError::Rejected(m))) => {
                assert_eq!(m, "rejected by user")
            }
            other => panic!("unexpected {other:?}"),
        }
    }
}

#[test]
fn under_on_failure_the_user_is_asked_after_a_denial() {
    let tool = traits(AskForApproval::OnFailure);
    let mut run = ToolOrchestrator::new();
    assert!(matches!(
        run.run::<u32>(&tool, SandboxType::LinuxSeccomp, OrchestratorEvent::Begin),
        OrchestratorAction::Run { .. }
    ));
    match run.run::<u32>(&tool, SandboxType::LinuxSeccomp, denied()) {
        OrchestratorAction::Assess {
            failure_summary: Some(m),
        } => assert_eq!(m, "failed in sandbox: no"),
        other => panic!("unexpected {other:?}"),
    }
    match run.run::<u32>(
        &tool,
        SandboxType::LinuxSeccomp,
        OrchestratorEvent::Assessed(Some("{}".to_string())),
    ) {
        OrchestratorAction::Ask {
            retry_reason: Some(m),
            risk: Some(risk),
        } => {
            assert_eq!(m, "command failed; retry without sandbox?");
            assert_eq!(m, build_denial_reason_from_output(&output()));
            assert_eq!(risk, "{}");
        }
        other => panic!("unexpected {other:?}"),
    }
}

#[test]
fn under_never_and_on_request_a_denial_is_the_outcome() {
    for policy in [AskForApproval::Never, AskForApproval::OnRequest] {
        let tool = traits(policy);
        let mut run = ToolOrchestrator::new();
        run.run::<u32>(&tool, SandboxType::LinuxSeccomp, OrchestratorEvent::Begin);
        if tool.wants_initial_approval {
            run.run::<u32>(&tool, SandboxType::LinuxSeccomp, OrchestratorEvent::Assessed(None));
            run.run::<u32>(
                &tool,
                SandboxType::LinuxSeccomp,
                OrchestratorEvent::Decided(ReviewDecision::ApprovedForSession),
            );
        }
        match run.run::<u32>(&tool, SandboxType::LinuxSeccomp, denied()) {
            OrchestratorAction::Finish(Err(ToolError::Codex(CodexErr::Sandbox(
                SandboxErr::Denied { output },
            )))) => assert_eq!(output.stderr.text, "denied"),
            other => panic!("unexpected {other:?}"),
        }
    }
}

#[test]
fn other_failures_are_not_retried() {
    let tool = traits(AskForApproval::OnFailure);
    let mut run = ToolOrchestrator::new();
    run.run::<u32>(&tool, SandboxType::LinuxSeccomp, OrchestratorEvent::Begin);
    assert!(matches!(
        run.run::<u32>(
            &tool,
            SandboxType::LinuxSeccomp,
            OrchestratorEvent::Ran(AttemptOutcome::Failed(ToolError::Codex(CodexErr::Interrupted)))
        ),
        OrchestratorAction::Finish(Err(ToolError::Codex(CodexErr::Interrupted)))
    ));
}

#[test]
fn policies_decide_when_the_user_is_asked() {
    let full = SandboxPolicy::DangerFullAccess;
    let read = SandboxPolicy::ReadOnly;
    for (policy, in_full, in_read, without) in [
        (AskForApproval::Never, false, false, false),
        (AskForApproval::OnFailure, false, false, true),
        (AskForApproval::OnRequest, false, true, false),
        (AskForApproval::UnlessTrusted, true, true, true),
    ] {
        assert_eq!(wants_initial_approval(policy, &full), in_full);
        assert_eq!(wants_initial_approval(policy, &read), in_read);
        assert_eq!(wants_no_sandbox_approval(policy), without);
        assert!(should_bypass_approval(policy, true));
        assert_eq!(
            should_bypass_approval(policy, false),
            policy == AskForApproval::Never
        );
    }
}

#[test]
fn only_approvals_for_the_session_are_remembered() {
    let mut store = ApprovalStore::default();
    let key = |s: &str| Some(s.to_string());
    assert_eq!(store.get(&key("ls")), None);
    store.remember(key("ls"), ReviewDecision::Approved);
    assert_eq!(store.get(&key("ls")), None);
    store.remember(key("ls"), ReviewDecision::ApprovedForSession);
    assert_eq!(store.get(&key("ls")), Some(ReviewDecision::ApprovedForSession));
    assert_eq!(store.get(&key("rm")), None);
    assert_eq!(store.get(&None), None);
    store.put(key("rm"), ReviewDecision::Denied);
    assert_eq!(store.get(&key("rm")), Some(ReviewDecision::Denied));
    store.put(None, ReviewDecision::Denied);
    assert_eq!(store.get(&key("ls")), Some(ReviewDecision::ApprovedForSession));
}

#[test]
fn an_attempt_hands_everything_to_the_sandbox() {
    let spec = CommandSpec {
        program: "ls".to_string(),
        args: vec![],
        cwd: "/".to_string(),
        env: vec![],
        timeout_ms: None,
        with_escalated_permissions: None,
        justification: None,
    };
    let cwd = "/work".to_string();
    let exe = "/sandbox".to_string();
    let attempt = SandboxAttempt {
        sandbox: SandboxType::LinuxSeccomp,
        policy: &SandboxPolicy::ReadOnly,
        sandbox_cwd: &cwd,
        codex_linux_sandbox_exe: Some(&exe),
    };
    let transform = attempt.env_for(&spec);
    assert_eq!(transform.spec.program, "ls");
    assert_eq!(transform.sandbox_cwd, "/work");
    assert_eq!(transform.codex_linux_sandbox_exe, Some(&exe));
}
