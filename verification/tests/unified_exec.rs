use codex_core::error::{CodexErr, SandboxErr};
use codex_core::exec::{ExecToolCallOutput, SandboxTransformError, StreamOutput};
use codex_core::protocol::AskForApproval;
use codex_core::protocol::SandboxPolicy;
use codex_core::shell::{HostShells, Platform};
use codex_core::tools::runtimes::unified_exec::{UnifiedExecRequest, UnifiedExecRuntime};
use codex_core::tools::sandboxing::{ApprovalRequirement, SandboxablePreference, ToolError};
use codex_core::unified_exec::errors::UnifiedExecError;
use codex_core::unified_exec::limits::{
    clamp_yield_time, generate_chunk_id, hex_digits, resolve_max_tokens, truncate_output_to_tokens,
};
use codex_core::unified_exec::session_manager::{
    collect_output_until_deadline, collected_text, failed_write, finished_output,
    interaction_output, open_session_with_exec_env, open_session_with_sandbox, output_chunk,
    request_command, CollectStep, ExecCommandRequest, FollowUp, OutputChunk, ProcessState,
    SessionEntry, SessionStatus, UnifiedExecSessionManager,
};
use std::time::Duration;

fn entry(process: u64) -> SessionEntry {
    SessionEntry {
        process,
        call_id: "call".to_string(),
        command: vec!["bash".to_string(), "-i".to_string()],
        cwd: "/work".to_string(),
    }
}

fn chunk(output: &str) -> OutputChunk {
    OutputChunk {
        chunk_id: "abc123".to_string(),
        output: output.to_string(),
        original_token_count: Some(1),
    }
}

const RUNNING: ProcessState = ProcessState {
    has_exited: false,
    exit_code: None,
};

const EXITED: ProcessState = ProcessState {
    has_exited: true,
    exit_code: Some(0),
};

fn bash() -> Vec<String> {
    vec!["bash".to_string(), "-i".to_string()]
}

#[test]
fn unified_exec_persists_across_requests() {
    let mut manager = UnifiedExecSessionManager::new();
    let (open_shell, follow_up) = manager.exec_command(entry(1), chunk("$ "), RUNNING);
    let session_id = open_shell.session_id.expect("expected session_id");
    assert!(matches!(follow_up, FollowUp::Waiting(m) if m == "Waiting for `bash -i`"));

    let plan = manager
        .prepare_session_handles(session_id, "export X=codex\n", Some(2_500), None)
        .expect("a session");
    assert_eq!(plan.process, 1);
    assert_eq!(plan.input.as_deref(), Some("export X=codex\n"));
    assert_eq!(plan.yield_time_ms, 2_500);
    assert_eq!(plan.max_tokens, 10_000);
    let (out_2, _) = manager
        .write_stdin(session_id, bash(), chunk("codex"), RUNNING)
        .expect("a response");
    assert_eq!(out_2.session_id, Some(session_id));
    assert!(out_2.output.contains("codex"));
    assert_eq!(out_2.event_call_id, "call");
}

#[test]
fn multi_unified_exec_sessions() {
    let mut manager = UnifiedExecSessionManager::new();
    let (shell_a, _) = manager.exec_command(entry(1), chunk(""), RUNNING);
    let session_a = shell_a.session_id.expect("expected session id");

    let (out_2, _) = manager.exec_command(entry(2), chunk("\n"), EXITED);
    assert!(
        out_2.session_id.is_none(),
        "short command should not retain a session"
    );

    let (shell_b, _) = manager.exec_command(entry(3), chunk(""), RUNNING);
    let session_b = shell_b.session_id.expect("expected session id");
    assert_ne!(session_a, session_b);
    let plan = manager
        .prepare_session_handles(session_a, "", None, Some(5))
        .expect("a session");
    assert_eq!(plan.process, 1);
    assert_eq!(plan.input, None);
    assert_eq!(plan.max_tokens, 5);
}

#[test]
fn requests_with_large_timeout_are_capped() {
    assert_eq!(clamp_yield_time(Some(120_000)), 30_000);
    assert_eq!(clamp_yield_time(Some(10)), 250);
    assert_eq!(clamp_yield_time(Some(2_500)), 2_500);
    assert_eq!(clamp_yield_time(None), 10_000);
    assert_eq!(resolve_max_tokens(None), 10_000);
    assert_eq!(resolve_max_tokens(Some(3)), 3);
}

#[test]
fn completed_commands_do_not_persist_sessions() {
    let mut manager = UnifiedExecSessionManager::new();
    let (result, follow_up) = manager.exec_command(entry(1), chunk("codex"), EXITED);

    assert!(
        result.session_id.is_none(),
        "completed command should not retain session"
    );
    assert!(result.output.contains("codex"));
    assert!(matches!(follow_up, FollowUp::Ended(0)));

    for id in -5..5 {
        assert!(manager.prepare_session_handles(id, "", None, None).is_err());
    }

    let (next, _) = manager.exec_command(entry(2), chunk(""), RUNNING);
    assert_eq!(next.session_id, Some(1), "every command takes a number");
}

#[test]
fn reusing_completed_session_returns_unknown_session() {
    let mut manager = UnifiedExecSessionManager::new();
    let (open_shell, _) = manager.exec_command(entry(1), chunk(""), RUNNING);
    let session_id = open_shell.session_id.expect("expected session id");

    let (response, follow_up) = manager
        .write_stdin(session_id, bash(), chunk("exit\n"), EXITED)
        .expect("a response");
    assert_eq!(response.session_id, None);
    assert!(matches!(follow_up, FollowUp::Ended(0)));

    match manager.prepare_session_handles(session_id, "", Some(100), None) {
        Err(UnifiedExecError::UnknownSessionId { session_id: err_id }) => {
            assert_eq!(err_id, session_id);
        }
        other => panic!("expected UnknownSessionId, got {other:?}"),
    }
    assert!(matches!(
        manager.write_stdin(session_id, bash(), chunk(""), RUNNING),
        Err(UnifiedExecError::UnknownSessionId { .. })
    ));
    assert!(matches!(
        manager.refresh_session_state(session_id, EXITED),
        SessionStatus::Unknown
    ));
}

#[test]
fn a_process_without_a_code_ends_silently_or_with_minus_one() {
    let killed = ProcessState {
        has_exited: true,
        exit_code: None,
    };
    let mut manager = UnifiedExecSessionManager::new();
    let (_, follow_up) = manager.exec_command(entry(1), chunk(""), killed);
    assert!(matches!(follow_up, FollowUp::Ended(-1)));
    let (open, _) = manager.exec_command(entry(2), chunk(""), RUNNING);
    let id = open.session_id.expect("a session");
    let (_, follow_up) = manager.write_stdin(id, bash(), chunk(""), killed).expect("a response");
    assert!(matches!(follow_up, FollowUp::Silent));
}

#[test]
fn output_is_collected_until_the_deadline() {
    let mut collected = vec![];
    assert_eq!(
        collect_output_until_deadline(&mut collected, &vec![], false),
        CollectStep::Wait
    );
    assert_eq!(
        collect_output_until_deadline(&mut collected, &vec![b"a".to_vec(), b"b".to_vec()], false),
        CollectStep::Again
    );
    assert_eq!(
        collect_output_until_deadline(&mut collected, &vec![b"c".to_vec()], true),
        CollectStep::Stop
    );
    assert_eq!(collected, b"abc".to_vec());
    assert_eq!(collected_text(&vec![b'x', 0xff]), "x\u{fffd}");
}

#[test]
fn chunks_are_named_by_six_hex_digits() {
    let id = generate_chunk_id();
    assert_eq!(id.len(), 6);
    assert!(id
        .chars()
        .all(|c| c.is_ascii_digit() || ('a'..='f').contains(&c)));
    assert_eq!(hex_digits(&vec![0, 9, 10, 15]), "09af");
    let made = output_chunk("out".to_string(), 3);
    assert_eq!(made.chunk_id.len(), 6);
    assert_eq!(made.original_token_count, Some(3));
    let ids: Vec<String> = (0..20).map(|_| generate_chunk_id()).collect();
    assert!(ids.iter().any(|other| other != &ids[0]));
}

#[test]
fn long_output_is_cut_in_the_middle() {
    assert_eq!(truncate_output_to_tokens("abc", 3), ("abc".to_string(), None));
    assert_eq!(
        truncate_output_to_tokens("abcdefghij", 4),
        ("ab…6 tokens truncated…ij".to_string(), Some(10))
    );
    assert_eq!(
        truncate_output_to_tokens("abcdefghij", 5),
        ("ab…6 tokens truncated…ij".to_string(), Some(10))
    );
    assert_eq!(
        truncate_output_to_tokens("abc", 1),
        ("…2 tokens truncated…".to_string(), Some(3))
    );
    assert_eq!(
        truncate_output_to_tokens("äöü", 0),
        ("…3 tokens truncated…".to_string(), Some(3))
    );
}

#[test]
fn errors_have_their_texts() {
    let output = || finished_output(&"out".to_string(), 1, Duration::from_secs(1));
    for (error, text) in [
        (
            UnifiedExecError::create_session("boom".to_string()),
            "Failed to create unified exec session: boom",
        ),
        (
            UnifiedExecError::UnknownSessionId { session_id: -3 },
            "Unknown session id -3",
        ),
        (UnifiedExecError::WriteToStdin, "failed to write to stdin"),
        (
            UnifiedExecError::MissingCommandLine,
            "missing command line for unified exec request",
        ),
        (
            UnifiedExecError::sandbox_denied("no".to_string(), output()),
            "Command denied by sandbox: no",
        ),
    ] {
        assert_eq!(error.message(), text);
    }
    let (message, error) = failed_write();
    assert_eq!(message, format!("write_stdin failed: {error:?}"));
}

#[test]
fn an_empty_command_cannot_be_opened() {
    assert!(matches!(
        open_session_with_exec_env(&vec![]),
        Err(UnifiedExecError::MissingCommandLine)
    ));
    let (program, args) = open_session_with_exec_env(&bash()).expect("a command");
    assert_eq!(program, "bash");
    assert_eq!(args, vec!["-i"]);
}

fn exec_request(workdir: Option<&str>) -> ExecCommandRequest {
    ExecCommandRequest {
        command: "echo hi".to_string(),
        shell: "/bin/bash".to_string(),
        login: true,
        yield_time_ms: Some(1),
        max_output_tokens: None,
        workdir: workdir.map(str::to_string),
        with_escalated_permissions: None,
        justification: None,
    }
}

#[test]
fn a_command_is_opened_in_its_directory() {
    let cwd = "/turn".to_string();
    let plan = UnifiedExecSessionManager::open_plan(&exec_request(None), &cwd);
    assert_eq!(plan.cwd, "/turn");
    assert_eq!(plan.yield_time_ms, 250);
    assert_eq!(
        UnifiedExecSessionManager::open_plan(&exec_request(Some("/own")), &cwd).cwd,
        "/own"
    );
    let host = HostShells {
        platform: Platform::Other,
        user_shell: None,
        files: vec!["/bin/bash".to_string()],
        zsh: None,
        bash: None,
        pwsh: None,
        powershell: None,
    };
    assert_eq!(
        request_command(&exec_request(None), &host),
        vec!["/bin/bash", "-lc", "echo hi"]
    );
}

fn request(command: &[&str], escalated: Option<bool>) -> UnifiedExecRequest {
    open_session_with_sandbox(
        &command.iter().map(|s| s.to_string()).collect(),
        "/work".to_string(),
        vec![],
        escalated,
        Some("because".to_string()),
        ApprovalRequirement::Skip,
    )
}

#[test]
fn a_request_says_what_its_approval_is_for() {
    let req = request(&["ls", "-l"], Some(true));
    let key = req.approval_key();
    assert_eq!(key.command, vec!["ls", "-l"]);
    assert!(key.escalated);
    assert!(req.wants_escalated_first_attempt());
    assert_eq!(req.sandbox_retry_data().expect("data").cwd, "/work");
    assert_eq!(req.approval_reason(&None).as_deref(), Some("because"));
    assert_eq!(
        req.approval_reason(&Some("again".to_string())).as_deref(),
        Some("again")
    );
    assert!(!request(&["ls"], None).approval_key().escalated);
    assert!(UnifiedExecRuntime::escalate_on_failure());
    assert_eq!(
        UnifiedExecRuntime::sandbox_preference(),
        SandboxablePreference::Auto
    );
    let traits = req.tool_traits(AskForApproval::Never, &SandboxPolicy::ReadOnly);
    assert!(traits.wants_escalated_first_attempt);
    assert!(!traits.wants_initial_approval);
}

#[test]
fn outcomes_of_opening_a_session_are_told_apart() {
    assert_eq!(
        UnifiedExecRuntime::command_spec(request(&["ls", "-l"], None))
            .expect("a command")
            .program,
        "ls"
    );
    match UnifiedExecRuntime::command_spec(request(&[], None)) {
        Err(ToolError::Rejected(m)) => assert_eq!(m, "missing command line for PTY"),
        other => panic!("unexpected {other:?}"),
    }
    assert!(matches!(
        UnifiedExecRuntime::transform_failed(SandboxTransformError::MissingLinuxSandboxExecutable),
        ToolError::Codex(CodexErr::LandlockSandboxExecutableNotProvided)
    ));
    assert!(matches!(UnifiedExecRuntime::opened(Ok(1)), Ok(1)));
    match UnifiedExecRuntime::opened::<u32>(Err(UnifiedExecError::WriteToStdin)) {
        Err(ToolError::Rejected(m)) => assert_eq!(m, "failed to write to stdin"),
        other => panic!("unexpected {other:?}"),
    }
    let output = ExecToolCallOutput {
        exit_code: 1,
        stdout: StreamOutput::new(String::new()),
        stderr: StreamOutput::new(String::new()),
        aggregated_output: StreamOutput::new("denied".to_string()),
        duration: Duration::from_millis(1),
        timed_out: false,
    };
    match UnifiedExecRuntime::opened::<u32>(Err(UnifiedExecError::sandbox_denied(
        "no".to_string(),
        output,
    ))) {
        Err(ToolError::Codex(CodexErr::Sandbox(SandboxErr::Denied { output }))) => {
            assert_eq!(output.aggregated_output.text, "denied")
        }
        other => panic!("unexpected {other:?}"),
    }
}

#[test]
fn an_interaction_without_a_code_counts_as_zero() {
    let mut manager = UnifiedExecSessionManager::new();
    let (open, _) = manager.exec_command(entry(1), chunk("out"), RUNNING);
    let output = interaction_output(&open, Duration::from_secs(2));
    assert_eq!(output.exit_code, 0);
    assert_eq!(output.stdout.text, "out");
    assert_eq!(output.duration, Duration::from_secs(2));
}
