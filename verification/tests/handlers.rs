use codex_core::protocol::AskForApproval;
use codex_core::shell::{BashShell, Shell};
use codex_core::tools::handlers::call::{
    FunctionCallError, ShellCommandToolCallParams, ShellToolCallParams, ToolKind, ToolPayload,
};
use codex_core::tools::handlers::shell::{
    resolve_path, ExecLike, PatchCheck, PatchInvocation, PatchStep, ShellCommandHandler,
    ShellHandler,
};
use codex_core::tools::handlers::unified_exec::{
    default_login, default_shell, format_response, ExecCommandArgs, UnifiedExecCall,
    UnifiedExecHandler,
};
use codex_core::unified_exec::session_manager::UnifiedExecResponse;

fn params(with_escalated_permissions: Option<bool>) -> ShellToolCallParams {
    ShellToolCallParams {
        command: vec![
            "/bin/sh".to_string(),
            "-c".to_string(),
            "echo hi".to_string(),
        ],
        workdir: Some("/work".to_string()),
        timeout_ms: Some(1000),
        with_escalated_permissions,
        justification: Some("test".to_string()),
    }
}

fn function() -> ToolPayload {
    ToolPayload::Function {
        arguments: "{}".to_string(),
    }
}

fn message(error: FunctionCallError) -> String {
    match error {
        FunctionCallError::RespondToModel(m) => m,
        other => panic!("unexpected {other:?}"),
    }
}

#[test]
fn rejects_escalated_permissions_when_policy_not_on_request() {
    let cwd = "/turn".to_string();
    let policy = AskForApproval::OnFailure;
    let (exec_params, is_user_shell_command) = ShellHandler
        .handle("shell", function(), Ok(params(Some(true))), &cwd, vec![], false)
        .expect("a command");
    assert!(!is_user_shell_command);

    let output = message(
        ShellHandler::run_exec_like(exec_params, policy, PatchCheck::NotApplyPatch)
            .expect_err("expected error result"),
    );

    let expected = format!(
        "approval policy is {policy:?}; reject command — you should not ask for escalated permissions if the approval policy is {policy:?}"
    );
    assert_eq!(output, expected);

    // Now retry the same command WITHOUT escalated permissions; should succeed.
    let (exec_params, _) = ShellHandler
        .handle("shell", function(), Ok(params(Some(false))), &cwd, vec![], false)
        .expect("a command");
    match ShellHandler::run_exec_like(exec_params, policy, PatchCheck::NotApplyPatch) {
        Ok(ExecLike::Run(request)) => {
            assert_eq!(request.command, vec!["/bin/sh", "-c", "echo hi"]);
            assert_eq!(request.cwd, "/work");
            assert_eq!(request.timeout_ms, Some(1000));
        }
        other => panic!("unexpected {other:?}"),
    }
}

fn exec_args(with_escalated_permissions: Option<bool>, workdir: Option<&str>) -> ExecCommandArgs {
    ExecCommandArgs {
        cmd: "echo hi".to_string(),
        workdir: workdir.map(str::to_string),
        shell: default_shell(),
        login: default_login(),
        yield_time_ms: None,
        max_output_tokens: None,
        with_escalated_permissions,
        justification: Some("need unsandboxed execution".to_string()),
    }
}

#[test]
fn unified_exec_rejects_escalated_permissions_when_policy_not_on_request() {
    let policy = AskForApproval::OnFailure;
    assert!(matches!(
        UnifiedExecHandler.handle("exec_command", function()),
        Ok(UnifiedExecCall::ExecCommand(_))
    ));
    let output = message(
        UnifiedExecHandler::exec_command_request(
            Ok(exec_args(Some(true), None)),
            policy,
            &"/turn".to_string(),
        )
        .expect_err("expected error result"),
    );

    let expected = format!(
        "approval policy is {policy:?}; reject command — you cannot ask for escalated permissions if the approval policy is {policy:?}"
    );
    assert_eq!(output, expected);
}

#[test]
fn under_on_request_escalated_permissions_may_be_asked_for() {
    let (exec_params, _) = ShellHandler
        .handle("shell", function(), Ok(params(Some(true))), &"/".to_string(), vec![], false)
        .expect("a command");
    assert!(matches!(
        ShellHandler::run_exec_like(
            exec_params,
            AskForApproval::OnRequest,
            PatchCheck::ShellParseError
        ),
        Ok(ExecLike::Run(_))
    ));
}

#[test]
fn patches_are_handed_to_the_patch_tool() {
    let exec_params = || {
        ShellHandler
            .handle("shell", function(), Ok(params(None)), &"/".to_string(), vec![], false)
            .expect("a command")
            .0
    };
    assert!(matches!(
        ShellHandler::run_exec_like(exec_params(), AskForApproval::Never, PatchCheck::Body),
        Ok(ExecLike::Patch)
    ));
    assert_eq!(
        message(
            ShellHandler::run_exec_like(
                exec_params(),
                AskForApproval::Never,
                PatchCheck::CorrectnessError("bad hunk".to_string())
            )
            .unwrap_err()
        ),
        "apply_patch verification failed: bad hunk"
    );
    match ShellHandler::apply_patch(
        PatchInvocation::DelegateToExec {
            patch: "p".to_string(),
            cwd: "/".to_string(),
            user_explicitly_approved: false,
        },
        Some(5),
        None,
    ) {
        Ok(PatchStep::Run {
            request,
            auto_approved,
        }) => {
            assert_eq!(request.timeout_ms, Some(5));
            assert!(auto_approved);
        }
        other => panic!("unexpected {other:?}"),
    }
    match ShellHandler::apply_patch(PatchInvocation::Output(Ok("done".to_string())), None, None) {
        Ok(PatchStep::Return(out)) => {
            assert_eq!(out.content, "done");
            assert_eq!(out.success, Some(true));
        }
        other => panic!("unexpected {other:?}"),
    }
    assert!(ShellHandler::apply_patch(
        PatchInvocation::Output(Err(FunctionCallError::Fatal("x".to_string()))),
        None,
        None
    )
    .is_err());
}

#[test]
fn unsupported_payloads_are_refused() {
    let custom = || ToolPayload::Custom {
        input: String::new(),
    };
    let cwd = "/".to_string();
    assert_eq!(
        message(
            ShellHandler
                .handle("shell", custom(), Ok(params(None)), &cwd, vec![], false)
                .unwrap_err()
        ),
        "unsupported payload for shell handler: shell"
    );
    assert_eq!(
        message(
            ShellHandler
                .handle("shell", function(), Err("eof".to_string()), &cwd, vec![], false)
                .unwrap_err()
        ),
        "failed to parse function arguments: eof"
    );
    assert_eq!(
        message(
            ShellCommandHandler
                .handle(
                    "shell_command",
                    &custom(),
                    Err(String::new()),
                    &Shell::Unknown,
                    &cwd,
                    vec![],
                    false
                )
                .unwrap_err()
        ),
        "unsupported payload for shell_command handler: shell_command"
    );
    assert_eq!(
        message(UnifiedExecHandler.handle("exec_command", custom()).unwrap_err()),
        "unified_exec handler received unsupported payload"
    );
    assert_eq!(
        message(UnifiedExecHandler.handle("other", function()).unwrap_err()),
        "unsupported unified exec function other"
    );
    assert_eq!(
        message(
            UnifiedExecHandler::exec_command_request(
                Err("eof".to_string()),
                AskForApproval::Never,
                &cwd
            )
            .unwrap_err()
        ),
        "failed to parse exec_command arguments: eof"
    );
    assert_eq!(
        message(UnifiedExecHandler::write_stdin_request(Err("eof".to_string())).unwrap_err()),
        "failed to parse write_stdin arguments: eof"
    );
    assert_eq!(
        message(UnifiedExecHandler::failed("write_stdin", "WriteToStdin")),
        "write_stdin failed: WriteToStdin"
    );
}

#[test]
fn handlers_know_their_payloads() {
    let local = ToolPayload::LocalShell {
        params: params(None),
    };
    let unified = ToolPayload::UnifiedExec {
        arguments: String::new(),
    };
    assert_eq!(ShellHandler.kind(), ToolKind::Function);
    assert!(ShellHandler.matches_kind(&local));
    assert!(!ShellHandler.matches_kind(&unified));
    assert!(ShellCommandHandler.matches_kind(&function()));
    assert!(!ShellCommandHandler.matches_kind(&local));
    assert!(UnifiedExecHandler.matches_kind(&unified));
    assert!(!UnifiedExecHandler.matches_kind(&local));
    assert!(!ShellHandler.is_mutating(&local, Some(true)));
    assert!(ShellHandler.is_mutating(&local, Some(false)));
    assert!(ShellHandler.is_mutating(&function(), None));
    assert!(ShellHandler.is_mutating(&unified, Some(true)));
    assert!(!UnifiedExecHandler.is_mutating(&unified, Some(true)));
    assert!(UnifiedExecHandler.is_mutating(&local, Some(true)));
    assert_eq!(
        UnifiedExecHandler::checked_command(&exec_args(None, None)),
        vec!["bash", "-lc", "echo hi"]
    );
}

#[test]
fn a_line_of_shell_is_run_by_the_login_shell_of_the_user() {
    let bash = Shell::Bash(BashShell {
        shell_path: "/bin/bash".to_string(),
    });
    let exec_params = ShellCommandHandler
        .handle(
            "shell_command",
            &function(),
            Ok(ShellCommandToolCallParams {
                command: "ls -la".to_string(),
                workdir: None,
                timeout_ms: None,
                with_escalated_permissions: None,
                justification: None,
            }),
            &bash,
            &"/turn".to_string(),
            vec![],
            false,
        )
        .expect("a command");
    assert_eq!(exec_params.command, vec!["/bin/bash", "-lc", "ls -la"]);
    assert_eq!(exec_params.cwd, "/turn");
}

#[test]
fn paths_are_seen_from_the_turn() {
    let cwd = "/turn".to_string();
    assert_eq!(resolve_path(&cwd, &None, false), "/turn");
    assert_eq!(resolve_path(&cwd, &Some("sub".to_string()), false), "/turn/sub");
    assert_eq!(resolve_path(&cwd, &Some("/abs".to_string()), false), "/abs");
    let dir = r"C:\turn".to_string();
    assert_eq!(resolve_path(&dir, &Some("sub".to_string()), true), r"C:\turn\sub");
    assert_eq!(resolve_path(&dir, &Some(r"\sub".to_string()), true), r"C:\sub");
    assert_eq!(resolve_path(&dir, &Some(r"D:\abs".to_string()), true), r"D:\abs");
    let (request, dir) = UnifiedExecHandler::exec_command_request(
        Ok(exec_args(None, Some(""))),
        AskForApproval::Never,
        &cwd,
    )
    .expect("a request");
    assert_eq!(request.workdir, None);
    assert_eq!(request.shell, "/bin/bash");
    assert!(request.login);
    assert_eq!(dir, "/turn");
}

fn response(output: &str) -> UnifiedExecResponse {
    UnifiedExecResponse {
        event_call_id: "call".to_string(),
        chunk_id: "abc123".to_string(),
        output: output.to_string(),
        session_id: Some(4),
        exit_code: Some(-1),
        original_token_count: Some(12),
        session_command: None,
    }
}

#[test]
fn a_response_is_written_line_by_line() {
    assert_eq!(
        format_response(&response("hi"), "1.2500"),
        "Chunk ID: abc123\nWall time: 1.2500 seconds\nProcess exited with code -1\nProcess running with session ID 4\nOriginal token count: 12\nOutput:\nhi"
    );
    let bare = UnifiedExecResponse {
        chunk_id: String::new(),
        session_id: None,
        exit_code: None,
        original_token_count: None,
        ..response("")
    };
    let out = UnifiedExecHandler::respond(&bare, "0.0000");
    assert_eq!(out.content, "Wall time: 0.0000 seconds\nOutput:\n");
    assert_eq!(out.success, Some(true));
}

#[test]
fn output_is_shown_while_the_command_goes_on() {
    assert_eq!(UnifiedExecHandler::output_delta(&response("")), None);
    assert_eq!(
        UnifiedExecHandler::output_delta(&response("hü")),
        Some(("call".to_string(), "hü".as_bytes().to_vec()))
    );
}
