use codex_core::error::{CodexErr, SandboxErr};
use codex_core::exec::{
    aggregate, append_all, consume_truncated_output, exec, exec_windows_sandbox, execute_exec_env,
    finalize_exec_result, is_likely_sandbox_denied, must_kill, process_exec_tool_call, read_capped,
    split_command, synthetic_exit_status, transform_error, DrainOutcome, ExecEnv, ExecParams,
    ExecToolCallOutput, ExitStatus, Launch, RawExecToolCallOutput, SandboxTransformError,
    SandboxType, StreamOutput, WaitOutcome, WindowsCapture, WindowsSandboxOutcome,
    EXIT_CODE_SIGNAL_BASE,
};
use codex_core::protocol::SandboxPolicy;
use std::time::Duration;

fn make_exec_output(
    exit_code: i32,
    stdout: &str,
    stderr: &str,
    aggregated: &str,
) -> ExecToolCallOutput {
    ExecToolCallOutput {
        exit_code,
        stdout: StreamOutput::new(stdout.to_string()),
        stderr: StreamOutput::new(stderr.to_string()),
        aggregated_output: StreamOutput::new(aggregated.to_string()),
        duration: Duration::from_millis(1),
        timed_out: false,
    }
}

#[test]
fn sandbox_detection_requires_keywords() {
    let output = make_exec_output(1, "", "", "");
    assert!(!is_likely_sandbox_denied(SandboxType::LinuxSeccomp, &output, false));
}

#[test]
fn sandbox_detection_identifies_keyword_in_stderr() {
    let output = make_exec_output(1, "", "Operation not permitted", "");
    assert!(is_likely_sandbox_denied(SandboxType::LinuxSeccomp, &output, false));
}

#[test]
fn sandbox_detection_respects_quick_reject_exit_codes() {
    let output = make_exec_output(127, "", "command not found", "");
    assert!(!is_likely_sandbox_denied(SandboxType::LinuxSeccomp, &output, false));
}

#[test]
fn sandbox_detection_ignores_non_sandbox_mode() {
    let output = make_exec_output(1, "", "Operation not permitted", "");
    assert!(!is_likely_sandbox_denied(SandboxType::Unsandboxed, &output, false));
}

#[test]
fn sandbox_detection_uses_aggregated_output() {
    let output = make_exec_output(
        101,
        "",
        "",
        "cargo failed: Read-only file system when writing target",
    );
    assert!(is_likely_sandbox_denied(SandboxType::MacosSeatbelt, &output, false));
}

#[test]
fn sandbox_detection_flags_sigsys_exit_code() {
    let exit_code = EXIT_CODE_SIGNAL_BASE + libc::SIGSYS;
    let output = make_exec_output(exit_code, "", "", "");
    assert!(is_likely_sandbox_denied(SandboxType::LinuxSeccomp, &output, false));
}

fn params(command: &[&str]) -> ExecParams {
    ExecParams {
        command: command.iter().map(|s| s.to_string()).collect(),
        cwd: "/work".to_string(),
        timeout_ms: Some(500),
        env: vec![("A".to_string(), "1".to_string())],
        with_escalated_permissions: None,
        justification: None,
        arg0: None,
    }
}

fn raw(code: Option<i32>, signal: Option<i32>, timed_out: bool) -> RawExecToolCallOutput {
    let stream = |bytes: &[u8]| StreamOutput {
        text: bytes.to_vec(),
        truncated_after_lines: None,
    };
    RawExecToolCallOutput {
        exit_status: ExitStatus { code, signal },
        stdout: stream(b"ok"),
        stderr: stream(b""),
        aggregated_output: stream(b"ok"),
        timed_out,
    }
}

#[test]
fn the_timeout_defaults_to_ten_seconds() {
    assert_eq!(params(&["a"]).timeout_duration(), Duration::from_millis(500));
    let unlimited = ExecParams {
        timeout_ms: None,
        ..params(&["a"])
    };
    assert_eq!(unlimited.timeout_duration(), Duration::from_millis(10_000));
}

#[test]
fn invalid_utf8_is_replaced() {
    let output = StreamOutput {
        text: vec![b'a', 0xff, b'b'],
        truncated_after_lines: Some(3),
    };
    let text = output.from_utf8_lossy();
    assert_eq!(text.text, "a\u{fffd}b");
    assert_eq!(text.truncated_after_lines, Some(3));
}

#[test]
fn bytes_are_appended() {
    let mut dst = vec![1u8];
    append_all(&mut dst, &[2, 3]);
    assert_eq!(dst, vec![1, 2, 3]);
    assert_eq!(aggregate(&vec![vec![1], vec![], vec![2, 3]]).text, vec![1, 2, 3]);
}

#[test]
fn a_command_is_split_into_program_and_arguments() {
    let spec = process_exec_tool_call(params(&["ls", "-l"])).unwrap();
    assert_eq!(spec.program, "ls");
    assert_eq!(spec.args, vec!["-l"]);
    assert!(split_command(&vec![]).is_none());
    match process_exec_tool_call(params(&[])) {
        Err(CodexErr::Io(m)) => assert_eq!(m, "command args are empty"),
        other => panic!("unexpected {other:?}"),
    }
}

#[test]
fn an_environment_is_run_as_it_is() {
    let (params, sandbox) = execute_exec_env(ExecEnv {
        command: vec!["ls".to_string()],
        cwd: "/".to_string(),
        env: vec![],
        timeout_ms: None,
        sandbox: SandboxType::LinuxSeccomp,
        with_escalated_permissions: Some(true),
        justification: Some("because".to_string()),
        arg0: Some("zero".to_string()),
    });
    assert_eq!(params.command, vec!["ls"]);
    assert_eq!(params.arg0.as_deref(), Some("zero"));
    assert_eq!(sandbox, SandboxType::LinuxSeccomp);
}

#[test]
fn a_child_is_spawned_unless_windows_confines_the_command() {
    match exec(
        params(&["ls", "-l"]),
        SandboxType::Unsandboxed,
        &SandboxPolicy::ReadOnly,
        false,
    ) {
        Ok(Launch::Child { program, args, .. }) => {
            assert_eq!(program, "ls");
            assert_eq!(args, vec!["-l"]);
        }
        other => panic!("unexpected {other:?}"),
    }
    assert!(matches!(
        exec(
            params(&["ls"]),
            SandboxType::WindowsRestrictedToken,
            &SandboxPolicy::ReadOnly,
            true,
        ),
        Ok(Launch::WindowsSandbox(_))
    ));
    assert!(matches!(
        exec(
            params(&[]),
            SandboxType::Unsandboxed,
            &SandboxPolicy::ReadOnly,
            false,
        ),
        Err(CodexErr::Io(_))
    ));
}

#[test]
fn wait_statuses_are_read_as_on_posix() {
    assert_eq!(
        synthetic_exit_status(3 * 256, false),
        ExitStatus {
            code: Some(3),
            signal: None
        }
    );
    assert_eq!(
        synthetic_exit_status(9, false),
        ExitStatus {
            code: None,
            signal: Some(9)
        }
    );
    assert_eq!(
        synthetic_exit_status(-1, false),
        ExitStatus {
            code: None,
            signal: None
        }
    );
    assert_eq!(
        synthetic_exit_status(-256, false),
        ExitStatus {
            code: Some(255),
            signal: None
        }
    );
}

#[test]
fn a_command_is_killed_when_its_time_is_over() {
    assert!(must_kill(&WaitOutcome::TimedOut));
    assert!(must_kill(&WaitOutcome::CtrlC));
    assert!(!must_kill(&WaitOutcome::Exited(ExitStatus {
        code: Some(0),
        signal: None
    })));
}

#[test]
fn a_command_that_timed_out_ends_with_a_timeout() {
    let out = consume_truncated_output(
        true,
        true,
        WaitOutcome::TimedOut,
        DrainOutcome::Read(b"out".to_vec()),
        DrainOutcome::TimedOut,
        &vec![b"out".to_vec()],
        false,
    )
    .unwrap();
    assert!(out.timed_out);
    assert_eq!(out.aggregated_output.text, b"out".to_vec());
    match finalize_exec_result(Ok(out), SandboxType::Unsandboxed, Duration::from_secs(1), false) {
        Err(CodexErr::Sandbox(SandboxErr::Timeout { output })) => {
            assert_eq!(output.exit_code, 124);
            assert!(output.timed_out);
        }
        other => panic!("unexpected {other:?}"),
    }
}

/// What a command that was killed comes to.
fn killed(wait: WaitOutcome, on_windows: bool) -> Result<ExecToolCallOutput, CodexErr> {
    let out = consume_truncated_output(
        true,
        true,
        wait,
        DrainOutcome::Read(b"out".to_vec()),
        DrainOutcome::Read(vec![]),
        &vec![b"out".to_vec()],
        on_windows,
    );
    finalize_exec_result(
        out,
        SandboxType::Unsandboxed,
        Duration::from_secs(1),
        on_windows,
    )
}

#[test]
fn an_interrupted_command_ends_as_its_platform_has_it() {
    assert!(matches!(
        killed(WaitOutcome::CtrlC, false),
        Err(CodexErr::Sandbox(SandboxErr::Signal(9)))
    ));
    let output = killed(WaitOutcome::CtrlC, true).expect("an output");
    assert_eq!(output.exit_code, 137);
    assert_eq!(output.stdout.text, "out");
    assert!(!output.timed_out);
    for on_windows in [false, true] {
        assert!(matches!(
            killed(WaitOutcome::TimedOut, on_windows),
            Err(CodexErr::Sandbox(SandboxErr::Timeout { output })) if output.exit_code == 124
        ));
    }
}

#[test]
fn windows_has_exit_codes_and_no_signals() {
    for raw in [0, 9, 137, -1, 3 * 256] {
        assert_eq!(
            synthetic_exit_status(raw, true),
            ExitStatus {
                code: Some(raw),
                signal: None
            }
        );
    }
    let output = make_exec_output(EXIT_CODE_SIGNAL_BASE + libc::SIGSYS, "", "", "");
    assert!(!is_likely_sandbox_denied(SandboxType::LinuxSeccomp, &output, true));
}

#[test]
fn missing_pipes_are_an_error() {
    assert!(matches!(
        consume_truncated_output(
            false,
            true,
            WaitOutcome::TimedOut,
            DrainOutcome::TimedOut,
            DrainOutcome::TimedOut,
            &vec![],
            false,
        ),
        Err(CodexErr::Io(_))
    ));
}

#[test]
fn results_are_told_apart() {
    let duration = Duration::from_secs(1);
    let ok = finalize_exec_result(
        Ok(raw(Some(0), None, false)),
        SandboxType::LinuxSeccomp,
        duration,
        false,
    )
    .unwrap();
    assert_eq!(ok.exit_code, 0);
    assert_eq!(ok.stdout.text, "ok");
    assert!(matches!(
        finalize_exec_result(Ok(raw(None, Some(9), false)), SandboxType::Unsandboxed, duration, false),
        Err(CodexErr::Sandbox(SandboxErr::Signal(9)))
    ));
    let mut denied = raw(Some(1), None, false);
    denied.stderr.text = b"permission denied".to_vec();
    assert!(matches!(
        finalize_exec_result(Ok(denied), SandboxType::LinuxSeccomp, duration, false),
        Err(CodexErr::Sandbox(SandboxErr::Denied { .. }))
    ));
    assert!(matches!(
        finalize_exec_result(
            Err(CodexErr::Io("x".to_string())),
            SandboxType::Unsandboxed,
            duration,
            false
        ),
        Err(CodexErr::Io(_))
    ));
}

#[test]
fn the_windows_sandbox_is_captured() {
    let out = exec_windows_sandbox(WindowsSandboxOutcome::Captured(WindowsCapture {
        exit_code: 0,
        stdout: b"a".to_vec(),
        stderr: b"b".to_vec(),
        timed_out: false,
    }))
    .unwrap();
    assert_eq!(out.aggregated_output.text, b"ab".to_vec());
    match exec_windows_sandbox(WindowsSandboxOutcome::Failed("boom".to_string())) {
        Err(CodexErr::Io(m)) => assert_eq!(m, "windows sandbox: boom"),
        other => panic!("unexpected {other:?}"),
    }
    match exec_windows_sandbox(WindowsSandboxOutcome::PolicyFailed("boom".to_string())) {
        Err(CodexErr::Io(m)) => {
            assert_eq!(m, "failed to serialize Windows sandbox policy: boom")
        }
        other => panic!("unexpected {other:?}"),
    }
    match exec_windows_sandbox(WindowsSandboxOutcome::HomeFailed("boom".to_string())) {
        Err(CodexErr::Io(m)) => {
            assert_eq!(m, "windows sandbox: failed to resolve codex_home: boom")
        }
        other => panic!("unexpected {other:?}"),
    }
    match exec_windows_sandbox(WindowsSandboxOutcome::JoinFailed("boom".to_string())) {
        Err(CodexErr::Io(m)) => assert_eq!(m, "windows sandbox join error: boom"),
        other => panic!("unexpected {other:?}"),
    }
}

#[test]
fn live_output_is_capped_and_the_rest_is_kept() {
    let chunks: Vec<Vec<u8>> = (0..10_005).map(|_| vec![b'x']).collect();
    let (all, emitted) = read_capped(&chunks, true);
    assert_eq!(all.text.len(), 10_005);
    assert_eq!(emitted, 10_000);
    assert_eq!(read_capped(&chunks, false).1, 0);
}

#[test]
fn errors_of_the_sandbox_are_told_apart() {
    assert!(matches!(
        transform_error(SandboxTransformError::MissingLinuxSandboxExecutable),
        CodexErr::LandlockSandboxExecutableNotProvided
    ));
    match transform_error(SandboxTransformError::SeatbeltUnavailable) {
        CodexErr::UnsupportedOperation(m) => {
            assert_eq!(m, "seatbelt sandbox is only available on macOS")
        }
        other => panic!("unexpected {other:?}"),
    }
}

#[test]
fn keywords_are_found_in_any_case() {
    let output = make_exec_output(1, "", "ÉCHEC: PERMISSION DENIED", "");
    assert!(is_likely_sandbox_denied(SandboxType::LinuxSeccomp, &output, false));
}
