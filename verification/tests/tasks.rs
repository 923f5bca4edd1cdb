use codex_core::exec::{ExecToolCallOutput, SandboxType, StreamOutput};
use codex_core::protocol::ResponseItem;
use codex_core::shell::{Shell, ZshShell};
use codex_core::tasks::ghost_snapshot::{GhostSnapshotTask, SnapshotOutcome, SnapshotStep};
use codex_core::tasks::kinds::{CompactTask, RegularTask, TaskKind};
use codex_core::tasks::user_shell::{UserShellCommandTask, UserShellOutcome};
use std::time::Duration;

#[test]
fn tasks_have_their_kinds() {
    assert_eq!(RegularTask.kind(), TaskKind::Regular);
    assert_eq!(CompactTask.kind(), TaskKind::Compact);
    assert_eq!(GhostSnapshotTask::new(1).kind(), TaskKind::Regular);
    assert_eq!(UserShellCommandTask::new("ls".to_string()).kind(), TaskKind::Regular);
}

#[test]
fn the_users_shell_runs_the_users_commands() {
    let task = UserShellCommandTask::new("ls | wc".to_string());
    let zsh = Shell::Zsh(ZshShell {
        shell_path: "/bin/zsh".to_string(),
    });
    let (call_id, env) = task.exec_env(&zsh, &"/work".to_string(), vec![]);
    assert_eq!(env.command, vec!["/bin/zsh", "-lc", "ls | wc"]);
    assert_eq!(env.cwd, "/work");
    assert_eq!(env.sandbox, SandboxType::Unsandboxed);
    assert_eq!(env.timeout_ms, None);
    let id = uuid::Uuid::parse_str(&call_id).expect("a uuid");
    assert_eq!(id.get_version_num(), 4);
    assert_eq!(id.get_variant(), uuid::Variant::RFC4122);
    assert_eq!(call_id.len(), 36);
    let (other, _) = task.exec_env(&zsh, &"/work".to_string(), vec![]);
    assert_ne!(call_id, other);
}

#[test]
fn outcomes_of_the_users_commands_are_reported() {
    let task = UserShellCommandTask::new("ls".to_string());
    let end = task.run(UserShellOutcome::Cancelled);
    assert_eq!(end.output.exit_code, -1);
    assert_eq!(end.output.stderr.text, "command aborted by user");
    assert_eq!(end.output.duration, Duration::ZERO);
    assert!(end.record_first);
    assert_eq!(end.formatted_output.as_deref(), Some("command aborted by user"));
    let end = task.run(UserShellOutcome::Failed("Io(..)".to_string()));
    assert_eq!(end.output.aggregated_output.text, "execution error: Io(..)");
    assert!(!end.record_first);
    let output = ExecToolCallOutput {
        exit_code: 0,
        stdout: StreamOutput::new("a".to_string()),
        stderr: StreamOutput::new(String::new()),
        aggregated_output: StreamOutput::new("a".to_string()),
        duration: Duration::from_secs(1),
        timed_out: false,
    };
    let end = task.run(UserShellOutcome::Finished(output));
    assert_eq!(end.output.stdout.text, "a");
    assert!(end.formatted_output.is_none());
}

#[test]
fn snapshots_are_recorded_or_switched_off() {
    let task = GhostSnapshotTask::new(5);
    let (step, token) = task.run(SnapshotOutcome::Taken {
        body: "{}".to_string(),
    });
    assert_eq!(token, 5);
    assert!(matches!(step, SnapshotStep::Record(ResponseItem::GhostSnapshot { .. })));
    for (outcome, expected) in [
        (
            SnapshotOutcome::NotAGitRepository,
            "Snapshots disabled: current directory is not a Git repository.",
        ),
        (
            SnapshotOutcome::Failed("x".to_string()),
            "Snapshots disabled after ghost snapshot error: x.",
        ),
        (
            SnapshotOutcome::Panicked("y".to_string()),
            "Snapshots disabled after ghost snapshot panic: y.",
        ),
    ] {
        match task.run(outcome) {
            (SnapshotStep::Notify(m), 5) => assert_eq!(m, expected),
            other => panic!("unexpected {other:?}"),
        }
    }
    assert!(matches!(
        task.run(SnapshotOutcome::Cancelled),
        (SnapshotStep::Nothing, 5)
    ));
}
