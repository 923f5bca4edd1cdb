//! Commands that the user types.
use vstd::prelude::*;

use crate::exec;
use crate::exec::{ExecEnv, ExecToolCallOutput, SandboxType, StreamOutput};
use crate::shell;
use crate::shell::Shell;
use crate::shell_words;
use crate::tasks::kinds::TaskKind;
use crate::text;

verus! {

/// A command that the user typed.
#[derive(Debug)]
pub struct UserShellCommandTask {
    pub command: String,
}

/// What running the command came to.
#[derive(Debug)]
pub enum UserShellOutcome {
    Cancelled,
    Finished(ExecToolCallOutput),
    /// The command could not be run; the error is in its debugging form.
    Failed(String),
}

/// What follows the command: its output is recorded in the conversation and the user is told of it.
#[derive(Debug)]
pub struct UserShellEnd {
    pub output: ExecToolCallOutput,
    /// Whether the output is recorded before the user is told.
    pub record_first: bool,
    /// The words in which the user is told, where they are not those for any output.
    pub formatted_output: Option<String>,
}

/// Whether a character is a hexadecimal digit in lowercase.
pub open spec fn is_lower_hex(c: char) -> bool {
    ('0' <= c && c <= '9') || ('a' <= c && c <= 'f')
}

/// Whether a text is a random UUID: groups of eight, four, four, four and twelve hexadecimal digits
/// with hyphens between them; the third group begins with the version, which is four, and the
/// fourth with the variant.
pub open spec fn is_random_uuid(s: Seq<char>) -> bool {
    &&& s.len() == 36
    &&& forall|i: int|
        0 <= i < 36 ==> if i == 8 || i == 13 || i == 18 || i == 23 {
            #[trigger] s[i] == '-'
        } else {
            is_lower_hex(s[i])
        }
    &&& s[14] == '4'
    &&& s[19] == '8' || s[19] == '9' || s[19] == 'a' || s[19] == 'b'
}

/// `Uuid::new_v4` draws a random UUID, and its `Display` writes it in lowercase with hyphens; which
/// one is a matter of chance.
#[verifier::external_body]
fn random_uuid() -> (r: String)
    ensures
        is_random_uuid(r@),
{
    uuid::Uuid::new_v4().to_string()
}

/// Whether an output is nothing but a message of an error.
pub open spec fn is_error_output(output: ExecToolCallOutput, message: Seq<char>) -> bool {
    &&& output.exit_code == -1
    &&& output.stdout.text@ == Seq::<char>::empty()
    &&& output.stdout.truncated_after_lines is None
    &&& output.stderr.text@ == message
    &&& output.stderr.truncated_after_lines is None
    &&& output.aggregated_output.text@ == message
    &&& output.aggregated_output.truncated_after_lines is None
    &&& output.duration == exec::duration_of_millis(0)
    &&& !output.timed_out
}

/// An output that is nothing but a message of an error.
fn error_output(message: &String) -> (r: ExecToolCallOutput)
    ensures
        is_error_output(r, message@),
{
    ExecToolCallOutput {
        exit_code: -1,
        stdout: StreamOutput::new(String::new()),
        stderr: StreamOutput::new(message.clone()),
        aggregated_output: StreamOutput::new(message.clone()),
        duration: std::time::Duration::from_millis(0),
        timed_out: false,
    }
}

impl UserShellCommandTask {
    pub fn new(command: String) -> (r: Self)
        ensures
            r.command == command,
    {
        UserShellCommandTask { command }
    }

    pub fn kind(&self) -> (r: TaskKind)
        ensures
            r == TaskKind::Regular,
    {
        TaskKind::Regular
    }

    /// The identity of the call, and the environment that the command runs in: the user's login
    /// shell runs it, without a sandbox and without a limit of time.
    pub fn exec_env(&self, user_shell: &Shell, cwd: &String, env: Vec<(String, String)>) -> (r: (
        String,
        ExecEnv,
    ))
        ensures
            is_random_uuid(r.0@),
            text::texts(r.1.command@) == shell::exec_args(
                *user_shell,
                self.command@,
                true,
                shell_words::shlex_words(self.command@),
            ),
            r.1.cwd == *cwd,
            r.1.env == env,
            r.1.timeout_ms is None,
            r.1.sandbox == SandboxType::Unsandboxed,
            r.1.with_escalated_permissions is None,
            r.1.justification is None,
            r.1.arg0 is None,
    {
        let command = user_shell.derive_exec_args(self.command.as_str(), true);
        (
            random_uuid(),
            ExecEnv {
                command,
                cwd: cwd.clone(),
                env,
                timeout_ms: None,
                sandbox: SandboxType::Unsandboxed,
                with_escalated_permissions: None,
                justification: None,
                arg0: None,
            },
        )
    }

    /// What follows the command.
    pub fn run(&self, outcome: UserShellOutcome) -> (r: UserShellEnd)
        ensures
            match outcome {
                UserShellOutcome::Cancelled => {
                    &&& is_error_output(r.output, "command aborted by user"@)
                    &&& r.record_first
                    &&& r.formatted_output matches Some(m)
                    &&& m@ == "command aborted by user"@
                },
                UserShellOutcome::Finished(output) => {
                    &&& r.output == output
                    &&& !r.record_first
                    &&& r.formatted_output is None
                },
                UserShellOutcome::Failed(err) => {
                    &&& is_error_output(r.output, "execution error: "@ + err@)
                    &&& !r.record_first
                    &&& r.formatted_output is None
                },
            },
    {
        match outcome {
            UserShellOutcome::Cancelled => {
                let message = "command aborted by user".to_owned();
                UserShellEnd {
                    output: error_output(&message),
                    record_first: true,
                    formatted_output: Some(message),
                }
            },
            UserShellOutcome::Finished(output) => UserShellEnd {
                output,
                record_first: false,
                formatted_output: None,
            },
            UserShellOutcome::Failed(err) => {
                let mut message = "execution error: ".to_owned();
                message.append(err.as_str());
                UserShellEnd {
                    output: error_output(&message),
                    record_first: false,
                    formatted_output: None,
                }
            },
        }
    }
}

/// A command of the user runs in their own shell, as a login shell, without a sandbox and without a
/// limit of time, under a name of its own.
pub proof fn law_users_commands_run_freely(
    task: UserShellCommandTask,
    user_shell: Shell,
    cwd: String,
    env: Vec<(String, String)>,
    r: (String, ExecEnv),
)
    requires
        call_ensures(UserShellCommandTask::exec_env, (&task, &user_shell, &cwd, env), r),
    ensures
        r.0@.len() == 36,
        text::texts(r.1.command@) == shell::exec_args(
            user_shell,
            task.command@,
            true,
            shell_words::shlex_words(task.command@),
        ),
        r.1.cwd == cwd,
        r.1.env == env,
        r.1.timeout_ms is None,
        r.1.sandbox == SandboxType::Unsandboxed,
        r.1.with_escalated_permissions is None,
{
}

/// What a command of the user gave is told as it is; one that was cancelled or could not be run is
/// told with the reason and an exit code of its own, and the first is recorded before it is told.
pub proof fn law_users_commands_are_told(
    task: UserShellCommandTask,
    outcome: UserShellOutcome,
    r: UserShellEnd,
)
    requires
        call_ensures(UserShellCommandTask::run, (&task, outcome), r),
    ensures
        r.record_first <==> outcome is Cancelled,
        r.formatted_output is Some <==> outcome is Cancelled,
        outcome !is Finished ==> r.output.duration == exec::duration_of_millis(0)
            && r.output.stdout.truncated_after_lines is None
            && r.output.stderr.truncated_after_lines is None
            && r.output.aggregated_output.truncated_after_lines is None,
        match outcome {
            UserShellOutcome::Finished(output) => r.output == output,
            UserShellOutcome::Cancelled => r.output.exit_code == -1 && r.output.stderr.text@
                == "command aborted by user"@ && r.output.aggregated_output.text@
                == "command aborted by user"@ && r.output.stdout.text@.len() == 0
                && !r.output.timed_out && (r.formatted_output->0)@ == "command aborted by user"@,
            UserShellOutcome::Failed(why) => r.output.exit_code == -1 && r.output.stderr.text@
                == "execution error: "@ + why@ && r.output.aggregated_output.text@
                == "execution error: "@ + why@ && r.output.stdout.text@.len() == 0
                && !r.output.timed_out,
        },
{
}

} // verus!
