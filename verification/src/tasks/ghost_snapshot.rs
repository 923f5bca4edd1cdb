//! Snapshots of the working tree that are taken while a turn runs.
use vstd::prelude::*;

use crate::protocol::ResponseItem;
use crate::tasks::kinds::TaskKind;

verus! {

/// What taking a snapshot came to.
#[derive(Debug)]
pub enum SnapshotOutcome {
    /// The snapshot, as JSON text.
    Taken { body: String },
    NotAGitRepository,
    /// Another error, by its text.
    Failed(String),
    /// The snapshot broke off, with this text.
    Panicked(String),
    Cancelled,
}

/// What follows a snapshot.
#[derive(Debug)]
pub enum SnapshotStep {
    /// Record it in the conversation.
    Record(ResponseItem),
    /// Tell the user.
    Notify(String),
    /// Nothing.
    Nothing,
}

/// The task that takes snapshots.
#[derive(Debug, Clone, Copy, PartialEq, Eq, Structural)]
pub struct GhostSnapshotTask {
    /// What the tool calls that wait for the snapshot are released with.
    pub token: i32,
}

impl GhostSnapshotTask {
    pub fn new(token: i32) -> (r: Self)
        ensures
            r.token == token,
    {
        GhostSnapshotTask { token }
    }

    pub fn kind(&self) -> (r: TaskKind)
        ensures
            r == TaskKind::Regular,
    {
        TaskKind::Regular
    }

    /// What follows a snapshot. Whatever it came to, the tool calls that wait for it are released
    /// afterwards.
    pub fn run(&self, outcome: SnapshotOutcome) -> (r: (SnapshotStep, i32))
        ensures
            r.1 == self.token,
            match outcome {
                SnapshotOutcome::Taken { body } => r.0 == SnapshotStep::Record(
                    ResponseItem::GhostSnapshot { body },
                ),
                SnapshotOutcome::NotAGitRepository => {
                    r.0 matches SnapshotStep::Notify(m) && m@
                        == "Snapshots disabled: current directory is not a Git repository."@
                },
                SnapshotOutcome::Failed(err) => {
                    r.0 matches SnapshotStep::Notify(m) && m@
                        == "Snapshots disabled after ghost snapshot error: "@ + err@ + "."@
                },
                SnapshotOutcome::Panicked(err) => {
                    r.0 matches SnapshotStep::Notify(m) && m@
                        == "Snapshots disabled after ghost snapshot panic: "@ + err@ + "."@
                },
                SnapshotOutcome::Cancelled => r.0 == SnapshotStep::Nothing,
            },
    {
        let step = match outcome {
            SnapshotOutcome::Taken { body } => SnapshotStep::Record(
                ResponseItem::GhostSnapshot { body },
            ),
            SnapshotOutcome::NotAGitRepository => SnapshotStep::Notify(
                "Snapshots disabled: current directory is not a Git repository.".to_owned(),
            ),
            SnapshotOutcome::Failed(err) => {
                let mut message = "Snapshots disabled after ghost snapshot error: ".to_owned();
                message.append(err.as_str());
                message.append(".");
                SnapshotStep::Notify(message)
            },
            SnapshotOutcome::Panicked(err) => {
                let mut message = "Snapshots disabled after ghost snapshot panic: ".to_owned();
                message.append(err.as_str());
                message.append(".");
                SnapshotStep::Notify(message)
            },
            SnapshotOutcome::Cancelled => SnapshotStep::Nothing,
        };
        (step, self.token)
    }
}

/// A snapshot that was taken is recorded; the user is told why one could not be; and whatever
/// happens, what waits for it is released.
pub proof fn law_snapshot_is_recorded_or_explained(
    task: GhostSnapshotTask,
    outcome: SnapshotOutcome,
    r: (SnapshotStep, i32),
)
    requires
        call_ensures(GhostSnapshotTask::run, (&task, outcome), r),
    ensures
        r.1 == task.token,
        match outcome {
            SnapshotOutcome::Taken { body } => r.0 == SnapshotStep::Record(
                ResponseItem::GhostSnapshot { body },
            ),
            SnapshotOutcome::NotAGitRepository => r.0 matches SnapshotStep::Notify(m) && m@
                == "Snapshots disabled: current directory is not a Git repository."@,
            SnapshotOutcome::Failed(why) => r.0 matches SnapshotStep::Notify(m) && m@
                == "Snapshots disabled after ghost snapshot error: "@ + why@ + "."@,
            SnapshotOutcome::Panicked(why) => r.0 matches SnapshotStep::Notify(m) && m@
                == "Snapshots disabled after ghost snapshot panic: "@ + why@ + "."@,
            SnapshotOutcome::Cancelled => r.0 is Nothing,
        },
{
}

} // verus!
