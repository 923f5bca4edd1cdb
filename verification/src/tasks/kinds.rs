//! How tasks are told apart.
use vstd::prelude::*;

verus! {

/// What a task is for.
#[derive(Debug, Clone, Copy, PartialEq, Eq, Structural)]
pub enum TaskKind {
    Regular,
    Review,
    Compact,
}

/// Turns of the conversation until the model has nothing more to do.
#[derive(Debug, Clone, Copy, PartialEq, Eq, Structural)]
pub struct RegularTask;

/// A summary of the conversation.
#[derive(Debug, Clone, Copy, PartialEq, Eq, Structural)]
pub struct CompactTask;

impl RegularTask {
    pub fn kind(&self) -> (r: TaskKind)
        ensures
            r == TaskKind::Regular,
    {
        TaskKind::Regular
    }
}

impl CompactTask {
    pub fn kind(&self) -> (r: TaskKind)
        ensures
            r == TaskKind::Compact,
    {
        TaskKind::Compact
    }
}

} // verus!
