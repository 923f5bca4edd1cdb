//! The kinds of tasks.
pub mod ghost_snapshot;
pub mod kinds;
pub mod user_shell;
