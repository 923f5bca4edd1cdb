//! What the orchestrator runs.
pub mod unified_exec;
