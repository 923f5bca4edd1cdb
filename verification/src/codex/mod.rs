//! The agent: sessions, tasks and turns.
pub mod configuration;
pub mod handlers;
pub mod history;
pub mod mcp_errors;
pub mod session;
pub mod submission;
pub mod task;
pub mod turn;
