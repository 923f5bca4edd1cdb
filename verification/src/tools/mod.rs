//! The tools of the agent.
pub mod handlers;
pub mod orchestrator;
pub mod runtimes;
pub mod sandboxing;
