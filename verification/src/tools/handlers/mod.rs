//! What the model's calls of the tools lead to.
pub mod call;
pub mod shell;
pub mod unified_exec;
