//! The decision logic of a coding agent's core, with its behaviour stated and proved.
pub mod client;
pub mod codex;
pub mod command_safety;
pub mod config_loader;
pub mod error;
pub mod exec;
pub mod exec_policy;
pub mod json;
pub mod laws;
pub mod mcp_connection_manager;
pub mod named;
pub mod path;
pub mod protocol;
pub mod response_processing;
pub mod shell;
pub mod shell_words;
pub mod tasks;
pub mod text;
pub mod toml_text;
pub mod tools;
pub mod truncate;
pub mod unified_exec;
