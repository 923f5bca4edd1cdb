//! Which commands may run without asking.
pub mod windows_laws;
pub mod windows_safe_commands;
