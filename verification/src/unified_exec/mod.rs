//! Interactive commands in sessions that outlive a single call.
pub mod errors;
pub mod limits;
pub mod session_manager;
