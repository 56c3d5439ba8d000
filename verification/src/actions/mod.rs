//! Action backends: the capability the orchestrator consumes and the
//! built-in stub backend.

pub mod evidence;
pub mod paths;
pub mod traits;
