//! Analysis sessions: databases that a supervisor keeps open.

pub mod direct;
pub mod direct_laws;
pub mod error_laws;
pub mod install;
pub mod backend_laws;
pub mod call;
pub mod laws;
pub mod listing;
pub mod manager;
pub mod model;
pub mod session_laws;
pub mod supervisor;
pub mod supervisor_laws;
pub mod table;
pub mod table_laws;
pub mod target;
pub mod tool_laws;
pub mod worker;
pub mod worker_laws;
