//! Profiles: a target runs while collectors record what it does.

pub mod laws;
pub mod model;
pub mod report_laws;
pub mod request;
pub mod run;
pub mod step_laws;
pub mod target;
