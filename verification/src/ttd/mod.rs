//! Recordings: a recorder traces a target so that its run can be replayed.

pub mod args;
pub mod laws;
pub mod options;
pub mod output;
pub mod output_laws;
pub mod record;
pub mod report_laws;
pub mod validation;
