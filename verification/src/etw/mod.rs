//! Event tracing: settings, record decoding, event correlation and summaries.

pub mod collector;
pub mod collector_laws;
pub mod counts;
pub mod decode;
pub mod decode_laws;
pub mod invariants;
pub mod laws;
pub mod model;
pub mod output_laws;
pub mod pending;
pub mod processor;
pub mod session;
pub mod settings;
pub mod stack;
pub mod stack_laws;
pub mod summary;
