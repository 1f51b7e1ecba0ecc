//! The tools that the server offers: names, descriptions, argument schemas and dispatch.

pub mod call_laws;
pub mod description_laws;
pub mod laws;
pub mod registry;
pub mod schema;
