//! Verified core of the dbgflow debugging server.

pub mod artifact;
pub mod bytes;
pub mod error;
pub mod etw;
pub mod http;
pub mod http_laws;
pub mod ida;
pub mod ids;
pub mod journal;
pub mod json;
pub mod json_laws;
pub mod logging;
pub mod mcp;
pub mod mcp_laws;
pub mod order;
pub mod path_laws;
pub mod process;
pub mod profile;
pub mod runtime;
pub mod scan;
pub mod search_path;
pub mod text;
pub mod text_laws;
pub mod tools;
pub mod ttd;
pub mod validation;
pub mod winpath;
