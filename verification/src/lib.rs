//! Request planning for an observability tool server: which backend a
//! configuration selects, which path and body each tool sends to that
//! backend, and how the answers are reported back.

pub mod backend;
pub mod encoding;
pub mod inputs;
pub mod laws;
pub mod tool_laws;
pub mod probes;
pub mod request;
pub mod text;
pub mod tools;
