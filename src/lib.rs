//! Client-side logic for a hierarchical key-value store reached over HTTP:
//! building requests, and reading records and absence out of responses.

pub mod error;
pub mod json;
pub mod record;
pub mod kv;
pub mod response;
