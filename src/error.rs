//! Failures that the library reports.
use vstd::prelude::*;

verus! {

/// Why an operation failed.
#[derive(Debug, Clone, Copy, PartialEq, Eq, Structural)]
pub enum KvError {
    /// The base address is no absolute URL, or the key path could not be
    /// joined onto it.
    Url,
    /// A list of records was expected, but the response body held no JSON.
    NoJson,
    /// The response JSON was not a list of well-formed records.
    Shape,
    /// A stored value was not valid base64.
    Base64,
    /// A decoded value was not a JSON document.
    Json,
}

} // verus!
