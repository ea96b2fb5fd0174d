//! The error taxonomy of the client: every failed operation is reported as
//! exactly one of a transport failure, a non-2xx API response, or a body
//! that could not be decoded.

use vstd::prelude::*;

verus! {

/// Why an operation against the credential API failed.
///
/// The three variants are distinct and inspectable: a caller can tell a
/// connection that never produced a response (`Transport`) from a server
/// that answered with a non-2xx status (`Api`, which keeps the exact status
/// code and the raw body text) and from a 2xx response whose body did not
/// have the expected shape (`Decode`).
#[derive(Debug, Clone, PartialEq, Eq)]
pub enum ClientError {
    /// Network-level failure before any HTTP response was obtained;
    /// carries a description of the underlying cause.
    Transport(String),
    /// The server responded with a non-2xx status; carries the exact
    /// status code and the raw response body text.
    Api { status: u16, body: String },
    /// A 2xx response whose body could not be parsed into the expected
    /// shape; carries a description of the parse failure.
    Decode(String),
}

} // verus!
