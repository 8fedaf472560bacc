//! Typed errors surfaced by the library.

use vstd::prelude::*;

verus! {

/// Error returned by every fallible operation of the library.
///
/// The kinds mirror the failure surface of the native boundary: a native
/// call that failed with an operating-system code, a response buffer that
/// could not be decoded, an argument that could not be carried across the
/// boundary, a tag that is not known, a lost connection, a caller-imposed
/// timeout, and a catch-all for uncategorized native codes.
#[derive(Debug, Clone, PartialEq, Eq)]
pub enum CtApiError {
    /// A native call failed; wraps the operating-system error code.
    System { code: u32 },
    /// A response buffer held no terminator byte within the reported length.
    Decoding,
    /// An argument could not be encoded for the native boundary, for example
    /// because its encoded form contains an embedded terminator byte.
    InvalidParameter { param: String, value: String },
    /// The named tag is not known to the receiving component.
    TagNotFound { tag: String },
    /// The connection to the server could not be established or was lost.
    ConnectionFailed,
    /// A caller-imposed deadline passed; the native layer has no timeout.
    Timeout,
    /// An uncategorized native error code with an optional description.
    Other { code: u32, message: String },
}

impl CtApiError {
    /// True exactly when the error reports an unknown tag.
    pub fn is_tag_error(&self) -> (r: bool)
        ensures
            r == (self matches CtApiError::TagNotFound { .. }),
    {
        match self {
            CtApiError::TagNotFound { .. } => true,
            _ => false,
        }
    }

    /// True exactly when the error reports a failed connection.
    pub fn is_connection_error(&self) -> (r: bool)
        ensures
            r == (self matches CtApiError::ConnectionFailed),
    {
        match self {
            CtApiError::ConnectionFailed => true,
            _ => false,
        }
    }

    /// True exactly when the error wraps a native error code.
    pub fn is_system_error(&self) -> (r: bool)
        ensures
            r == (self matches CtApiError::System { .. }),
    {
        match self {
            CtApiError::System { .. } => true,
            _ => false,
        }
    }
}

/// Coarse error classification kept for callers of the earliest interface.
#[derive(Debug, Clone)]
pub enum UserError {
    /// A native call failed; wraps the operating-system error code.
    CtApiError(u32),
    /// Received text was not valid for the host string representation.
    Utf8Error,
    /// An argument held an embedded terminator byte.
    NulError,
    /// The named tag was not found.
    TagNotFound(String),
}

impl From<String> for UserError {
    fn from(s: String) -> (r: Self) {
        UserError::TagNotFound(s)
    }
}

impl vstd::std_specs::convert::FromSpecImpl<String> for UserError {
    open spec fn obeys_from_spec() -> bool {
        true
    }

    open spec fn from_spec(s: String) -> Self {
        UserError::TagNotFound(s)
    }
}

} // verus!
