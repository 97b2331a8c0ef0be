//! The protocol's error taxonomy.
//!
//! Every dispatch-path failure resolves to one of a small fixed set of codes,
//! surfaced with a numeric code and free-text detail. Only the envelope codec
//! and the role dispatcher manufacture these errors.

use vstd::prelude::*;

verus! {

/// The fixed set of protocol-level error kinds.
#[derive(Clone, Copy, Debug, PartialEq, Eq, Structural)]
pub enum ErrorCode {
    /// A raw payload does not structurally match the expected type for the
    /// resolved method.
    ParseError,
    /// A malformed envelope generally.
    InvalidRequest,
    /// An incoming method name has no registry entry for the target role.
    MethodNotFound,
    /// A handler-level failure, or a correlation inconsistency between a
    /// response envelope and the type a caller expected.
    InternalError,
}

impl ErrorCode {
    /// The numeric code that represents this kind on the wire.
    pub open spec fn spec_number(self) -> int {
        match self {
            ErrorCode::ParseError => -32700,
            ErrorCode::InvalidRequest => -32600,
            ErrorCode::MethodNotFound => -32601,
            ErrorCode::InternalError => -32603,
        }
    }

    /// The numeric code that represents this kind on the wire.
    pub fn number(&self) -> (r: i64)
        ensures
            r as int == self.spec_number(),
    {
        match self {
            ErrorCode::ParseError => -32700,
            ErrorCode::InvalidRequest => -32600,
            ErrorCode::MethodNotFound => -32601,
            ErrorCode::InternalError => -32603,
        }
    }

    /// An error of this kind without further detail.
    pub fn into_error(self) -> (r: Error)
        ensures
            r.code == self,
            r.details is None,
    {
        Error { code: self, details: None }
    }

    /// An error of this kind carrying a free-text detail.
    pub fn into_error_with_details(self, details: String) -> (r: Error)
        ensures
            r.code == self,
            r.details == Some(details),
    {
        Error { code: self, details: Some(details) }
    }
}

/// A protocol-level error: one of the fixed codes, with optional detail.
#[derive(Clone, Debug)]
pub struct Error {
    pub code: ErrorCode,
    pub details: Option<String>,
}

/// A failure returned by a handler implementation.
///
/// The dispatcher never lets one of these cross the protocol boundary as-is;
/// it is always normalized to an [`ErrorCode::InternalError`] whose detail
/// preserves the message.
#[derive(Clone, Debug)]
pub struct HandlerError {
    pub message: String,
}

impl HandlerError {
    /// A handler failure with the given description.
    pub fn new(message: String) -> (r: HandlerError)
        ensures
            r.message == message,
    {
        HandlerError { message }
    }
}

} // verus!
