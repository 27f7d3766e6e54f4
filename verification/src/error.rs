//! Error types for the protocol.

use vstd::prelude::*;

verus! {

/// Errors that may arise anywhere in the protocol:
/// a failed conversion of a value into the proof system's field,
/// a malformed or truncated message, or a failure reported by the
/// proof-system backend.
#[derive(Debug)]
pub enum GenericError {
    ConversionError,
    ParseError(String),
    MarlinError(String),
}

impl GenericError {
    /// A human-readable description of the error.
    pub fn message(&self) -> String {
        match self {
            GenericError::ConversionError => {
                "You tried to convert a value to a field element, but this failed!".to_string()
            },
            GenericError::ParseError(e) => e.clone(),
            GenericError::MarlinError(e) => e.clone(),
        }
    }
}

/// Client-side state errors: a value was read from session storage before
/// the phase that produces it has run.
#[derive(Debug)]
pub enum ClientError {
    UnobtainedValue,
}

impl ClientError {
    /// A human-readable description of the error.
    pub fn message(&self) -> String {
        "You tried to use a value from storage, but this value has not yet been obtained."
            .to_string()
    }
}

/// Any error a protocol operation can report.
#[derive(Debug)]
pub enum VldpError {
    Generic(GenericError),
    Client(ClientError),
}

} // verus!
