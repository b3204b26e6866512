//! Error type shared by every builder and decoder of the crate.

use vstd::prelude::*;

verus! {

/// Error returned by the command builders and the status decoder.
///
/// `Input` reports an out-of-range parameter or an invalid payload,
/// `InvalidResponse` a status byte that does not match the fixed bit
/// template, and `Io` a failure at an outside boundary (a byte stream
/// that does not decode to an image, a transport fault reported by a
/// caller).
#[derive(Debug, Clone)]
pub enum PrinterError {
    Io(String),
    Input(String),
    InvalidResponse(String),
}

impl PrinterError {
    /// A short human-readable description of the error.
    pub fn message(&self) -> (r: &str)
        ensures
            r@ == match self {
                PrinterError::Io(m) => m@,
                PrinterError::Input(m) => m@,
                PrinterError::InvalidResponse(m) => m@,
            },
    {
        match self {
            PrinterError::Io(m) => m.as_str(),
            PrinterError::Input(m) => m.as_str(),
            PrinterError::InvalidResponse(m) => m.as_str(),
        }
    }
}

} // verus!
