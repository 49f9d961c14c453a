//! The errors that events carry and that decoding reports.

use vstd::prelude::*;

verus! {

/// Why an argument sequence could not be read as the message that its event
/// kind expects. A position counts the arguments from zero.
#[derive(Debug, Clone, Copy, PartialEq, Eq)]
pub enum DecodeError {
    /// The sequence ends before this required position.
    MissingField(usize),
    /// The value at this required position does not have the expected type.
    WrongType(usize),
}

/// An error that the remote service reported for one of its sessions.
#[derive(Debug, Clone, PartialEq, Eq)]
pub enum TradingViewError {
    SeriesError,
    SymbolError,
    CriticalError,
    StudyError,
    ProtocolError,
    QuoteDataStatusError(String),
    ReplayError,
}

/// The error value of an error event.
#[derive(Debug, Clone, PartialEq, Eq)]
pub enum Error {
    /// A failure described only by its text.
    Generic(String),
    /// A failure inside the client.
    Internal(String),
    /// A failure that the remote service reported.
    TradingViewError(TradingViewError),
}

} // verus!
