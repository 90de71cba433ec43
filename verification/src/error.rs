//! The ways in which the oracle's operations fail.

use vstd::prelude::*;

verus! {

/// Why a quote could not be fetched from its source.
#[derive(Clone, Copy, Debug, PartialEq, Eq, Structural)]
pub enum FetchError {
    /// The connection to the source could not be made.
    Network,
    /// The deadline passed before the source had answered in full.
    Timeout,
    /// The source answered with a status other than 200.
    BadStatus(u16),
    /// The body of the answer is not UTF-8 text.
    Encoding,
    /// The body is not a record with a price, a time and a symbol.
    Malformed,
    /// The price, in fixed-point units, does not fit in 128 bits.
    Overflow,
}

/// Why a request against the ledger was turned down.
#[derive(Clone, Copy, Debug, PartialEq, Eq, Structural)]
pub enum Error {
    /// A fetch window for the symbol is open already.
    FetcherAlreadyExist,
    /// The symbol is not one of those that the oracle tracks.
    SymbolNotFound,
    /// No fetch window is open for the symbol.
    FetcherNotFound,
}

/// Why a window's observations have no mean.
#[derive(Clone, Copy, Debug, PartialEq, Eq, Structural)]
pub enum AggregationError {
    /// There is no observation to take a mean of.
    Empty,
}

/// Why a reporter could not hand a call to the ledger.
#[derive(Clone, Copy, Debug, PartialEq, Eq, Structural)]
pub enum SubmitError {
    /// The reporter holds no key that it could sign with.
    NoLocalIdentity,
    /// The signed call could not be sent.
    TransmissionError,
}

} // verus!
