//! Error taxonomy of the core.
//!
//! Arithmetic failures are always fatal to the current evaluation;
//! configuration defects (an unrecognized oracle source, an illegal
//! mutation of a fixed-type balance) signal a caller-side setup error.
//! Every failure surfaces to the immediate caller; nothing is retried
//! or swallowed.

use vstd::prelude::*;

verus! {

#[derive(Clone, Copy, Debug, PartialEq, Eq, Structural)]
pub enum ErrorCode {
    /// Overflow, underflow, or division by zero in checked arithmetic.
    MathError,
    /// The oracle account bytes could not be decoded.
    UnableToLoadOracle,
    /// The oracle account decoded to an implausible reading.
    InvalidOracle,
    /// The market's oracle source kind has no adapter.
    UnsupportedOracleSource,
    /// A pool balance is permanently of deposit type and cannot change.
    CantUpdatePoolBalanceType,
}

pub type ClearingHouseResult<T> = Result<T, ErrorCode>;

pub type DriftResult<T> = Result<T, ErrorCode>;

impl ErrorCode {
    /// A short diagnostic label for the error, for callers that report it.
    pub fn label(&self) -> (r: String)
        ensures
            r@.len() > 0,
    {
        let s = match self {
            ErrorCode::MathError => "math error",
            ErrorCode::UnableToLoadOracle => "unable to load oracle",
            ErrorCode::InvalidOracle => "invalid oracle",
            ErrorCode::UnsupportedOracleSource => "unsupported oracle source",
            ErrorCode::CantUpdatePoolBalanceType => "cant update pool balance type",
        };
        proof {
            reveal_strlit("math error");
            reveal_strlit("unable to load oracle");
            reveal_strlit("invalid oracle");
            reveal_strlit("unsupported oracle source");
            reveal_strlit("cant update pool balance type");
        }
        s.to_owned()
    }
}

} // verus!
