//! Quote failures: the error kinds of the quote path and how support codes
//! map onto them.
use vstd::prelude::*;

verus! {

/// Why a premium quote could not be produced.
#[derive(Clone, Copy, PartialEq, Eq, Structural, Debug)]
pub enum QuoteError {
    InvalidAge,
    InvalidRiskScore,
    InvalidQuoteTtl,
    ArithmeticOverflow,
}

/// The quote error that a support code stands for: 1, 2 and 3 name the
/// validation failures, any other code an arithmetic overflow.
pub open spec fn error_for_code(code: u32) -> QuoteError {
    if code == 1 {
        QuoteError::InvalidAge
    } else if code == 2 {
        QuoteError::InvalidRiskScore
    } else if code == 3 {
        QuoteError::InvalidQuoteTtl
    } else {
        QuoteError::ArithmeticOverflow
    }
}

/// Converts a quote failure code, as reported to API layers, back into the
/// quote error it stands for.
pub fn quote_error_from_code(code: u32) -> (err: QuoteError)
    ensures
        err == error_for_code(code),
        code == 1 ==> err == QuoteError::InvalidAge,
        code == 2 ==> err == QuoteError::InvalidRiskScore,
        code == 3 ==> err == QuoteError::InvalidQuoteTtl,
        (code == 0 || code > 3) ==> err == QuoteError::ArithmeticOverflow,
{
    match code {
        1 => QuoteError::InvalidAge,
        2 => QuoteError::InvalidRiskScore,
        3 => QuoteError::InvalidQuoteTtl,
        _ => QuoteError::ArithmeticOverflow,
    }
}

} // verus!
