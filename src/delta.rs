use vstd::prelude::*;

use crate::error::{ErrorKind, Field, ResolutionError};

verus! {

/// The largest binary64 encoding below that of positive infinity; every
/// encoding from 1 up to it is a finite number greater than zero.
pub const MAX_FINITE_BITS: u64 = 0x7FEF_FFFF_FFFF_FFFF;

/// `bits` encodes, in IEEE 754 binary64, a finite number strictly greater
/// than zero: sign bit clear, not zero, and an exponent below all ones.
pub open spec fn is_positive_finite(bits: u64) -> bool {
    0 < bits && bits <= MAX_FINITE_BITS
}

/// What the tradeoff parameter resolves to, given the outcome of reading
/// `raw` as a binary64 number (`None` when it does not read as one).
pub open spec fn delta_outcome(raw: Seq<char>, parsed: Option<u64>) -> Result<u64, (ErrorKind, Field, Seq<char>)> {
    match parsed {
        None => Err((ErrorKind::InvalidFloat, Field::DefaultDelta, raw)),
        Some(bits) => if is_positive_finite(bits) {
            Ok(bits)
        } else {
            Err((ErrorKind::OutOfRange, Field::DefaultDelta, raw))
        },
    }
}

/// Accepts the tradeoff parameter when `parsed`, the binary64 encoding read
/// from `raw`, is finite and strictly positive.
pub fn check_delta(raw: &str, parsed: Option<u64>) -> (r: Result<u64, ResolutionError>)
    ensures
        match (r, delta_outcome(raw@, parsed)) {
            (Ok(b), Ok(c)) => b == c,
            (Err(e), Err(f)) => e@ == f,
            _ => false,
        },
{
    match parsed {
        None => Err(ResolutionError::new(ErrorKind::InvalidFloat, Field::DefaultDelta, raw)),
        Some(bits) => if 0 < bits && bits <= MAX_FINITE_BITS {
            Ok(bits)
        } else {
            Err(ResolutionError::new(ErrorKind::OutOfRange, Field::DefaultDelta, raw))
        },
    }
}

} // verus!
