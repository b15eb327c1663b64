//! The duration quantizer: a closed vocabulary of four note lengths.
//!
//! Only the exact tick values 0, 12, 24 and 48 are recognized; every other
//! delta-time is an input error that aborts a reduction run.

use vstd::prelude::*;

verus! {

/// One of the four recognized note lengths.
#[derive(Clone, Copy, Debug, PartialEq, Eq, Structural)]
pub enum DurationSymbol {
    Zero,
    Eighth,
    Quarter,
    Half,
}

/// The error produced when a delta-time outside the closed vocabulary
/// reaches the quantizer; it carries the offending value.
#[derive(Clone, Copy, Debug, PartialEq, Eq, Structural)]
pub struct QuantizeError {
    pub delta: u32,
}

/// The symbol a delta-time quantizes to, or `None` outside the vocabulary.
pub open spec fn quantize_spec(delta: u32) -> Option<DurationSymbol> {
    if delta == 0 {
        Some(DurationSymbol::Zero)
    } else if delta == 12 {
        Some(DurationSymbol::Eighth)
    } else if delta == 24 {
        Some(DurationSymbol::Quarter)
    } else if delta == 48 {
        Some(DurationSymbol::Half)
    } else {
        None
    }
}

/// Maps a delta-time to its duration symbol; any value outside
/// {0, 12, 24, 48} is rejected with a `QuantizeError` carrying it.
pub fn quantize(delta: u32) -> (r: Result<DurationSymbol, QuantizeError>)
    ensures
        r == match quantize_spec(delta) {
            Some(s) => Ok::<DurationSymbol, QuantizeError>(s),
            None => Err::<DurationSymbol, QuantizeError>(QuantizeError { delta }),
        },
{
    match delta {
        0 => Ok(DurationSymbol::Zero),
        12 => Ok(DurationSymbol::Eighth),
        24 => Ok(DurationSymbol::Quarter),
        48 => Ok(DurationSymbol::Half),
        _ => Err(QuantizeError { delta }),
    }
}

} // verus!
