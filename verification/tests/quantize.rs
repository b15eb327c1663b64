use mid_to_se::duration::{quantize, DurationSymbol, QuantizeError};
use mid_to_se::emitter::delta_to_note;

#[test]
fn quantize_zero() {
    assert_eq!(quantize(0), Ok(DurationSymbol::Zero));
}

#[test]
fn quantize_eleven_rejected() {
    assert_eq!(quantize(11), Err(QuantizeError { delta: 11 }));
}

#[test]
fn quantize_twelve() {
    assert_eq!(quantize(12), Ok(DurationSymbol::Eighth));
}

#[test]
fn quantize_thirteen_rejected() {
    assert_eq!(quantize(13), Err(QuantizeError { delta: 13 }));
}

#[test]
fn quantize_twenty_four() {
    assert_eq!(quantize(24), Ok(DurationSymbol::Quarter));
}

#[test]
fn quantize_forty_eight() {
    assert_eq!(quantize(48), Ok(DurationSymbol::Half));
}

#[test]
fn quantize_forty_nine_rejected() {
    assert_eq!(quantize(49), Err(QuantizeError { delta: 49 }));
}

#[test]
fn quantize_largest_rejected() {
    assert_eq!(quantize(u32::MAX), Err(QuantizeError { delta: u32::MAX }));
}

#[test]
fn quantize_other_multiples_rejected() {
    // Multiples of twelve outside the closed vocabulary are still errors.
    assert_eq!(quantize(36), Err(QuantizeError { delta: 36 }));
    assert_eq!(quantize(96), Err(QuantizeError { delta: 96 }));
}

#[test]
fn delta_to_note_texts() {
    assert_eq!(delta_to_note(0), "0");
    assert_eq!(delta_to_note(12), "N_EIGHTH");
    assert_eq!(delta_to_note(24), "N_QUARTER");
    assert_eq!(delta_to_note(48), "N_HALF");
}
