//! Reduction of a decoded MIDI event stream to quantized note-duration
//! records, for emission as source-code literals in a generated header.
//!
//! The crate is organised leaf-first: `duration` maps delta-times to the
//! closed vocabulary of duration symbols, `reducer` folds a channel-0
//! NoteOn/NoteOff stream into (pitch, start, end) records while tracking the
//! observed pitch range, and `emitter` renders each record as one line of
//! output text.

pub mod duration;
pub mod emitter;
pub mod reducer;

use vstd::prelude::*;

verus! {

use crate::emitter::output_text;
use crate::reducer::{fold_result, fold_state, NoteEvent};

/// A whole conversion run is deterministic: reducing and rendering the same
/// event sequence twice from a fresh accumulator yields the same final
/// accumulator and character-identical output text.
pub proof fn lemma_run_deterministic(first: Seq<NoteEvent>, second: Seq<NoteEvent>)
    requires
        first == second,
    ensures
        fold_state(first) == fold_state(second),
        fold_result(first) == fold_result(second),
        fold_result(first) matches Ok(ns) ==> fold_result(second) matches Ok(ns2) && output_text(
            ns,
        ) == output_text(ns2),
{
}

} // verus!
