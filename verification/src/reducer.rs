//! The note reducer: a stateful fold over a chronological channel-tagged
//! NoteOn/NoteOff stream, producing (pitch offset, start, end) records.
//!
//! The model is strictly monophonic: at most one note is pending at a time.
//! A pending note is emitted only when the next channel-0 NoteOn arrives;
//! its start duration is the delta-time of the NoteOff that preceded its own
//! onset (the rest length before it), and its end duration is the delta-time
//! of the most recent NoteOff. The last pending note of a stream is never
//! emitted: there is no end-of-stream flush.

use vstd::prelude::*;

use crate::duration::{quantize, quantize_spec, DurationSymbol, QuantizeError};

verus! {

/// A decoded MIDI event as the reducer consumes it: the channel, pitch and
/// velocity of a note message, together with the delta-time (ticks elapsed
/// since the previous event on the same track). Every other event kind is
/// `Other`, which the reducer ignores.
#[derive(Clone, Copy, Debug, PartialEq, Eq, Structural)]
pub enum NoteEvent {
    NoteOn { ch: u8, note: u8, velocity: u8, delta: u32 },
    NoteOff { ch: u8, note: u8, velocity: u8, delta: u32 },
    Other { delta: u32 },
}

/// The note most recently started and not yet closed: its pitch, and the
/// delta-time captured when it became pending (the previous NoteOff's
/// delta-time, which quantizes to its start duration).
#[derive(Clone, Copy, Debug, PartialEq, Eq, Structural)]
pub struct PendingNote {
    pub pitch: u8,
    pub start_delta: u32,
}

/// A completed note record: the pitch offset from the fixed base (raw pitch
/// minus 24, clamped at zero) and the quantized start and end durations.
#[derive(Clone, Copy, Debug, PartialEq, Eq, Structural)]
pub struct EmittedNote {
    pub pitch_offset: u8,
    pub start: DurationSymbol,
    pub end: DurationSymbol,
}

/// The fold accumulator: the pending note (if any), the delta-time of the
/// most recent channel-0 NoteOff, and the running pitch extrema over all
/// channel-0 NoteOn events seen so far (`None` until the first one).
#[derive(Clone, Copy, Debug, PartialEq, Eq)]
pub struct ReducerState {
    pub pending: Option<PendingNote>,
    pub last_off_delta: u32,
    pub lowest_pitch: Option<u8>,
    pub highest_pitch: Option<u8>,
}

impl ReducerState {
    /// Well-formedness: the extrema are set together and ordered, and a
    /// pending note implies at least one NoteOn has been seen.
    pub open spec fn wf(self) -> bool {
        &&& self.lowest_pitch is Some <==> self.highest_pitch is Some
        &&& (self.lowest_pitch is Some ==> self.lowest_pitch->0 <= self.highest_pitch->0)
        &&& (self.pending is Some ==> self.lowest_pitch is Some)
    }

    /// The fresh accumulator a reduction run starts from.
    pub open spec fn init() -> ReducerState {
        ReducerState {
            pending: None,
            last_off_delta: 0,
            lowest_pitch: None,
            highest_pitch: None,
        }
    }

    /// Creates a fresh accumulator: nothing pending, no NoteOff seen (a
    /// delta-time of zero), no pitch observed yet.
    pub fn new() -> (r: ReducerState)
        ensures
            r == ReducerState::init(),
            r.wf(),
    {
        ReducerState { pending: None, last_off_delta: 0, lowest_pitch: None, highest_pitch: None }
    }
}

/// The pitch offset emitted for a raw pitch: the pitch minus 24, clamped at
/// zero so it is never negative.
pub open spec fn pitch_offset_of(pitch: u8) -> u8 {
    if pitch >= 24 {
        (pitch - 24) as u8
    } else {
        0
    }
}

/// Whether an event is a channel-0 NoteOn, the only kind that can open a
/// note or trigger an emission.
pub open spec fn is_ch0_note_on(e: NoteEvent) -> bool {
    e matches NoteEvent::NoteOn { ch: 0, .. }
}

/// The accumulator after one event. A channel-0 NoteOn replaces the pending
/// note (its start delta is the last NoteOff's delta-time) and widens the
/// extrema; a channel-0 NoteOff records its delta-time; everything else
/// leaves the state unchanged.
pub open spec fn step_state(s: ReducerState, e: NoteEvent) -> ReducerState {
    match e {
        NoteEvent::NoteOn { ch, note, .. } => {
            if ch == 0 {
                ReducerState {
                    pending: Some(PendingNote { pitch: note, start_delta: s.last_off_delta }),
                    last_off_delta: s.last_off_delta,
                    lowest_pitch: match s.lowest_pitch {
                        Some(l) => if note < l { Some(note) } else { Some(l) },
                        None => Some(note),
                    },
                    highest_pitch: match s.highest_pitch {
                        Some(h) => if note > h { Some(note) } else { Some(h) },
                        None => Some(note),
                    },
                }
            } else {
                s
            }
        },
        NoteEvent::NoteOff { ch, delta, .. } => {
            if ch == 0 {
                ReducerState { last_off_delta: delta, ..s }
            } else {
                s
            }
        },
        NoteEvent::Other { .. } => s,
    }
}

/// What one event emits, before quantization: the pending note closed by a
/// channel-0 NoteOn, together with its end delta (the most recent NoteOff's
/// delta-time). Nothing else ever emits.
pub open spec fn step_raw_emission(s: ReducerState, e: NoteEvent) -> Option<(PendingNote, u32)> {
    if is_ch0_note_on(e) {
        match s.pending {
            Some(p) => Some((p, s.last_off_delta)),
            None => None,
        }
    } else {
        None
    }
}

/// What one event emits after quantization: the completed record, `Ok(None)`
/// when nothing is emitted, or the quantizer's error when either delta is
/// outside the vocabulary (the start delta is checked first).
pub open spec fn step_result(s: ReducerState, e: NoteEvent) -> Result<
    Option<EmittedNote>,
    QuantizeError,
> {
    match step_raw_emission(s, e) {
        None => Ok(None),
        Some((p, end_delta)) => match quantize_spec(p.start_delta) {
            None => Err(QuantizeError { delta: p.start_delta }),
            Some(start) => match quantize_spec(end_delta) {
                None => Err(QuantizeError { delta: end_delta }),
                Some(end) => Ok(
                    Some(EmittedNote { pitch_offset: pitch_offset_of(p.pitch), start, end }),
                ),
            },
        },
    }
}

/// Advances the accumulator by one event and returns what it emits: the
/// record completed by this event, `None` when nothing is completed, or the
/// quantizer's error, in which case the state is left unchanged (the run is
/// aborted by the caller).
pub fn reduce(state: &mut ReducerState, event: &NoteEvent) -> (r: Result<
    Option<EmittedNote>,
    QuantizeError,
>)
    ensures
        r == step_result(*old(state), *event),
        r is Ok ==> *final(state) == step_state(*old(state), *event),
        r is Err ==> *final(state) == *old(state),
{
    let emission: Option<EmittedNote> = match (*event) {
        NoteEvent::NoteOn { ch: 0, .. } => {
            match state.pending {
                Some(p) => {
                    let start = match quantize(p.start_delta) {
                        Ok(s) => s,
                        Err(e) => { return Err(e); },
                    };
                    let end = match quantize(state.last_off_delta) {
                        Ok(s) => s,
                        Err(e) => { return Err(e); },
                    };
                    let offset: u8 = if p.pitch >= 24 {
                        p.pitch - 24
                    } else {
                        0
                    };
                    Some(EmittedNote { pitch_offset: offset, start, end })
                },
                None => None,
            }
        },
        _ => None,
    };
    match (*event) {
        NoteEvent::NoteOn { ch, note, .. } => {
            if ch == 0 {
                state.pending = Some(PendingNote { pitch: note, start_delta: state.last_off_delta });
                state.lowest_pitch = match state.lowest_pitch {
                    Some(l) => if note < l { Some(note) } else { Some(l) },
                    None => Some(note),
                };
                state.highest_pitch = match state.highest_pitch {
                    Some(h) => if note > h { Some(note) } else { Some(h) },
                    None => Some(note),
                };
            }
        },
        NoteEvent::NoteOff { ch, delta, .. } => {
            if ch == 0 {
                state.last_off_delta = delta;
            }
        },
        NoteEvent::Other { .. } => {},
    }
    Ok(emission)
}

/// One step keeps the accumulator well formed, and a channel-0 NoteOn
/// guarantees the extrema are set afterwards.
pub proof fn lemma_step_preserves_wf(s: ReducerState, e: NoteEvent)
    requires
        s.wf(),
    ensures
        step_state(s, e).wf(),
        is_ch0_note_on(e) ==> step_state(s, e).lowest_pitch is Some,
{
}

/// The accumulator after folding a whole event sequence from a fresh state.
/// The state evolution is total: quantization errors only cut the emitted
/// records short, they do not touch the accumulator.
pub open spec fn fold_state(events: Seq<NoteEvent>) -> ReducerState
    decreases events.len(),
{
    if events.len() == 0 {
        ReducerState::init()
    } else {
        step_state(fold_state(events.drop_last()), events.last())
    }
}

/// The records a whole event sequence emits from a fresh state, or the first
/// quantization error met, which aborts the run.
pub open spec fn fold_result(events: Seq<NoteEvent>) -> Result<Seq<EmittedNote>, QuantizeError>
    decreases events.len(),
{
    if events.len() == 0 {
        Ok(Seq::empty())
    } else {
        match fold_result(events.drop_last()) {
            Err(e) => Err(e),
            Ok(ns) => match step_result(fold_state(events.drop_last()), events.last()) {
                Err(e) => Err(e),
                Ok(None) => Ok(ns),
                Ok(Some(n)) => Ok(ns.push(n)),
            },
        }
    }
}

/// Once a prefix of the stream has aborted, the whole stream aborts with the
/// same error.
pub proof fn lemma_fold_error_persists(events: Seq<NoteEvent>, i: int)
    requires
        0 <= i <= events.len(),
        fold_result(events.take(i)) is Err,
    ensures
        fold_result(events) == fold_result(events.take(i)),
    decreases events.len() - i,
{
    if i < events.len() {
        assert(events.take(i + 1).drop_last() =~= events.take(i));
        lemma_fold_error_persists(events, i + 1);
    } else {
        assert(events.take(i) =~= events);
    }
}

/// The fold keeps the accumulator well formed, and the extrema are set
/// exactly when a channel-0 NoteOn occurs in the stream.
pub proof fn lemma_fold_state_wf(events: Seq<NoteEvent>)
    ensures
        fold_state(events).wf(),
        fold_state(events).lowest_pitch is Some <==> exists|i: int|
            0 <= i < events.len() && is_ch0_note_on(events[i]),
    decreases events.len(),
{
    if events.len() == 0 {
    } else {
        lemma_fold_state_wf(events.drop_last());
        lemma_step_preserves_wf(fold_state(events.drop_last()), events.last());
        if fold_state(events).lowest_pitch is Some {
            if is_ch0_note_on(events.last()) {
                assert(is_ch0_note_on(events[events.len() - 1]));
            } else {
                let i = choose|i: int|
                    0 <= i < events.drop_last().len() && is_ch0_note_on(events.drop_last()[i]);
                assert(is_ch0_note_on(events[i]));
            }
        }
        if exists|i: int| 0 <= i < events.len() && is_ch0_note_on(events[i]) {
            let i = choose|i: int| 0 <= i < events.len() && is_ch0_note_on(events[i]);
            if i < events.len() - 1 {
                assert(is_ch0_note_on(events.drop_last()[i]));
            }
        }
    }
}

/// Reduces a whole event stream from a fresh accumulator. On success it
/// returns the final accumulator and every emitted record in order; the
/// first delta-time outside the quantizer's vocabulary aborts the run with
/// its error. The final pending note, if any, is not flushed.
pub fn reduce_all(events: &Vec<NoteEvent>) -> (r: Result<
    (ReducerState, Vec<EmittedNote>),
    QuantizeError,
>)
    ensures
        match r {
            Ok((st, notes)) => {
                &&& st == fold_state(events@)
                &&& fold_result(events@) == Ok::<Seq<EmittedNote>, QuantizeError>(notes@)
                &&& st.wf()
            },
            Err(e) => fold_result(events@) == Err::<Seq<EmittedNote>, QuantizeError>(e),
        },
{
    let mut state = ReducerState::new();
    let mut notes: Vec<EmittedNote> = Vec::new();
    let n = events.len();
    let mut i: usize = 0;
    proof {
        assert(events@.take(0int) =~= Seq::<NoteEvent>::empty());
    }
    while i < n
        invariant
            i <= n,
            n == events@.len(),
            state == fold_state(events@.take(i as int)),
            fold_result(events@.take(i as int)) == Ok::<Seq<EmittedNote>, QuantizeError>(notes@),
        decreases n - i,
    {
        proof {
            assert(events@.take(i + 1).drop_last() =~= events@.take(i as int));
            assert(events@.take(i + 1).last() == events@[i as int]);
        }
        match reduce(&mut state, &events[i]) {
            Ok(Some(note)) => {
                notes.push(note);
            },
            Ok(None) => {},
            Err(e) => {
                proof {
                    lemma_fold_error_persists(events@, i + 1);
                }
                return Err(e);
            },
        }
        i = i + 1;
    }
    proof {
        assert(events@.take(n as int) =~= events@);
        lemma_fold_state_wf(events@);
    }
    Ok((state, notes))
}

/// Monophonic collapse: when two channel-0 NoteOns arrive with no
/// intervening NoteOff, the first onset emits nothing, the second onset
/// emits exactly one record — for the first pitch — and the second note only
/// becomes pending: nothing is emitted for it unless a further NoteOn
/// arrives to close it.
pub proof fn lemma_monophonic_collapse(
    s: ReducerState,
    pa: u8,
    va: u8,
    d1: u32,
    pb: u8,
    vb: u8,
    d2: u32,
)
    requires
        s.pending is None,
        quantize_spec(s.last_off_delta) is Some,
    ensures
        ({
            let a = NoteEvent::NoteOn { ch: 0, note: pa, velocity: va, delta: d1 };
            let b = NoteEvent::NoteOn { ch: 0, note: pb, velocity: vb, delta: d2 };
            let s1 = step_state(s, a);
            let q = quantize_spec(s.last_off_delta)->0;
            &&& step_result(s, a) == Ok::<Option<EmittedNote>, QuantizeError>(None)
            &&& step_result(s1, b) == Ok::<Option<EmittedNote>, QuantizeError>(
                Some(EmittedNote { pitch_offset: pitch_offset_of(pa), start: q, end: q }),
            )
            &&& step_state(s1, b).pending == Some(
                PendingNote { pitch: pb, start_delta: s.last_off_delta },
            )
        }),
{
}

/// End-of-stream drop: a stream that ends in a channel-0 NoteOn emits
/// nothing for that final note. The appended onset leaves the new note
/// pending, emits at most one record, and that record — when there is one —
/// is for the note that was pending before, never for the appended one.
pub proof fn lemma_end_of_stream_drop(events: Seq<NoteEvent>, p: u8, v: u8, d: u32)
    ensures
        ({
            let e = NoteEvent::NoteOn { ch: 0, note: p, velocity: v, delta: d };
            let s = fold_state(events);
            let extended = events.push(e);
            &&& fold_state(extended).pending == Some(
                PendingNote { pitch: p, start_delta: s.last_off_delta },
            )
            &&& (fold_result(events) matches Ok(ns) ==> {
                &&& (s.pending is None ==> fold_result(extended) == Ok::<
                    Seq<EmittedNote>,
                    QuantizeError,
                >(ns))
                &&& (fold_result(extended) matches Ok(ns2) ==> {
                    &&& ns2.len() <= ns.len() + 1
                    &&& (s.pending matches Some(pn) ==> (ns2.len() == ns.len() + 1
                        ==> ns2.last().pitch_offset == pitch_offset_of(pn.pitch)))
                })
            })
        }),
{
    let e = NoteEvent::NoteOn { ch: 0, note: p, velocity: v, delta: d };
    let extended = events.push(e);
    assert(extended.drop_last() =~= events);
    assert(extended.last() == e);
}

/// Reports the observed pitch range: the lowest and highest channel-0 pitch
/// and their difference, or `None` while no channel-0 NoteOn has been seen.
pub fn pitch_range(state: &ReducerState) -> (r: Option<(u8, u8, u8)>)
    requires
        state.wf(),
    ensures
        match (state.lowest_pitch, state.highest_pitch) {
            (Some(l), Some(h)) => r == Some((l, h, (h - l) as u8)),
            _ => r is None,
        },
{
    match (state.lowest_pitch, state.highest_pitch) {
        (Some(l), Some(h)) => Some((l, h, h - l)),
        _ => None,
    }
}

} // verus!
