use mid_to_se::duration::DurationSymbol;
use mid_to_se::emitter::{render_note, render_output};
use mid_to_se::reducer::{reduce_all, EmittedNote, NoteEvent};

fn on(note: u8, delta: u32) -> NoteEvent {
    NoteEvent::NoteOn { ch: 0, note, velocity: 64, delta }
}

fn off(note: u8, delta: u32) -> NoteEvent {
    NoteEvent::NoteOff { ch: 0, note, velocity: 0, delta }
}

#[test]
fn render_single_digit_offset() {
    let n = EmittedNote {
        pitch_offset: 7,
        start: DurationSymbol::Zero,
        end: DurationSymbol::Half,
    };
    assert_eq!(render_note(&n), "NN(7, 0, N_HALF),\n");
}

#[test]
fn render_two_digit_offset() {
    let n = EmittedNote {
        pitch_offset: 36,
        start: DurationSymbol::Eighth,
        end: DurationSymbol::Quarter,
    };
    assert_eq!(render_note(&n), "NN(36, N_EIGHTH, N_QUARTER),\n");
}

#[test]
fn render_three_digit_offset() {
    let n = EmittedNote {
        pitch_offset: 103,
        start: DurationSymbol::Quarter,
        end: DurationSymbol::Quarter,
    };
    assert_eq!(render_note(&n), "NN(103, N_QUARTER, N_QUARTER),\n");
}

#[test]
fn render_zero_offset() {
    let n = EmittedNote {
        pitch_offset: 0,
        start: DurationSymbol::Zero,
        end: DurationSymbol::Zero,
    };
    assert_eq!(render_note(&n), "NN(0, 0, 0),\n");
}

#[test]
fn render_round_decimal() {
    // Interior zero digits are kept.
    let n = EmittedNote {
        pitch_offset: 100,
        start: DurationSymbol::Zero,
        end: DurationSymbol::Eighth,
    };
    assert_eq!(render_note(&n), "NN(100, 0, N_EIGHTH),\n");
}

#[test]
fn concrete_scenario_output_lines() {
    let events = vec![on(60, 0), off(60, 12), on(64, 0), off(64, 24), on(67, 0)];
    let (_, notes) = reduce_all(&events).unwrap();
    let text = render_output(&notes);
    assert_eq!(text, "NN(36, 0, N_EIGHTH),\nNN(40, N_EIGHTH, N_QUARTER),\n");
}

#[test]
fn two_runs_yield_identical_bytes() {
    // Reducing the same fixed event sequence twice from a fresh state
    // yields byte-identical emitted output.
    let events = vec![
        on(60, 0),
        off(60, 12),
        on(64, 0),
        off(64, 24),
        on(62, 0),
        off(62, 48),
        on(67, 0),
    ];
    let (_, first_notes) = reduce_all(&events).unwrap();
    let first = render_output(&first_notes);
    let (_, second_notes) = reduce_all(&events).unwrap();
    let second = render_output(&second_notes);
    assert_eq!(first.as_bytes(), second.as_bytes());
}

#[test]
fn empty_reduction_renders_nothing() {
    let events: Vec<NoteEvent> = Vec::new();
    let (_, notes) = reduce_all(&events).unwrap();
    assert_eq!(render_output(&notes), "");
}
