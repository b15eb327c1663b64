//! The emitter: renders each completed note record as one line of output
//! text, `NN(<pitch offset>, <start>, <end>),` with a trailing line break,
//! in exactly the order the records were reduced.

use vstd::prelude::*;

use crate::duration::{quantize, quantize_spec, DurationSymbol};
use crate::reducer::EmittedNote;

verus! {

/// The character for one decimal digit.
pub open spec fn digit_char(d: nat) -> char {
    if d == 0 {
        '0'
    } else if d == 1 {
        '1'
    } else if d == 2 {
        '2'
    } else if d == 3 {
        '3'
    } else if d == 4 {
        '4'
    } else if d == 5 {
        '5'
    } else if d == 6 {
        '6'
    } else if d == 7 {
        '7'
    } else if d == 8 {
        '8'
    } else {
        '9'
    }
}

/// The decimal representation of a number: its digits in order, with no
/// leading zero except for the number zero itself.
pub open spec fn dec_rep(n: nat) -> Seq<char>
    decreases n,
{
    if n < 10 {
        seq![digit_char(n)]
    } else {
        dec_rep(n / 10).push(digit_char(n % 10))
    }
}

/// The text of a duration symbol in the output format: the literal `0` for
/// the zero duration, else the symbol's name.
pub open spec fn symbol_text(s: DurationSymbol) -> Seq<char> {
    match s {
        DurationSymbol::Zero => "0"@,
        DurationSymbol::Eighth => "N_EIGHTH"@,
        DurationSymbol::Quarter => "N_QUARTER"@,
        DurationSymbol::Half => "N_HALF"@,
    }
}

/// The full text of one note record: its line in the output artifact,
/// terminated by a line break.
pub open spec fn note_record_text(n: EmittedNote) -> Seq<char> {
    "NN("@ + dec_rep(n.pitch_offset as nat) + ", "@ + symbol_text(n.start) + ", "@ + symbol_text(
        n.end,
    ) + "),\n"@
}

/// The full output text for a sequence of records: their lines in order.
pub open spec fn output_text(notes: Seq<EmittedNote>) -> Seq<char>
    decreases notes.len(),
{
    if notes.len() == 0 {
        Seq::empty()
    } else {
        output_text(notes.drop_last()) + note_record_text(notes.last())
    }
}

/// The one-character string for a decimal digit.
fn digit_str(d: u8) -> (r: &'static str)
    requires
        d < 10,
    ensures
        r@ == seq![digit_char(d as nat)],
{
    proof {
        reveal_strlit("0");
        reveal_strlit("1");
        reveal_strlit("2");
        reveal_strlit("3");
        reveal_strlit("4");
        reveal_strlit("5");
        reveal_strlit("6");
        reveal_strlit("7");
        reveal_strlit("8");
        reveal_strlit("9");
    }
    match d {
        0 => "0",
        1 => "1",
        2 => "2",
        3 => "3",
        4 => "4",
        5 => "5",
        6 => "6",
        7 => "7",
        8 => "8",
        _ => "9",
    }
}

/// Appends the decimal representation of a number to the output being built.
fn push_decimal(out: &mut String, n: u8)
    ensures
        final(out)@ == old(out)@ + dec_rep(n as nat),
    decreases n,
{
    if n >= 10 {
        push_decimal(out, n / 10);
    }
    out.append(digit_str(n % 10));
    proof {
        assert(final(out)@ =~= old(out)@ + dec_rep(n as nat));
    }
}

impl DurationSymbol {
    /// The symbol's text in the output format.
    pub fn symbol_str(&self) -> (r: &'static str)
        ensures
            r@ == symbol_text(*self),
    {
        match self {
            DurationSymbol::Zero => "0",
            DurationSymbol::Eighth => "N_EIGHTH",
            DurationSymbol::Quarter => "N_QUARTER",
            DurationSymbol::Half => "N_HALF",
        }
    }
}

/// Maps a recognized delta-time to the text of its duration symbol, as it
/// appears inside an emitted record. Delta-times outside the closed
/// vocabulary are excluded here; a reduction run aborts on them.
pub fn delta_to_note(delta_time: u32) -> (r: String)
    requires
        quantize_spec(delta_time) is Some,
    ensures
        r@ == symbol_text(quantize_spec(delta_time)->0),
{
    match quantize(delta_time) {
        Ok(s) => s.symbol_str().to_owned(),
        Err(_) => vstd::pervasive::unreached(),
    }
}

/// Appends one note record's line to the output being built.
pub fn push_note_record(out: &mut String, n: &EmittedNote)
    ensures
        final(out)@ == old(out)@ + note_record_text(*n),
{
    out.append("NN(");
    push_decimal(out, n.pitch_offset);
    out.append(", ");
    out.append(n.start.symbol_str());
    out.append(", ");
    out.append(n.end.symbol_str());
    out.append("),\n");
    proof {
        assert(final(out)@ =~= old(out)@ + note_record_text(*n));
    }
}

/// Renders one note record as its output line.
pub fn render_note(n: &EmittedNote) -> (r: String)
    ensures
        r@ == note_record_text(*n),
{
    let mut out = String::new();
    push_note_record(&mut out, n);
    proof {
        assert(out@ =~= note_record_text(*n));
    }
    out
}

/// Renders a sequence of note records as the full output text, one line per
/// record, in order.
pub fn render_output(notes: &Vec<EmittedNote>) -> (r: String)
    ensures
        r@ == output_text(notes@),
{
    let mut out = String::new();
    let n = notes.len();
    let mut i: usize = 0;
    proof {
        assert(out@ =~= output_text(notes@.take(0int)));
    }
    while i < n
        invariant
            i <= n,
            n == notes@.len(),
            out@ == output_text(notes@.take(i as int)),
        decreases n - i,
    {
        proof {
            assert(notes@.take(i + 1).drop_last() =~= notes@.take(i as int));
            assert(notes@.take(i + 1).last() == notes@[i as int]);
        }
        push_note_record(&mut out, &notes[i]);
        i = i + 1;
    }
    proof {
        assert(notes@.take(n as int) =~= notes@);
    }
    out
}

} // verus!
