//! The input source: raw terminal reads are normalized into [`Event`]s.
//!
//! Key-repeat and key-release transitions are filtered out — only press
//! transitions are forwarded — and a failed read surfaces as [`Event::Error`]
//! instead of ending the loop. On start the source emits [`Event::Init`]
//! before any read, so the UI draws once before user interaction.

use vstd::prelude::*;

use crate::events::{Event, KeyEvent, KeyEventKind, MouseEvent};

verus! {

/// The outcome of one read from the raw terminal stream, as plain values.
#[derive(Clone, Debug, PartialEq)]
pub enum TerminalInput {
    Key(KeyEvent),
    Mouse(MouseEvent),
    Resize(u16, u16),
    FocusGained,
    FocusLost,
    Paste(String),
    /// An event kind the runtime does not use (skipped).
    Unsupported,
    /// The read itself failed (recoverable; surfaced as [`Event::Error`]).
    Failure,
}

/// What one raw read contributes to the event stream: `None` for filtered
/// reads (key repeats, key releases, unsupported kinds), otherwise the
/// normalized event.
pub open spec fn normalized(raw: TerminalInput) -> Option<Event> {
    match raw {
        TerminalInput::Key(k) => if k.kind is Press {
            Some(Event::Key(k))
        } else {
            None
        },
        TerminalInput::Mouse(m) => Some(Event::Mouse(m)),
        TerminalInput::Resize(cols, rows) => Some(Event::Resize(cols, rows)),
        TerminalInput::FocusGained => Some(Event::FocusGained),
        TerminalInput::FocusLost => Some(Event::FocusLost),
        TerminalInput::Paste(text) => Some(Event::Paste(text)),
        TerminalInput::Unsupported => None,
        TerminalInput::Failure => Some(Event::Error),
    }
}

/// Normalizes one raw read; the read loop forwards `Some` results and reads
/// on past `None`.
pub fn normalize(raw: &TerminalInput) -> (e: Option<Event>)
    ensures
        e == normalized(*raw),
{
    match raw {
        TerminalInput::Key(k) => match k.kind {
            KeyEventKind::Press => Some(Event::Key(*k)),
            KeyEventKind::Repeat => None,
            KeyEventKind::Release => None,
        },
        TerminalInput::Mouse(m) => Some(Event::Mouse(*m)),
        TerminalInput::Resize(cols, rows) => Some(Event::Resize(*cols, *rows)),
        TerminalInput::FocusGained => Some(Event::FocusGained),
        TerminalInput::FocusLost => Some(Event::FocusLost),
        TerminalInput::Paste(text) => Some(Event::Paste(text.clone())),
        TerminalInput::Unsupported => None,
        TerminalInput::Failure => Some(Event::Error),
    }
}

/// The events that a sequence of raw reads is normalized into, in order.
pub open spec fn normalized_stream(reads: Seq<TerminalInput>) -> Seq<Event>
    decreases reads.len(),
{
    if reads.len() == 0 {
        Seq::empty()
    } else {
        let rest = normalized_stream(reads.drop_last());
        match normalized(reads.last()) {
            Some(e) => rest.push(e),
            None => rest,
        }
    }
}

/// Everything the input source emits for a given sequence of raw reads:
/// [`Event::Init`] first, then the normalized stream.
pub open spec fn input_source_output(reads: Seq<TerminalInput>) -> Seq<Event> {
    seq![Event::Init] + normalized_stream(reads)
}

/// Runs the input source over a recorded sequence of raw reads, emitting
/// exactly what the live read loop would push onto the event channel.
pub fn input_source_run(reads: &Vec<TerminalInput>) -> (events: Vec<Event>)
    ensures
        events@ == input_source_output(reads@),
{
    let mut events: Vec<Event> = Vec::new();
    events.push(Event::Init);
    let mut i: usize = 0;
    while i < reads.len()
        invariant
            i <= reads.len(),
            events@ == input_source_output(reads@.subrange(0, i as int)),
        decreases reads.len() - i,
    {
        proof {
            assert(reads@.subrange(0, i + 1).drop_last() =~= reads@.subrange(0, i as int));
            assert(reads@.subrange(0, i + 1).last() == reads@[i as int]);
        }
        match normalize(&reads[i]) {
            Some(e) => events.push(e),
            None => (),
        }
        i += 1;
    }
    proof {
        assert(reads@.subrange(0, reads@.len() as int) =~= reads@);
    }
    events
}

/// Normalization never invents events: the stream is at most one event per
/// read.
pub proof fn lemma_normalized_stream_len(reads: Seq<TerminalInput>)
    ensures
        normalized_stream(reads).len() <= reads.len(),
    decreases reads.len(),
{
    if reads.len() > 0 {
        lemma_normalized_stream_len(reads.drop_last());
    }
}

/// Every key event in the normalized stream is a press transition.
proof fn lemma_stream_only_press_keys(reads: Seq<TerminalInput>)
    ensures
        forall|i: int|
            0 <= i < normalized_stream(reads).len()
                ==> (#[trigger] normalized_stream(reads)[i] matches Event::Key(k)
                ==> k.kind is Press),
    decreases reads.len(),
{
    if reads.len() == 0 {
    } else {
        lemma_stream_only_press_keys(reads.drop_last());
        let prev = normalized_stream(reads.drop_last());
        let cur = normalized_stream(reads);
        assert forall|i: int|
            0 <= i < cur.len() implies (#[trigger] cur[i] matches Event::Key(k)
            ==> k.kind is Press) by {
            if i < prev.len() {
                assert(cur[i] == prev[i]);
            }
        }
    }
}

/// For every sequence of raw reads, the input source never emits a
/// key-release or key-repeat as a key event: every key event in its output is
/// a press transition.
pub proof fn lemma_input_source_only_press_keys(reads: Seq<TerminalInput>)
    ensures
        forall|i: int|
            0 <= i < input_source_output(reads).len()
                ==> (#[trigger] input_source_output(reads)[i] matches Event::Key(k)
                ==> k.kind is Press),
{
    lemma_stream_only_press_keys(reads);
    let out = input_source_output(reads);
    let stream = normalized_stream(reads);
    assert forall|i: int|
        0 <= i < out.len() implies (#[trigger] out[i] matches Event::Key(k)
        ==> k.kind is Press) by {
        if i > 0 {
            assert(out[i] == stream[i - 1]);
        }
    }
}

} // verus!
