//! The decoder as a mathematical state machine.
//!
//! A state is the barcode assembled so far together with the policy in force;
//! a step folds one event into it and says what the event did. The
//! executable decoder is specified against these functions, and the laws of
//! the decoder are proved about them.
//!
//! Two policies are fixed here. A character that arrives while the buffer
//! holds 64 is rejected and reported; the buffer keeps what it has, and the
//! terminator completes the scan with those 64 characters. A key outside the
//! table is reported and, by default, dropped while the scan goes on; a
//! decoder made with [`UnmappedPolicy::InvalidateScan`] discards the whole
//! scan at the next terminator instead.

use vstd::prelude::*;
use crate::event::{is_key_down, RawKeyEvent};
use crate::fault::Fault;
use crate::keys::{is_barcode_char, mapped_char, terminator_code};

verus! {

/// The largest number of characters the buffer holds.
pub const MAX_BARCODE_LENGTH: usize = 64;

/// What the press of a key outside the table does to the scan in progress.
#[derive(Clone, Copy, Debug, PartialEq, Eq)]
pub enum UnmappedPolicy {
    /// The key is reported and dropped; the scan goes on and completes
    /// without the character. This is the default.
    DropAndContinue,
    /// The key is reported and the scan in progress is marked invalid: the
    /// next terminator discards the scan and emits nothing.
    InvalidateScan,
}

impl Default for UnmappedPolicy {
    /// The default policy drops an unmapped key and lets the scan go on.
    fn default() -> (policy: UnmappedPolicy)
        ensures
            policy == UnmappedPolicy::DropAndContinue,
    {
        UnmappedPolicy::DropAndContinue
    }
}

/// The abstract state of a decoder.
pub struct DecoderState {
    /// The characters of the scan in progress, oldest first.
    pub buffer: Seq<char>,
    /// The policy the decoder was made with; no step changes it.
    pub policy: UnmappedPolicy,
    /// Whether the scan in progress has been marked invalid.
    pub invalid: bool,
}

/// What one event did, with a completed barcode as a sequence of characters.
pub enum Outcome {
    /// The event was not a key press: nothing changed.
    Ignored,
    /// The character was appended to the buffer.
    Appended(char),
    /// The key is not in the table: the buffer is unchanged.
    Unmapped(u16),
    /// The buffer is full: the character was rejected, the buffer is unchanged.
    Overflow(char),
    /// The terminator completed a barcode; the buffer is empty again.
    Completed(Seq<char>),
    /// The terminator closed a scan that had been marked invalid; nothing
    /// is emitted and the buffer is empty again.
    Discarded,
}

impl DecoderState {
    /// The state of a decoder that has seen no event.
    pub open spec fn initial(policy: UnmappedPolicy) -> DecoderState {
        DecoderState { buffer: Seq::empty(), policy, invalid: false }
    }

    /// The invariant of the decoder: the buffer is within its bound, holds
    /// only characters of the key table, and a scan is marked invalid
    /// only under the policy that asks for it.
    pub open spec fn wf(self) -> bool {
        &&& self.buffer.len() <= MAX_BARCODE_LENGTH
        &&& forall|i: int| 0 <= i < self.buffer.len() ==> is_barcode_char(#[trigger] self.buffer[i])
        &&& self.invalid ==> self.policy == UnmappedPolicy::InvalidateScan
    }
}

/// Whether the event is the press of a key of the table.
pub open spec fn is_digit_down(event: RawKeyEvent) -> bool {
    is_key_down(event) && mapped_char(event.code) is Some
}

/// Whether the event is the press of the terminator.
pub open spec fn is_terminator_down(event: RawKeyEvent) -> bool {
    is_key_down(event) && event.code == terminator_code()
}

/// The state after one event.
pub open spec fn next_state(state: DecoderState, event: RawKeyEvent) -> DecoderState {
    if !is_key_down(event) {
        state
    } else if event.code == terminator_code() {
        DecoderState { buffer: Seq::empty(), invalid: false, ..state }
    } else {
        match mapped_char(event.code) {
            Some(c) => if state.buffer.len() < MAX_BARCODE_LENGTH {
                DecoderState { buffer: state.buffer.push(c), ..state }
            } else {
                state
            },
            None => DecoderState {
                invalid: state.invalid || state.policy == UnmappedPolicy::InvalidateScan,
                ..state
            },
        }
    }
}

/// What one event does in a given state.
pub open spec fn outcome(state: DecoderState, event: RawKeyEvent) -> Outcome {
    if !is_key_down(event) {
        Outcome::Ignored
    } else if event.code == terminator_code() {
        if state.invalid {
            Outcome::Discarded
        } else {
            Outcome::Completed(state.buffer)
        }
    } else {
        match mapped_char(event.code) {
            Some(c) => if state.buffer.len() < MAX_BARCODE_LENGTH {
                Outcome::Appended(c)
            } else {
                Outcome::Overflow(c)
            },
            None => Outcome::Unmapped(event.code),
        }
    }
}

/// The failure that an outcome reports, if it reports one. Each of them is
/// absorbed: the decoder goes on with the next event.
pub open spec fn fault_of(outcome: Outcome) -> Option<Fault> {
    match outcome {
        Outcome::Unmapped(code) => Some(Fault::UnmappedKeycode(code)),
        Outcome::Overflow(c) => Some(Fault::BufferOverflow(c)),
        Outcome::Discarded => Some(Fault::ScanInvalidated),
        _ => None,
    }
}

/// The state after a sequence of events, taken in arrival order.
pub open spec fn state_after(state: DecoderState, events: Seq<RawKeyEvent>) -> DecoderState
    decreases events.len(),
{
    if events.len() == 0 {
        state
    } else {
        next_state(state_after(state, events.drop_last()), events.last())
    }
}

/// The outcomes of a sequence of events, one for each event, in arrival order.
pub open spec fn outcomes(state: DecoderState, events: Seq<RawKeyEvent>) -> Seq<Outcome>
    decreases events.len(),
{
    if events.len() == 0 {
        Seq::empty()
    } else {
        outcomes(state, events.drop_last()).push(
            outcome(state_after(state, events.drop_last()), events.last()),
        )
    }
}

/// The completed barcodes among a sequence of outcomes, in order of emission.
pub open spec fn barcodes(outs: Seq<Outcome>) -> Seq<Seq<char>>
    decreases outs.len(),
{
    if outs.len() == 0 {
        Seq::empty()
    } else {
        match outs.last() {
            Outcome::Completed(barcode) => barcodes(outs.drop_last()).push(barcode),
            _ => barcodes(outs.drop_last()),
        }
    }
}

/// The characters that a sequence of events types, for events that are all
/// presses of keys of the table.
pub open spec fn typed_chars(events: Seq<RawKeyEvent>) -> Seq<char> {
    events.map_values(|event: RawKeyEvent| mapped_char(event.code).unwrap())
}

} // verus!
