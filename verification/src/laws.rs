//! Laws of the decoder, proved about the state machine of the model.

use vstd::prelude::*;
use crate::event::{is_key_down, EventCategory, RawKeyEvent, Transition};
use crate::keys::{lemma_table_yields_digits, mapped_char, terminator_code};
use crate::model::{
    barcodes, is_digit_down, is_terminator_down, next_state, outcome, outcomes,
    state_after, typed_chars, DecoderState, Outcome, UnmappedPolicy, MAX_BARCODE_LENGTH,
};

verus! {

/// A fresh decoder satisfies the invariant.
pub proof fn lemma_initial_wf(policy: UnmappedPolicy)
    ensures
        DecoderState::initial(policy).wf(),
{
}

/// No event breaks the invariant: the buffer stays within its bound and
/// holds only characters of the key table, whatever arrives.
pub proof fn lemma_step_preserves_wf(state: DecoderState, event: RawKeyEvent)
    requires
        state.wf(),
    ensures
        next_state(state, event).wf(),
        next_state(state, event).policy == state.policy,
{
    lemma_table_yields_digits(event.code);
}

/// No sequence of events breaks the invariant.
pub proof fn lemma_run_preserves_wf(state: DecoderState, events: Seq<RawKeyEvent>)
    requires
        state.wf(),
    ensures
        state_after(state, events).wf(),
        state_after(state, events).policy == state.policy,
    decreases events.len(),
{
    if events.len() > 0 {
        lemma_run_preserves_wf(state, events.drop_last());
        lemma_step_preserves_wf(state_after(state, events.drop_last()), events.last());
    }
}

/// A sequence of events has one outcome for each event.
pub proof fn lemma_one_outcome_per_event(state: DecoderState, events: Seq<RawKeyEvent>)
    ensures
        outcomes(state, events).len() == events.len(),
    decreases events.len(),
{
    if events.len() > 0 {
        lemma_one_outcome_per_event(state, events.drop_last());
    }
}

/// A batch of one event is one step.
pub proof fn lemma_single_event(state: DecoderState, event: RawKeyEvent)
    ensures
        state_after(state, seq![event]) == next_state(state, event),
        outcomes(state, seq![event]) == seq![outcome(state, event)],
{
    let one = seq![event];
    assert(one.drop_last() == Seq::<RawKeyEvent>::empty());
    assert(one.last() == event);
    reveal_with_fuel(state_after, 2);
    reveal_with_fuel(outcomes, 2);
}

/// How the events are cut into batches makes no difference: the decoder
/// carries nothing from one batch to the next but its state.
pub proof fn lemma_batches_compose(
    state: DecoderState,
    first: Seq<RawKeyEvent>,
    second: Seq<RawKeyEvent>,
)
    ensures
        state_after(state, first + second) == state_after(state_after(state, first), second),
        outcomes(state, first + second) == outcomes(state, first) + outcomes(
            state_after(state, first),
            second,
        ),
    decreases second.len(),
{
    if second.len() == 0 {
        assert(first + second == first);
    } else {
        lemma_batches_compose(state, first, second.drop_last());
        assert((first + second).drop_last() == first + second.drop_last());
        assert((first + second).last() == second.last());
    }
}

/// Key releases and auto-repeats change nothing, whatever their code.
pub proof fn lemma_release_and_repeat_ignored(state: DecoderState, event: RawKeyEvent)
    requires
        event.transition != Transition::Down,
    ensures
        next_state(state, event) == state,
        outcome(state, event) == Outcome::Ignored,
{
}

/// Events that are not key events change nothing and emit nothing.
pub proof fn lemma_other_category_ignored(state: DecoderState, event: RawKeyEvent)
    requires
        event.category != EventCategory::Key,
    ensures
        next_state(state, event) == state,
        outcome(state, event) == Outcome::Ignored,
{
}

/// The press of a key outside the table leaves the buffer as it is and
/// emits nothing; the outcome records the code. Under the default policy the
/// whole state is unchanged.
pub proof fn lemma_unmapped_key_keeps_buffer(state: DecoderState, event: RawKeyEvent)
    requires
        is_key_down(event),
        event.code != terminator_code(),
        mapped_char(event.code) is None,
    ensures
        next_state(state, event).buffer == state.buffer,
        outcome(state, event) == Outcome::Unmapped(event.code),
        state.policy == UnmappedPolicy::DropAndContinue ==> next_state(state, event) == state,
{
}

/// Once a step has emitted a barcode the buffer is empty and the decoder is
/// as good as new: nothing of the emitted scan reaches the next event, and
/// nothing that happens to the barcode afterwards can reach the decoder.
pub proof fn lemma_emission_empties_buffer(state: DecoderState, event: RawKeyEvent)
    requires
        outcome(state, event) is Completed,
    ensures
        is_terminator_down(event),
        outcome(state, event) == Outcome::Completed(state.buffer),
        next_state(state, event) == DecoderState::initial(state.policy),
{
}

/// Only the terminator empties a buffer: after any other event the old
/// buffer is a prefix of the new one.
pub proof fn lemma_only_terminator_clears(state: DecoderState, event: RawKeyEvent)
    requires
        !is_terminator_down(event),
    ensures
        state.buffer.is_prefix_of(next_state(state, event).buffer),
{
}

/// Two terminators in a row: the second emits the empty barcode. The first
/// emits the buffer, unless the scan had been marked invalid.
pub proof fn lemma_two_terminators(state: DecoderState, first: RawKeyEvent, second: RawKeyEvent)
    requires
        is_terminator_down(first),
        is_terminator_down(second),
    ensures
        outcomes(state, seq![first, second]) == seq![
            outcome(state, first),
            Outcome::Completed(Seq::empty()),
        ],
        !state.invalid ==> barcodes(outcomes(state, seq![first, second])) == seq![
            state.buffer,
            Seq::<char>::empty(),
        ],
        state_after(state, seq![first, second]) == DecoderState::initial(state.policy),
{
    let one = seq![first];
    let other = seq![second];
    lemma_single_event(state, first);
    lemma_single_event(next_state(state, first), second);
    lemma_batches_compose(state, one, other);
    assert(one + other == seq![first, second]);
    let outs = outcomes(state, seq![first, second]);
    assert(outs == seq![outcome(state, first), Outcome::Completed(Seq::empty())]);
    if !state.invalid {
        assert(outs.drop_last() == seq![outcome(state, first)]);
        assert(outs.drop_last().drop_last() == Seq::<Outcome>::empty());
        reveal_with_fuel(barcodes, 3);
    }
}

/// Presses of digit keys that fit into the buffer append their characters in
/// arrival order and emit nothing.
pub proof fn lemma_digits_accumulate(state: DecoderState, digits: Seq<RawKeyEvent>)
    requires
        forall|i: int| 0 <= i < digits.len() ==> is_digit_down(#[trigger] digits[i]),
        state.buffer.len() + digits.len() <= MAX_BARCODE_LENGTH,
    ensures
        state_after(state, digits) == (DecoderState {
            buffer: state.buffer + typed_chars(digits),
            ..state
        }),
        barcodes(outcomes(state, digits)) == Seq::<Seq<char>>::empty(),
    decreases digits.len(),
{
    if digits.len() == 0 {
        assert(state.buffer + typed_chars(digits) == state.buffer);
    } else {
        let front = digits.drop_last();
        lemma_digits_accumulate(state, front);
        assert(is_digit_down(digits.last()));
        assert(typed_chars(digits) == typed_chars(front).push(
            mapped_char(digits.last().code).unwrap(),
        ));
        assert(state.buffer + typed_chars(digits) == (state.buffer + typed_chars(front)).push(
            mapped_char(digits.last().code).unwrap(),
        ));
        assert(outcomes(state, digits).drop_last() == outcomes(state, front));
    }
}

/// Presses of digit keys followed by one terminator emit exactly one
/// barcode: what the buffer held, followed by the characters of the digits in
/// arrival order. The digits must fit into the buffer, and the scan must not
/// have been marked invalid before.
pub proof fn lemma_digits_then_terminator(
    state: DecoderState,
    digits: Seq<RawKeyEvent>,
    terminator: RawKeyEvent,
)
    requires
        forall|i: int| 0 <= i < digits.len() ==> is_digit_down(#[trigger] digits[i]),
        is_terminator_down(terminator),
        state.buffer.len() + digits.len() <= MAX_BARCODE_LENGTH,
        !state.invalid,
    ensures
        barcodes(outcomes(state, digits.push(terminator))) == seq![
            state.buffer + typed_chars(digits),
        ],
        state_after(state, digits.push(terminator)) == DecoderState::initial(state.policy),
{
    lemma_digits_accumulate(state, digits);
    let all = digits.push(terminator);
    assert(all.drop_last() == digits);
    assert(all.last() == terminator);
    assert(outcomes(state, all).drop_last() == outcomes(state, digits));
}

/// A decoder at rest that sees up to 64 presses of digit keys and then one
/// terminator emits exactly one barcode, the digits in arrival order.
pub proof fn lemma_fresh_scan(
    policy: UnmappedPolicy,
    digits: Seq<RawKeyEvent>,
    terminator: RawKeyEvent,
)
    requires
        forall|i: int| 0 <= i < digits.len() ==> is_digit_down(#[trigger] digits[i]),
        is_terminator_down(terminator),
        digits.len() <= MAX_BARCODE_LENGTH,
    ensures
        barcodes(outcomes(DecoderState::initial(policy), digits.push(terminator))) == seq![
            typed_chars(digits),
        ],
        state_after(DecoderState::initial(policy), digits.push(terminator))
            == DecoderState::initial(policy),
{
    let state = DecoderState::initial(policy);
    lemma_digits_then_terminator(state, digits, terminator);
    assert(state.buffer + typed_chars(digits) == typed_chars(digits));
}

} // verus!
