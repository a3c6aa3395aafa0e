//! The executable decoder: one buffer, folded over the events of the scanner.

use vstd::prelude::*;
use vstd::utf8::is_ascii_chars_encode_utf8;
use crate::event::RawKeyEvent;
use crate::fault::Fault;
use crate::keys::{is_terminator, keycode_to_char};
use crate::model::{
    barcodes, fault_of, next_state, outcome, outcomes, state_after, DecoderState, Outcome,
    UnmappedPolicy, MAX_BARCODE_LENGTH,
};
use crate::text::{string_clear, string_push, string_with_capacity};

verus! {

/// What one event did. `Completed` carries the barcode to hand to dispatch.
#[derive(Debug, PartialEq, Eq)]
pub enum Step {
    /// The event was not a key press: nothing changed.
    Ignored,
    /// The character was appended to the buffer.
    Appended(char),
    /// The key is not in the table: the buffer is unchanged.
    Unmapped(u16),
    /// The buffer is full: the character was rejected, the buffer is unchanged.
    Overflow(char),
    /// The terminator completed a barcode; the buffer is empty again.
    Completed(String),
    /// The terminator closed a scan that had been marked invalid; nothing
    /// is emitted and the buffer is empty again.
    Discarded,
}

impl View for Step {
    type V = Outcome;

    open spec fn view(&self) -> Outcome {
        match self {
            Step::Ignored => Outcome::Ignored,
            Step::Appended(c) => Outcome::Appended(*c),
            Step::Unmapped(code) => Outcome::Unmapped(*code),
            Step::Overflow(c) => Outcome::Overflow(*c),
            Step::Completed(barcode) => Outcome::Completed(barcode@),
            Step::Discarded => Outcome::Discarded,
        }
    }
}

impl Step {
    /// The failure that the step reports, if it reports one. None of them
    /// is fatal.
    pub fn fault(&self) -> (found: Option<Fault>)
        ensures
            found == fault_of(self@),
            found matches Some(fault) ==> !fault.fatal(),
    {
        match self {
            Step::Unmapped(code) => Some(Fault::UnmappedKeycode(*code)),
            Step::Overflow(c) => Some(Fault::BufferOverflow(*c)),
            Step::Discarded => Some(Fault::ScanInvalidated),
            _ => None,
        }
    }
}

/// The outcomes that a sequence of steps stands for.
pub open spec fn step_views(steps: Seq<Step>) -> Seq<Outcome> {
    steps.map_values(|step: Step| step@)
}

/// The decoder. It owns the buffer of the scan in progress.
pub struct Decoder {
    buffer: String,
    policy: UnmappedPolicy,
    invalid: bool,
}

impl View for Decoder {
    type V = DecoderState;

    closed spec fn view(&self) -> DecoderState {
        DecoderState { buffer: self.buffer@, policy: self.policy, invalid: self.invalid }
    }
}

impl Decoder {
    #[verifier::type_invariant]
    spec fn well_formed(&self) -> bool {
        self@.wf()
    }

    /// A decoder with an empty buffer that drops unmapped keys and continues.
    pub fn new() -> (decoder: Decoder)
        ensures
            decoder@ == DecoderState::initial(UnmappedPolicy::DropAndContinue),
            decoder@.wf(),
    {
        Decoder::with_policy(UnmappedPolicy::DropAndContinue)
    }

    /// A decoder with an empty buffer and the given policy for unmapped keys.
    pub fn with_policy(policy: UnmappedPolicy) -> (decoder: Decoder)
        ensures
            decoder@ == DecoderState::initial(policy),
            decoder@.wf(),
    {
        Decoder { buffer: string_with_capacity(MAX_BARCODE_LENGTH), policy, invalid: false }
    }

    /// The characters of the scan in progress.
    pub fn pending(&self) -> (text: &str)
        ensures
            text@ == self@.buffer,
            self@.wf(),
    {
        proof {
            use_type_invariant(self);
        }
        self.buffer.as_str()
    }

    /// The policy the decoder was made with.
    pub fn policy(&self) -> (policy: UnmappedPolicy)
        ensures
            policy == self@.policy,
    {
        self.policy
    }

    /// Whether the scan in progress has been marked invalid.
    pub fn scan_is_invalid(&self) -> (yes: bool)
        ensures
            yes == self@.invalid,
    {
        self.invalid
    }

    /// Folds one event into the buffer and says what it did.
    pub fn step(&mut self, event: RawKeyEvent) -> (step: Step)
        ensures
            final(self)@ == next_state(old(self)@, event),
            step@ == outcome(old(self)@, event),
            old(self)@.wf(),
            final(self)@.wf(),
    {
        proof {
            use_type_invariant(&*self);
        }
        if !event.is_key_down() {
            return Step::Ignored;
        }
        if is_terminator(event.code) {
            let step = if self.invalid {
                Step::Discarded
            } else {
                Step::Completed(self.buffer.clone())
            };
            string_clear(&mut self.buffer);
            self.invalid = false;
            step
        } else {
            match keycode_to_char(event.code) {
                Some(c) => {
                    proof {
                        is_ascii_chars_encode_utf8(self.buffer@);
                    }
                    if self.buffer.as_str().len() < MAX_BARCODE_LENGTH {
                        string_push(&mut self.buffer, c);
                        Step::Appended(c)
                    } else {
                        Step::Overflow(c)
                    }
                },
                None => {
                    match self.policy {
                        UnmappedPolicy::InvalidateScan => {
                            self.invalid = true;
                        },
                        UnmappedPolicy::DropAndContinue => {},
                    }
                    Step::Unmapped(event.code)
                },
            }
        }
    }

    /// Folds a batch of events into the buffer, in arrival order, and says
    /// what each of them did. The whole batch is decoded before the caller
    /// sees the first barcode; a caller that must finish with one barcode
    /// before the next event is looked at calls `step` for each event.
    pub fn feed(&mut self, events: &[RawKeyEvent]) -> (steps: Vec<Step>)
        ensures
            final(self)@ == state_after(old(self)@, events@),
            step_views(steps@) == outcomes(old(self)@, events@),
            steps@.len() == events@.len(),
            old(self)@.wf(),
            final(self)@.wf(),
    {
        proof {
            use_type_invariant(&*self);
        }
        let mut steps: Vec<Step> = Vec::new();
        let mut i: usize = 0;
        while i < events.len()
            invariant
                i <= events.len(),
                steps@.len() == i,
                self@ == state_after(old(self)@, events@.take(i as int)),
                step_views(steps@) == outcomes(old(self)@, events@.take(i as int)),
                self@.wf(),
            decreases events.len() - i,
        {
            let ghost before = steps@;
            let step = self.step(events[i]);
            steps.push(step);
            proof {
                let prefix = events@.take(i + 1);
                assert(prefix.drop_last() == events@.take(i as int));
                assert(prefix.last() == events@[i as int]);
                assert(step_views(steps@) == step_views(before).push(step@));
            }
            i += 1;
        }
        proof {
            assert(events@.take(i as int) == events@);
        }
        steps
    }
}

impl Default for Decoder {
    /// The default decoder is the one `new` makes.
    fn default() -> (decoder: Decoder)
        ensures
            decoder@ == DecoderState::initial(UnmappedPolicy::DropAndContinue),
            decoder@.wf(),
    {
        Decoder::new()
    }
}

/// The texts of a sequence of strings.
pub open spec fn string_views(texts: Seq<String>) -> Seq<Seq<char>> {
    texts.map_values(|text: String| text@)
}

/// The barcodes that a run of steps completed, in order of emission: what is
/// owed to dispatch after a batch.
pub fn completed_barcodes(steps: &[Step]) -> (found: Vec<String>)
    ensures
        string_views(found@) == barcodes(step_views(steps@)),
{
    let mut found: Vec<String> = Vec::new();
    let mut i: usize = 0;
    while i < steps.len()
        invariant
            i <= steps.len(),
            string_views(found@) == barcodes(step_views(steps@.take(i as int))),
        decreases steps.len() - i,
    {
        let ghost before = found@;
        proof {
            let prefix = step_views(steps@.take(i + 1));
            assert(prefix.drop_last() == step_views(steps@.take(i as int)));
            assert(prefix.last() == steps@[i as int]@);
        }
        match &steps[i] {
            Step::Completed(barcode) => {
                let copy = barcode.clone();
                found.push(copy);
                assert(string_views(found@) == string_views(before).push(barcode@));
            },
            _ => {},
        }
        i += 1;
    }
    proof {
        assert(steps@.take(i as int) == steps@);
    }
    found
}

} // verus!
