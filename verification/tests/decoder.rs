use barcode_scanner::decoder::{completed_barcodes, Decoder, Step};
use barcode_scanner::event::{EventCategory, RawKeyEvent, Transition};
use barcode_scanner::model::{UnmappedPolicy, MAX_BARCODE_LENGTH};

const ENTER: u16 = 28;
const KEY_A: u16 = 30;

fn down(code: u16) -> RawKeyEvent {
    RawKeyEvent { category: EventCategory::Key, transition: Transition::Down, code }
}

fn up(code: u16) -> RawKeyEvent {
    RawKeyEvent { category: EventCategory::Key, transition: Transition::Up, code }
}

fn repeat(code: u16) -> RawKeyEvent {
    RawKeyEvent { category: EventCategory::Key, transition: Transition::Repeat, code }
}

fn other(transition: Transition, code: u16) -> RawKeyEvent {
    RawKeyEvent { category: EventCategory::Other, transition, code }
}

fn digit(d: u16) -> RawKeyEvent {
    down(if d == 0 { 11 } else { d + 1 })
}

fn completed(text: &str) -> Step {
    Step::Completed(text.to_string())
}

#[test]
fn new_decoder_is_idle() {
    let decoder = Decoder::new();
    assert_eq!(decoder.pending(), "");
    assert_eq!(decoder.policy(), UnmappedPolicy::DropAndContinue);
    assert!(!decoder.scan_is_invalid());
    let decoder = Decoder::default();
    assert_eq!(decoder.pending(), "");
    assert_eq!(decoder.policy(), UnmappedPolicy::DropAndContinue);
    let decoder = Decoder::with_policy(UnmappedPolicy::InvalidateScan);
    assert_eq!(decoder.pending(), "");
    assert_eq!(decoder.policy(), UnmappedPolicy::InvalidateScan);
    assert!(!decoder.scan_is_invalid());
}

#[test]
fn default_policy_drops_and_continues() {
    assert_eq!(UnmappedPolicy::default(), UnmappedPolicy::DropAndContinue);
}

#[test]
fn capacity_is_sixty_four() {
    assert_eq!(MAX_BARCODE_LENGTH, 64);
}

#[test]
fn scenario_three_digits_and_enter() {
    let mut decoder = Decoder::new();
    let steps = decoder.feed(&[digit(1), digit(2), digit(3), down(ENTER)]);
    assert_eq!(
        steps,
        vec![Step::Appended('1'), Step::Appended('2'), Step::Appended('3'), completed("123")]
    );
    assert_eq!(completed_barcodes(&steps), vec!["123".to_string()]);
    assert_eq!(decoder.pending(), "");
}

#[test]
fn scenario_key_up_is_ignored() {
    let mut decoder = Decoder::new();
    let steps = decoder.feed(&[digit(4), up(5), down(ENTER)]);
    assert_eq!(steps, vec![Step::Appended('4'), Step::Ignored, completed("4")]);
    assert_eq!(completed_barcodes(&steps), vec!["4".to_string()]);
}

#[test]
fn scenario_unmapped_key_is_dropped() {
    let mut decoder = Decoder::new();
    let steps = decoder.feed(&[digit(5), down(KEY_A), digit(6), down(ENTER)]);
    assert_eq!(
        steps,
        vec![Step::Appended('5'), Step::Unmapped(KEY_A), Step::Appended('6'), completed("56")]
    );
    assert_eq!(completed_barcodes(&steps), vec!["56".to_string()]);
}

#[test]
fn all_ten_digits_in_arrival_order() {
    let mut decoder = Decoder::new();
    let mut events: Vec<RawKeyEvent> = Vec::new();
    for d in [9u16, 0, 8, 1, 7, 2, 6, 3, 5, 4, 0, 0] {
        events.push(digit(d));
    }
    events.push(down(ENTER));
    let steps = decoder.feed(&events);
    assert_eq!(completed_barcodes(&steps), vec!["908172635400".to_string()]);
    assert_eq!(steps.len(), 13);
}

#[test]
fn digits_then_enter_emit_exactly_one_barcode_of_every_length() {
    for n in 0..=MAX_BARCODE_LENGTH {
        let mut decoder = Decoder::new();
        let mut events: Vec<RawKeyEvent> = Vec::new();
        let mut expected = String::new();
        for i in 0..n {
            let d = (i * 7 % 10) as u16;
            events.push(digit(d));
            expected.push(char::from_digit(d as u32, 10).unwrap());
        }
        events.push(down(ENTER));
        let steps = decoder.feed(&events);
        assert_eq!(completed_barcodes(&steps), vec![expected]);
        assert_eq!(decoder.pending(), "");
    }
}

#[test]
fn key_up_and_repeat_never_alter_the_buffer() {
    let mut decoder = Decoder::new();
    decoder.feed(&[digit(1), digit(2)]);
    for code in [0u16, 2, 11, ENTER, KEY_A, 500, u16::MAX] {
        assert_eq!(decoder.step(up(code)), Step::Ignored);
        assert_eq!(decoder.pending(), "12");
        assert_eq!(decoder.step(repeat(code)), Step::Ignored);
        assert_eq!(decoder.pending(), "12");
    }
    assert_eq!(decoder.step(down(ENTER)), completed("12"));
}

#[test]
fn non_key_events_never_alter_the_buffer_or_emit() {
    let mut decoder = Decoder::new();
    decoder.feed(&[digit(3)]);
    for transition in [Transition::Down, Transition::Up, Transition::Repeat] {
        for code in [0u16, 4, ENTER, KEY_A] {
            assert_eq!(decoder.step(other(transition, code)), Step::Ignored);
            assert_eq!(decoder.pending(), "3");
        }
    }
    assert_eq!(decoder.step(down(ENTER)), completed("3"));
}

#[test]
fn unmapped_key_leaves_buffer_and_is_reported() {
    let mut decoder = Decoder::new();
    decoder.feed(&[digit(7), digit(7)]);
    let step = decoder.step(down(KEY_A));
    assert_eq!(step, Step::Unmapped(KEY_A));
    assert_eq!(decoder.pending(), "77");
    assert!(!decoder.scan_is_invalid());
    let step = decoder.step(down(0));
    assert_eq!(step, Step::Unmapped(0));
    assert_eq!(decoder.pending(), "77");
}

#[test]
fn two_terminators_emit_twice_the_second_empty() {
    let mut decoder = Decoder::new();
    let steps = decoder.feed(&[digit(8), down(ENTER), down(ENTER)]);
    assert_eq!(steps, vec![Step::Appended('8'), completed("8"), completed("")]);
    assert_eq!(completed_barcodes(&steps), vec!["8".to_string(), String::new()]);
}

#[test]
fn terminator_on_idle_decoder_emits_empty_barcode() {
    let mut decoder = Decoder::new();
    assert_eq!(decoder.step(down(ENTER)), completed(""));
    assert_eq!(decoder.pending(), "");
}

#[test]
fn buffer_is_empty_after_every_emission() {
    let mut decoder = Decoder::new();
    for scan in ["1", "22", "", "4444"] {
        for c in scan.chars() {
            decoder.step(digit(c.to_digit(10).unwrap() as u16));
        }
        assert_eq!(decoder.pending(), scan);
        assert_eq!(decoder.step(down(ENTER)), completed(scan));
        assert_eq!(decoder.pending(), "");
    }
}

#[test]
fn consecutive_scans_do_not_mix() {
    let mut decoder = Decoder::new();
    let steps = decoder.feed(&[
        digit(1),
        digit(2),
        down(ENTER),
        digit(3),
        down(ENTER),
        digit(4),
    ]);
    assert_eq!(completed_barcodes(&steps), vec!["12".to_string(), "3".to_string()]);
    assert_eq!(decoder.pending(), "4");
}

#[test]
fn sixty_four_characters_fit() {
    let mut decoder = Decoder::new();
    for _ in 0..64 {
        assert_eq!(decoder.step(digit(5)), Step::Appended('5'));
    }
    assert_eq!(decoder.pending(), "5".repeat(64));
    assert_eq!(decoder.step(down(ENTER)), completed(&"5".repeat(64)));
}

#[test]
fn sixty_fifth_character_is_rejected_and_reported() {
    let mut decoder = Decoder::new();
    for _ in 0..64 {
        decoder.step(digit(5));
    }
    assert_eq!(decoder.step(digit(6)), Step::Overflow('6'));
    assert_eq!(decoder.pending(), "5".repeat(64));
    assert_eq!(decoder.step(digit(7)), Step::Overflow('7'));
    assert_eq!(decoder.pending().chars().count(), 64);
    assert_eq!(decoder.step(down(ENTER)), completed(&"5".repeat(64)));
    assert_eq!(decoder.pending(), "");
    assert_eq!(decoder.step(digit(6)), Step::Appended('6'));
}

#[test]
fn buffer_never_exceeds_its_bound() {
    let mut decoder = Decoder::new();
    for i in 0..300u16 {
        decoder.step(digit(i % 10));
        decoder.step(down(KEY_A));
        decoder.step(up(ENTER));
        assert!(decoder.pending().chars().count() <= MAX_BARCODE_LENGTH);
        assert!(decoder.pending().chars().all(|c| c.is_ascii_digit()));
    }
}

#[test]
fn invalidate_policy_discards_the_scan() {
    let mut decoder = Decoder::with_policy(UnmappedPolicy::InvalidateScan);
    let steps = decoder.feed(&[digit(5), down(KEY_A), digit(6), down(ENTER)]);
    assert_eq!(
        steps,
        vec![Step::Appended('5'), Step::Unmapped(KEY_A), Step::Appended('6'), Step::Discarded]
    );
    assert!(completed_barcodes(&steps).is_empty());
    assert_eq!(decoder.pending(), "");
    assert!(!decoder.scan_is_invalid());
}

#[test]
fn invalidate_policy_keeps_buffer_at_the_unmapped_key() {
    let mut decoder = Decoder::with_policy(UnmappedPolicy::InvalidateScan);
    decoder.feed(&[digit(5), digit(5)]);
    assert_eq!(decoder.step(down(KEY_A)), Step::Unmapped(KEY_A));
    assert_eq!(decoder.pending(), "55");
    assert!(decoder.scan_is_invalid());
}

#[test]
fn invalidate_policy_recovers_with_the_next_scan() {
    let mut decoder = Decoder::with_policy(UnmappedPolicy::InvalidateScan);
    let steps = decoder.feed(&[
        down(KEY_A),
        digit(1),
        down(ENTER),
        down(ENTER),
        digit(2),
        digit(3),
        down(ENTER),
    ]);
    assert_eq!(completed_barcodes(&steps), vec![String::new(), "23".to_string()]);
    assert_eq!(steps[2], Step::Discarded);
    assert_eq!(steps[3], completed(""));
}

#[test]
fn invalidate_policy_decodes_clean_scans_as_the_default_does() {
    let events = [digit(1), up(2), digit(2), repeat(3), digit(3), down(ENTER)];
    let mut strict = Decoder::with_policy(UnmappedPolicy::InvalidateScan);
    let mut lenient = Decoder::new();
    assert_eq!(strict.feed(&events), lenient.feed(&events));
}

#[test]
fn feeding_a_batch_equals_stepping_through_it() {
    let events = [
        digit(1),
        other(Transition::Down, 0),
        down(KEY_A),
        up(2),
        digit(2),
        down(ENTER),
        down(ENTER),
        digit(9),
    ];
    let mut batch = Decoder::new();
    let steps = batch.feed(&events);
    let mut single = Decoder::new();
    let mut expected: Vec<Step> = Vec::new();
    for event in events {
        expected.push(single.step(event));
    }
    assert_eq!(steps, expected);
    assert_eq!(batch.pending(), single.pending());
    assert_eq!(batch.pending(), "9");
}

#[test]
fn batch_boundaries_make_no_difference() {
    let events = [digit(1), digit(2), down(ENTER), digit(3), digit(4), down(ENTER)];
    let mut whole = Decoder::new();
    let all = whole.feed(&events);
    for cut in 0..=events.len() {
        let mut parts = Decoder::new();
        let mut steps = parts.feed(&events[..cut]);
        steps.extend(parts.feed(&events[cut..]));
        assert_eq!(steps, all);
    }
}

#[test]
fn empty_batch_changes_nothing() {
    let mut decoder = Decoder::new();
    decoder.step(digit(1));
    let steps = decoder.feed(&[]);
    assert!(steps.is_empty());
    assert_eq!(decoder.pending(), "1");
}

#[test]
fn completed_barcodes_keeps_only_emissions_in_order() {
    let steps = vec![
        Step::Ignored,
        completed("1"),
        Step::Appended('2'),
        Step::Unmapped(30),
        Step::Overflow('3'),
        Step::Discarded,
        completed(""),
        completed("22"),
    ];
    assert_eq!(
        completed_barcodes(&steps),
        vec!["1".to_string(), String::new(), "22".to_string()]
    );
    assert!(completed_barcodes(&[]).is_empty());
}
