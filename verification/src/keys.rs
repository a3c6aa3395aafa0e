//! Key identifiers of the scanner's keyboard emulation.
//!
//! The numbers are the ones the Linux input subsystem assigns; the executable
//! code reads them from the `evdev` crate, and the specifications below write
//! them out so that contracts can speak of them.

use vstd::prelude::*;

verus! {

/// Event type that the input subsystem gives to key transitions.
pub open spec fn key_event_type() -> u16 {
    1
}

/// Code of the key that ends a scan (Enter).
pub open spec fn terminator_code() -> u16 {
    28
}

/// The characters of the top digit row, in the order of their key codes:
/// the key with code 2 types `1`, and the row ends with `0` at code 11.
pub open spec fn digit_row() -> Seq<char> {
    seq!['1', '2', '3', '4', '5', '6', '7', '8', '9', '0']
}

/// The key table: the character a key code stands for, if any.
/// Only the ten digit keys are mapped.
pub open spec fn mapped_char(code: u16) -> Option<char> {
    if 2 <= code <= 11 {
        Some(digit_row()[code - 2])
    } else {
        None
    }
}

/// The characters a barcode can hold.
pub open spec fn is_barcode_char(c: char) -> bool {
    '0' <= c <= '9'
}

/// `evdev::EventType::KEY`, as the number it wraps. Trusted: the crate
/// defines the constant as `0x01`.
#[verifier::external_body]
pub(crate) fn ev_key() -> (kind: u16)
    ensures
        kind == key_event_type(),
{
    evdev::EventType::KEY.0
}

/// `evdev::KeyCode::KEY_ENTER`, as the number it wraps. Trusted: the crate
/// defines the constant as 28.
#[verifier::external_body]
pub(crate) fn key_enter() -> (code: u16)
    ensures
        code == terminator_code(),
{
    evdev::KeyCode::KEY_ENTER.0
}

/// `evdev::KeyCode::KEY_0`, as the number it wraps. Trusted: the crate
/// defines the constant as 11.
#[verifier::external_body]
fn key_0() -> (code: u16)
    ensures
        code == 11,
{
    evdev::KeyCode::KEY_0.0
}

/// `evdev::KeyCode::KEY_1`, as the number it wraps. Trusted: the crate
/// defines the constant as 2.
#[verifier::external_body]
fn key_1() -> (code: u16)
    ensures
        code == 2,
{
    evdev::KeyCode::KEY_1.0
}

/// `evdev::KeyCode::KEY_2`, as the number it wraps. Trusted: the crate
/// defines the constant as 3.
#[verifier::external_body]
fn key_2() -> (code: u16)
    ensures
        code == 3,
{
    evdev::KeyCode::KEY_2.0
}

/// `evdev::KeyCode::KEY_3`, as the number it wraps. Trusted: the crate
/// defines the constant as 4.
#[verifier::external_body]
fn key_3() -> (code: u16)
    ensures
        code == 4,
{
    evdev::KeyCode::KEY_3.0
}

/// `evdev::KeyCode::KEY_4`, as the number it wraps. Trusted: the crate
/// defines the constant as 5.
#[verifier::external_body]
fn key_4() -> (code: u16)
    ensures
        code == 5,
{
    evdev::KeyCode::KEY_4.0
}

/// `evdev::KeyCode::KEY_5`, as the number it wraps. Trusted: the crate
/// defines the constant as 6.
#[verifier::external_body]
fn key_5() -> (code: u16)
    ensures
        code == 6,
{
    evdev::KeyCode::KEY_5.0
}

/// `evdev::KeyCode::KEY_6`, as the number it wraps. Trusted: the crate
/// defines the constant as 7.
#[verifier::external_body]
fn key_6() -> (code: u16)
    ensures
        code == 7,
{
    evdev::KeyCode::KEY_6.0
}

/// `evdev::KeyCode::KEY_7`, as the number it wraps. Trusted: the crate
/// defines the constant as 8.
#[verifier::external_body]
fn key_7() -> (code: u16)
    ensures
        code == 8,
{
    evdev::KeyCode::KEY_7.0
}

/// `evdev::KeyCode::KEY_8`, as the number it wraps. Trusted: the crate
/// defines the constant as 9.
#[verifier::external_body]
fn key_8() -> (code: u16)
    ensures
        code == 9,
{
    evdev::KeyCode::KEY_8.0
}

/// `evdev::KeyCode::KEY_9`, as the number it wraps. Trusted: the crate
/// defines the constant as 10.
#[verifier::external_body]
fn key_9() -> (code: u16)
    ensures
        code == 10,
{
    evdev::KeyCode::KEY_9.0
}

/// Looks a key code up in the key table.
pub fn keycode_to_char(code: u16) -> (found: Option<char>)
    ensures
        found == mapped_char(code),
{
    if code == key_0() {
        Some('0')
    } else if code == key_1() {
        Some('1')
    } else if code == key_2() {
        Some('2')
    } else if code == key_3() {
        Some('3')
    } else if code == key_4() {
        Some('4')
    } else if code == key_5() {
        Some('5')
    } else if code == key_6() {
        Some('6')
    } else if code == key_7() {
        Some('7')
    } else if code == key_8() {
        Some('8')
    } else if code == key_9() {
        Some('9')
    } else {
        None
    }
}

/// Whether a key code is the terminator.
pub fn is_terminator(code: u16) -> (yes: bool)
    ensures
        yes == (code == terminator_code()),
{
    code == key_enter()
}

/// Every character the table yields is a decimal digit, and the terminator
/// is not in the table: a character of the buffer is never the terminator.
pub proof fn lemma_table_yields_digits(code: u16)
    ensures
        mapped_char(code) matches Some(c) ==> is_barcode_char(c),
        code == terminator_code() ==> mapped_char(code) is None,
{
}

/// Every decimal digit is in the table: the characters a barcode can hold
/// are exactly the ones the keys of the table type.
pub proof fn lemma_every_digit_has_a_key(c: char)
    requires
        is_barcode_char(c),
    ensures
        exists|code: u16| mapped_char(code) == Some(c),
{
    let code: u16 = if c == '0' {
        11
    } else {
        (c as u16 - '0' as u16 + 1) as u16
    };
    assert(mapped_char(code) == Some(c));
}

} // verus!
