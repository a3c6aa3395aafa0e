//! The operations of `std::string::String` that the buffer needs and for
//! which vstd carries no specification.

use vstd::prelude::*;

verus! {

/// `String::with_capacity`. Trusted: the documentation promises an empty
/// string; the capacity is a hint to the allocator and changes no content.
#[verifier::external_body]
pub(crate) fn string_with_capacity(capacity: usize) -> (text: String)
    requires
        capacity <= isize::MAX,
    ensures
        text@ == Seq::<char>::empty(),
{
    String::with_capacity(capacity)
}

/// `String::push`. Trusted: the documentation promises that the character
/// is appended to the end and nothing else changes. The call panics only
/// when the string would outgrow `isize::MAX` bytes, which the bound on the
/// length rules out.
#[verifier::external_body]
pub(crate) fn string_push(text: &mut String, c: char)
    requires
        old(text)@.len() < 0x1000_0000,
    ensures
        final(text)@ == old(text)@.push(c),
    no_unwind
{
    text.push(c)
}

/// `String::clear`. Trusted: the documentation promises that all contents
/// are removed; the call does not panic.
#[verifier::external_body]
pub(crate) fn string_clear(text: &mut String)
    ensures
        final(text)@ == Seq::<char>::empty(),
    no_unwind
{
    text.clear()
}

} // verus!
