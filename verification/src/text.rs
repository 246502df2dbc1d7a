//! Trusted boundary to `std`'s string building, used to assemble request
//! paths and decimal parameter values.
use vstd::prelude::*;

verus! {

/// Relies on `String::push_str`: appends the string slice to the string.
#[verifier::external_body]
pub(crate) fn push_str(s: &mut String, t: &str)
    ensures
        final(s)@ == old(s)@ + t@,
{
    s.push_str(t);
}

/// Relies on `String::push`: appends the character to the string.
#[verifier::external_body]
pub(crate) fn push_char(s: &mut String, c: char)
    ensures
        final(s)@ == old(s)@.push(c),
{
    s.push(c);
}

} // verus!
