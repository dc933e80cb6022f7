//! Small trusted bridge to std's string operations that vstd leaves
//! unspecified.

use vstd::prelude::*;

verus! {

/// Relies on str's `PartialEq` implementation: two string slices are
/// equal exactly when they hold the same characters.
#[verifier::external_body]
pub fn str_eq(a: &str, b: &str) -> (r: bool)
    ensures
        r == (a@ == b@),
{
    a == b
}

/// Relies on `String::push`: appends the character to the end of the string.
pub assume_specification[ String::push ](s: &mut String, ch: char)
    ensures
        final(s)@ == old(s)@.push(ch),
;

} // verus!
