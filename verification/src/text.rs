//! Small pieces of text handling shared by the URL builders.

use vstd::prelude::*;

verus! {

/// `String::push`: the character is appended at the end and nothing else
/// changes.
pub assume_specification[ String::push ](s: &mut String, c: char)
    ensures
        final(s)@ == old(s)@.push(c),
;

/// Appends to `out` the character whose code is `b`.
pub fn push_byte(out: &mut String, b: u8)
    ensures
        final(out)@ == old(out)@.push(b as char),
{
    out.push(b as char);
}

} // verus!
