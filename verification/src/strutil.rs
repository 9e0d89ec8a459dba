//! A small string-building step that vstd does not specify itself.

use vstd::prelude::*;

verus! {

/// Relies on String::push: it appends the given character at the end of the
/// string and changes nothing else.
#[verifier::external_body]
pub(crate) fn push_char(s: &mut String, c: char)
    ensures
        final(s)@ == old(s)@.push(c),
{
    s.push(c)
}

} // verus!
