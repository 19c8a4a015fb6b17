//! Text operations of the standard library that the engine needs.

use vstd::prelude::*;

verus! {

/// `String::push` of the standard library: the text afterwards is the text
/// before with `c` at its end. Taken on trust from its documentation.
#[verifier::external_body]
pub(crate) fn push_char(text: &mut String, c: char)
    ensures
        final(text)@ == old(text)@.push(c),
{
    text.push(c);
}

} // verus!
