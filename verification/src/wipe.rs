//! Erasing secrets from memory, done by the `zeroize` crate.

use vstd::prelude::*;

verus! {

/// Calls `<String as zeroize::Zeroize>::zeroize`. It overwrites the string's buffer with zeros
/// and then sets its length to zero, so that the string is empty. That the bytes are gone from
/// memory is what the crate is for; it has no counterpart in the string's value.
#[verifier::external_body]
pub(crate) fn wipe_string(s: &mut String)
    ensures
        final(s)@ == Seq::<char>::empty(),
{
    zeroize::Zeroize::zeroize(s)
}

/// Calls `<Vec<String> as zeroize::Zeroize>::zeroize`. It wipes every string and the spare
/// capacity, and then clears the vector.
#[verifier::external_body]
pub(crate) fn wipe_strings(v: &mut Vec<String>)
    ensures
        final(v)@ == Seq::<String>::empty(),
{
    zeroize::Zeroize::zeroize(v)
}

/// Calls `<Option<String> as zeroize::Zeroize>::zeroize`. It wipes the string, if there is one,
/// and leaves `None`.
#[verifier::external_body]
pub(crate) fn wipe_optional_string(o: &mut Option<String>)
    ensures
        *final(o) == None::<String>,
{
    zeroize::Zeroize::zeroize(o)
}

} // verus!
