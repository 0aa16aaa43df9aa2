//! Texts in the user's language, looked up by the `gettext-rs` crate.

use vstd::prelude::*;

verus! {

/// In some locale, with some message catalogs installed, `text` is what is shown for the message
/// `msgid`. This is a relation: one message has as many texts as there are catalogs.
pub uninterp spec fn is_translation(msgid: Seq<char>, text: Seq<char>) -> bool;

/// Calls `gettextrs::gettext`, and claims only that its result is a translation of the message
/// that it was given. Which one depends on the locale and on the catalogs on disk, so nothing
/// else is said of the text, and two calls may differ. `gettext` panics on a message with a NUL
/// character, which `requires` leaves out, and on a catalog that is not read as UTF-8: the
/// program that chooses the text domain binds it to that encoding.
#[verifier::external_body]
pub(crate) fn translate(msgid: &str) -> (text: String)
    requires
        !msgid@.contains('\0'),
    ensures
        is_translation(msgid@, text@),
{
    gettextrs::gettext(msgid)
}

} // verus!
