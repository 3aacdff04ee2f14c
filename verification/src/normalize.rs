//! Canonical composition of token text.

use unicode_normalization::UnicodeNormalization;
use vstd::prelude::*;

verus! {

/// The canonical composition (Unicode Normalization Form C) of a text.
///
/// The form is defined by the Unicode standard's tables, which this library
/// does not restate; it is a function of the characters alone.
pub uninterp spec fn nfc_of(text: Seq<char>) -> Seq<char>;

/// Calls `UnicodeNormalization::nfc` of the crate `unicode-normalization` on
/// `text` and collects the characters it yields.
///
/// Trusted: the result is the canonical composition of `text`, which is all
/// that the contract says of it.
#[verifier::external_body]
pub(crate) fn nfc(text: &str) -> (composed: String)
    ensures
        composed@ == nfc_of(text@),
{
    text.nfc().collect::<String>()
}

} // verus!
