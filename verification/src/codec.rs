//! Text encodings supplied by outside crates: base64 payloads and the
//! human-readable names of locales.

use vstd::prelude::*;

verus! {

/// The padded, standard-alphabet base64 text of the UTF-8 bytes of `text`.
pub uninterp spec fn base64_of_text(text: Seq<char>) -> Seq<char>;

/// The human-readable name of the locale written as `code`; a code that
/// names no known locale is its own name.
pub uninterp spec fn locale_label(code: Seq<char>) -> Seq<char>;

/// Calls `base64::encode` on the UTF-8 bytes of `text`. Trusted: the result
/// is taken to be the standard base64 encoding, a function of the text alone.
#[allow(deprecated)]
#[verifier::external_body]
pub(crate) fn encode_base64(text: &str) -> (r: String)
    ensures
        r@ == base64_of_text(text@),
{
    base64::encode(text.as_bytes())
}

/// Calls `crunchyroll_rs::Locale::to_human_readable` on the locale that
/// `Locale::from` builds from `code`. Trusted: the result is taken to be a
/// function of the code alone.
#[verifier::external_body]
pub(crate) fn readable_locale(code: &str) -> (r: String)
    ensures
        r@ == locale_label(code@),
{
    crunchyroll_rs::Locale::from(code.to_string()).to_human_readable()
}

} // verus!
