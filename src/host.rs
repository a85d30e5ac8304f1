//! Trusted bindings for facts about the host and for lowercasing text.
use vstd::prelude::*;

verus! {

/// The lowercase form of a text (Unicode lowercase mapping).
pub uninterp spec fn lower_of(s: Seq<char>) -> Seq<char>;

/// Whether `needle` occurs in `hay` as a contiguous run of characters.
pub open spec fn has_infix(hay: Seq<char>, needle: Seq<char>) -> bool {
    exists|i: int| 0 <= i && i + needle.len() <= hay.len() && #[trigger] hay.subrange(i, i + needle.len()) == needle
}

/// Relies on `whoami::hostname`: the host's name (a fallback name when the
/// system does not give one). Nothing is known of the value.
#[verifier::external_body]
pub(crate) fn host_name() -> (r: String) {
    #[allow(deprecated)]
    whoami::hostname()
}

/// Relies on `whoami::platform` and its `Display`: the name of the operating
/// system. Nothing is known of the value.
#[verifier::external_body]
pub(crate) fn platform_name() -> (r: String) {
    whoami::platform().to_string()
}

/// Relies on `whoami::username`: the current user's name. Nothing is known of the value.
#[verifier::external_body]
pub(crate) fn user_name() -> (r: String) {
    whoami::username()
}

/// Relies on `str::to_lowercase`: the result depends on the characters alone,
/// and an empty text stays empty.
#[verifier::external_body]
pub(crate) fn lowercase(s: &str) -> (r: String)
    ensures
        r@ == lower_of(s@),
        s@.len() == 0 ==> r@.len() == 0,
{
    s.to_lowercase()
}

} // verus!
