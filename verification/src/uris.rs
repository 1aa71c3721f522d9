//! The URI codec: a URI travels as its plain textual form, validated
//! against the URI grammar of the standard URI component.

use vstd::prelude::*;

verus! {

/// Whether the URI grammar accepts `s`. The grammar is the one the
/// `http` crate's `Uri` parser implements; its acceptance depends on
/// the characters of `s` alone.
pub uninterp spec fn uri_ok(s: Seq<char>) -> bool;

/// Relies on `<http::Uri as core::str::FromStr>::from_str`, for
/// deciding whether the URI grammar accepts `s`.
#[verifier::external_body]
pub(crate) fn check_uri(s: &str) -> (r: bool)
    ensures
        r == uri_ok(s@),
{
    s.parse::<http::Uri>().is_ok()
}

} // verus!
