//! Acceptance check for image-reference URI strings.

use vstd::prelude::*;

verus! {

/// Whether the URL parser accepts this string. The result depends on the
/// characters alone.
pub uninterp spec fn url_accepted(s: Seq<char>) -> bool;

/// Relies on url::Url::parse: whether it accepts the string as an
/// absolute URL.
#[verifier::external_body]
pub(crate) fn check_url(s: &str) -> (r: bool)
    ensures
        r == url_accepted(s@),
{
    url::Url::parse(s).is_ok()
}

} // verus!
