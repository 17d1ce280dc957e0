//! Which link a finding shows for its advisory.

use crate::report::opt_view;
use vstd::prelude::*;

verus! {

/// The canonical link that an advisory identifier resolves to, if any.
pub uninterp spec fn canonical_url_of(id: Seq<char>) -> Option<Seq<char>>;

/// Relies on `rustsec::advisory::Id`'s `FromStr` and `Id::url`: the link
/// depends on the identifier text alone (`None` for an identifier that does
/// not parse or has no canonical link).
#[verifier::external_body]
pub(crate) fn canonical_url(id: &str) -> (r: Option<String>)
    ensures
        opt_view(r) == canonical_url_of(id@),
{
    match id.parse::<rustsec::advisory::Id>() {
        Ok(parsed) => parsed.url(),
        Err(_) => None,
    }
}

/// The link shown: the canonical one where there is one, else the explicit one.
pub open spec fn preferred(canonical: Option<Seq<char>>, explicit: Option<Seq<char>>) -> Option<
    Seq<char>,
> {
    if canonical.is_some() {
        canonical
    } else {
        explicit
    }
}

/// Picks the link to show from a resolved canonical link and the advisory's
/// explicit one.
pub fn preferred_url(canonical: Option<String>, explicit: &Option<String>) -> (r: Option<String>)
    ensures
        opt_view(r) == preferred(opt_view(canonical), opt_view(*explicit)),
{
    match canonical {
        Some(u) => Some(u),
        None => match explicit {
            Some(u) => Some(u.clone()),
            None => None,
        },
    }
}

/// The link shown for an advisory.
pub open spec fn shown_url(id: Seq<char>, explicit: Option<String>) -> Option<Seq<char>> {
    preferred(canonical_url_of(id), opt_view(explicit))
}

/// Resolves the advisory's identifier and picks the link to show.
pub fn advisory_url(id: &String, explicit: &Option<String>) -> (r: Option<String>)
    ensures
        opt_view(r) == shown_url(id@, *explicit),
{
    preferred_url(canonical_url(id.as_str()), explicit)
}

} // verus!
