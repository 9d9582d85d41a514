use vstd::prelude::*;

use crate::field::opt_view;

verus! {

/// The title-case form of an identifier, as heck computes it.
pub uninterp spec fn title_case_of(s: Seq<char>) -> Seq<char>;

/// Relies on heck's `ToTitleCase::to_title_case` for `str`: the result depends
/// on the characters alone, and an empty input gives an empty output.
#[verifier::external_body]
fn title_case(s: &str) -> (r: String)
    ensures
        r@ == title_case_of(s@),
        s@.len() == 0 ==> r@.len() == 0,
{
    heck::ToTitleCase::to_title_case(s)
}

/// The header text of a column: the explicit title when one is given, else
/// the title case of the field's name.
pub open spec fn resolved_title(explicit: Option<Seq<char>>, name: Seq<char>) -> Seq<char> {
    match explicit {
        Some(t) => t,
        None => title_case_of(name),
    }
}

/// Picks the header text of a column as `resolved_title` says.
pub fn resolve_title(explicit: &Option<String>, name: &str) -> (r: String)
    ensures
        r@ == resolved_title(opt_view(*explicit), name@),
{
    match explicit {
        Some(t) => t.clone(),
        None => title_case(name),
    }
}

} // verus!
