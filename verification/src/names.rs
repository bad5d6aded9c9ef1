//! How an account's name is written on the dashboard.

use vstd::prelude::*;

verus! {

/// The title-cased form of `name` as the `titlecase` crate writes it.
pub uninterp spec fn titlecase_of(name: Seq<char>) -> Seq<char>;

/// Title-cases `name` with `titlecase::titlecase`. The crate trims the text,
/// lowers it first if it holds no lower-case letter, and then capitalises
/// word by word after rules drawn up for English headlines; those rules are
/// not restated here. The contract only gives the result its name, which
/// says that it depends on the characters of `name` and on nothing else.
/// The crate calls itself once for every opening bracket that a word starts
/// with, so the stack it needs grows with the number of such brackets.
#[verifier::external_body]
pub(crate) fn title_cased(name: &str) -> (shown: String)
    ensures
        shown@ == titlecase_of(name@),
{
    titlecase::titlecase(name)
}

} // verus!
