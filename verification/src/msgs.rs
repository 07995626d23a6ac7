//! How the provisioning prompts read their answers.

use crate::text::str_eq;
use vstd::prelude::*;

verus! {

/// What a yes/no answer meant.
#[derive(Clone, Copy, Debug, PartialEq, Eq, Structural)]
pub enum Confirmation {
    /// One of `y`, `Y`, `yes`, `Yes`.
    Affirmed,
    /// One of `n`, `N`, `no`, `No`.
    Denied,
    /// Anything else: ask again.
    Unclear,
}

/// An answer affirms in one of these spellings.
pub open spec fn spec_affirmed(answer: Seq<char>) -> bool {
    ||| answer == "y"@
    ||| answer == "Y"@
    ||| answer == "yes"@
    ||| answer == "Yes"@
}

/// An answer denies in one of these spellings.
pub open spec fn spec_denied(answer: Seq<char>) -> bool {
    ||| answer == "n"@
    ||| answer == "N"@
    ||| answer == "no"@
    ||| answer == "No"@
}

/// Read a yes/no answer: the four affirmative spellings affirm, the four
/// negative ones deny, anything else is unclear.
pub fn classify_confirmation(answer: &str) -> (c: Confirmation)
    ensures
        c is Affirmed <==> spec_affirmed(answer@),
        c is Denied <==> spec_denied(answer@) && !spec_affirmed(answer@),
        c is Unclear <==> !spec_affirmed(answer@) && !spec_denied(answer@),
{
    if str_eq(answer, "y") || str_eq(answer, "Y") || str_eq(answer, "yes") || str_eq(
        answer,
        "Yes",
    ) {
        Confirmation::Affirmed
    } else if str_eq(answer, "n") || str_eq(answer, "N") || str_eq(answer, "no") || str_eq(
        answer,
        "No",
    ) {
        Confirmation::Denied
    } else {
        Confirmation::Unclear
    }
}

} // verus!
