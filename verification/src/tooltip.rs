//! One-line tooltips.

use vstd::prelude::*;
use vstd::string::*;

use crate::text::{join2, owned};

verus! {

/// A tooltip that shows a single line of text.
pub struct Tooltip {
    pub text: String,
}

impl Tooltip {
    /// A tooltip with the given text.
    pub fn new(text: &str) -> (tooltip: Self)
        ensures
            tooltip.text@ == text@,
    {
        Tooltip { text: owned(text) }
    }
}

/// What an activity-bar icon's tooltip says.
pub open spec fn activity_text(name: Seq<char>, enabled: bool) -> Seq<char> {
    if enabled {
        name
    } else {
        name + " (coming soon)"@
    }
}

/// What an activity-bar icon's tooltip says: its name, and for a panel that
/// does not work yet the reason it does not respond.
pub fn activity_label(name: &str, enabled: bool) -> (label: String)
    ensures
        label@ == activity_text(name@, enabled),
{
    if enabled {
        owned(name)
    } else {
        join2(name, " (coming soon)")
    }
}

/// A tooltip is the panel's name; one that is not there yet says so.
pub proof fn law_tooltip_says_what_is_coming(name: Seq<char>)
    ensures
        activity_text(name, true) == name,
        activity_text(name, false) == name + " (coming soon)"@,
{
}

} // verus!
