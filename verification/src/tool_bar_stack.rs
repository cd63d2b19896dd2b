//! Which tool bar goes with which page of the main stack.
use vstd::prelude::*;
use crate::text::textEq;

verus! {

/// Whether `name` is the name of a page of the main stack.
pub open spec fn isStackChildName(name: Seq<char>) -> bool {
    name == "Current changes"@ || name == "Commit log"@
}

/// The tool bar shown with the page `name` of the main stack.
pub open spec fn toolBarOf(name: Seq<char>) -> Seq<char> {
    if name == "Current changes"@ {
        "Current changes tool bar"@
    } else {
        "Commit log tool bar"@
    }
}

/// Whether `name` is the name of a page of the main stack.
pub fn isKnownStackChild(name: &str) -> (known: bool)
    ensures
        known == isStackChildName(name@),
{
    textEq(name, "Current changes") || textEq(name, "Commit log")
}

/// The tool bar to show when the main stack switches to the page `name`.
pub fn onStackChildChanged(name: &str) -> (toolBar: &'static str)
    requires
        isStackChildName(name@),
    ensures
        toolBar@ == toolBarOf(name@),
{
    if textEq(name, "Current changes") {
        "Current changes tool bar"
    } else {
        "Commit log tool bar"
    }
}

} // verus!
