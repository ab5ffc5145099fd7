//! The report for a cycle of strong edges, which cannot be copied: the copy of the object the
//! cycle returns to does not exist yet, so there is nothing to point at.

use vstd::prelude::*;
use vstd::string::*;

verus! {

/// The text before the type's name in a strong-cycle report.
pub open spec fn strong_cycle_head() -> Seq<char> {
    "deep clone reached a cycle of strong `Rc`/`Arc` edges through `"@
}

/// The text after the type's name in a strong-cycle report.
pub open spec fn strong_cycle_tail() -> Seq<char> {
    "`; the copy of that object does not exist yet, so there is nothing to point at. Such a cycle also leaks in the original \u{2014} use `Weak` for back-edges, which this crate does support."@
}

/// Report a cycle of strong edges through a pointee whose type is named `pointee`, which cannot be
/// copied and would have leaked anyway.
pub fn strong_cycle(pointee: &str) -> (message: String)
    ensures
        message@ == strong_cycle_head() + pointee@ + strong_cycle_tail(),
{
    let mut message = String::from_str("deep clone reached a cycle of strong `Rc`/`Arc` edges through `");
    message.append(pointee);
    message.append("`; the copy of that object does not exist yet, so there is nothing to point at. Such a cycle also leaks in the original \u{2014} use `Weak` for back-edges, which this crate does support.");
    message
}

} // verus!
