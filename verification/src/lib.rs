//! Deep clone that copies shared data once.
//!
//! Each object reachable from the value being cloned is copied once, and every reference to
//! it in the copy points at that one new object: two references to one `Rc` become two
//! references to one *new* `Rc`, and the copy shares nothing with the source. This crate
//! holds the decisions behind that: the forwarding table of one clone operation and what each
//! strong or weak edge must do when it is reached (`memo`), the report for a cycle of strong
//! edges (`cycle`), the rules of the derive's attributes, bounds, and field expressions
//! (`attrs`), and the text of the impl the derive generates (`derive`).

pub mod attrs;
pub mod cycle;
pub mod derive;
pub mod memo;
pub mod sealed;

pub use cycle::strong_cycle;
pub use memo::{stored, Cloner, Record, StrongStep, WeakStep};
pub use sealed::Private;
