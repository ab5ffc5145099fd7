//! The token that keeps the boxed-clone hook of trait objects uncallable by name.

use vstd::prelude::*;

verus! {

/// Makes the hidden trait-object clone method uncallable without naming this token.
#[derive(Debug)]
pub struct Private;

} // verus!
