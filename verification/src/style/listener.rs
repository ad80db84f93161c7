use vstd::prelude::*;

verus! {

/// A layout listener that does nothing.
pub struct EmptyLayoutListener {}

} // verus!
