use vstd::prelude::*;

verus! {

/// The class page of the character tracker; it holds nothing yet.
pub struct Class {}

} // verus!
