//! When two descriptors speak of the same add-on.

use vstd::prelude::*;
use crate::addon::Addon;

verus! {

impl PartialEq for Addon {
    /// Two descriptors are equal where their projects are.
    fn eq(&self, other: &Self) -> (r: bool) {
        self.project == other.project
    }
}

impl vstd::std_specs::cmp::PartialEqSpecImpl for Addon {
    open spec fn obeys_eq_spec() -> bool {
        true
    }

    open spec fn eq_spec(&self, other: &Self) -> bool {
        self.project@ == other.project@
    }
}

} // verus!
