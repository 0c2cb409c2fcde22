use vstd::prelude::*;

verus! {

/// Width of the identifiers a filter bank compares.
#[derive(Clone, Copy, Debug, PartialEq, Eq, Structural)]
pub enum FilterScale {
    Scale16Bit,
    Scale32Bit,
}

} // verus!
