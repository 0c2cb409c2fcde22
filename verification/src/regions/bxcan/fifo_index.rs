use vstd::prelude::*;

verus! {

/// One of the two receive FIFOs.
#[derive(Clone, Copy, Debug, PartialEq, Eq, Structural)]
pub enum FIFOIndex {
    FIFO0,
    FIFO1,
}

} // verus!
