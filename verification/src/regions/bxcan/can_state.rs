use vstd::prelude::*;

verus! {

/// Operating state of the bxCAN controller.
#[derive(Clone, Copy, Debug, PartialEq, Eq, Structural)]
pub enum CANState {
    Sleep,
    Initialization,
    Ready,
}

} // verus!
