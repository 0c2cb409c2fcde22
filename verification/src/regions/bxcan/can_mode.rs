use vstd::prelude::*;

verus! {

/// Test modes selected by the two top bits of the bit timing register.
#[derive(Clone, Copy, Debug, PartialEq, Eq, Structural)]
pub enum CANMode {
    Normal,
    Loopback,
    Silent,
    SilentLoopback,
}

/// The two-bit code of a mode in the bit timing register.
pub open spec fn mode_code(m: CANMode) -> u32 {
    match m {
        CANMode::Normal => 0,
        CANMode::Loopback => 1,
        CANMode::Silent => 2,
        CANMode::SilentLoopback => 3,
    }
}

} // verus!
