use vstd::prelude::*;

use super::can_state::CANState;
use crate::bits::lemma_bit_basics;

verus! {

/// CAN_MCR as read: DBF set, SLEEP while asleep, INRQ while initialising.
pub open spec fn mcr_word(state: CANState) -> u32 {
    0x0001_0000u32 | (if state == CANState::Sleep {
        2u32
    } else {
        0
    }) | (if state == CANState::Initialization {
        1u32
    } else {
        0
    })
}

/// CAN_MSR as read: SLAK while asleep, INAK while initialising.
pub open spec fn msr_word(state: CANState) -> u32 {
    (if state == CANState::Sleep {
        2u32
    } else {
        0
    }) | (if state == CANState::Initialization {
        1u32
    } else {
        0
    })
}

/// CAN_IER as read: FMPIE0 (bit 1) and FMPIE1 (bit 4).
pub open spec fn ier_word(fifo0: bool, fifo1: bool) -> u32 {
    (if fifo0 {
        2u32
    } else {
        0
    }) | (if fifo1 {
        0x10u32
    } else {
        0
    })
}

/// A CAN_MCR write the model handles: bits 2..7 must stay clear.
pub open spec fn mcr_write_ok(value: u32) -> bool {
    value & 0xFC == 0
}

/// The state after a CAN_MCR write: a change of INRQ decides (initialise
/// or leave initialisation), else a change of SLEEP decides (sleep or
/// wake), else a set RESET bit puts the controller to sleep.
pub open spec fn mcr_next_state(state: CANState, value: u32) -> CANState {
    let inrq = value & 1 != 0;
    let sleep = value & 2 != 0;
    if inrq != (state == CANState::Initialization) {
        if inrq {
            CANState::Initialization
        } else {
            CANState::Ready
        }
    } else if sleep != (state == CANState::Sleep) {
        if sleep {
            CANState::Sleep
        } else {
            CANState::Ready
        }
    } else if value & 0x8000 != 0 {
        CANState::Sleep
    } else {
        state
    }
}

/// Reads CAN_MCR.
pub fn encode_mcr(state: CANState) -> (mcr: u32)
    ensures
        mcr == mcr_word(state),
{
    let mut mcr: u32 = 0x00010000;
    if matches!(state, CANState::Sleep) {
        mcr |= 0x2;
    }
    if matches!(state, CANState::Initialization) {
        mcr |= 0x1;
    }
    proof {
        lemma_bit_basics();
        assert((0x00010000u32 | 2u32) | 0u32 == 0x00010000u32 | 2u32);
        assert(0x00010000u32 | 0u32 == 0x00010000u32);
    }
    mcr
}

/// Reads CAN_MSR.
pub fn encode_msr(state: CANState) -> (msr: u32)
    ensures
        msr == msr_word(state),
{
    let mut msr: u32 = 0;
    if matches!(state, CANState::Sleep) {
        msr |= 0x2;
    }
    if matches!(state, CANState::Initialization) {
        msr |= 0x1;
    }
    proof {
        lemma_bit_basics();
        assert(0u32 | 2u32 == 2u32 && 2u32 | 0u32 == 2u32 && 0u32 | 0u32 == 0u32);
    }
    msr
}

/// Reads CAN_IER.
pub fn encode_ier(fifo0: bool, fifo1: bool) -> (ier: u32)
    ensures
        ier == ier_word(fifo0, fifo1),
{
    let mut ier: u32 = 0;
    if fifo0 {
        ier |= 0x02;
    }
    if fifo1 {
        ier |= 0x10;
    }
    proof {
        lemma_bit_basics();
        assert(0u32 | 2u32 == 2u32 && 2u32 | 0u32 == 2u32 && 0u32 | 0x10u32 == 0x10u32 && 0x10u32
            | 0u32 == 0x10u32 && 0u32 | 0u32 == 0u32);
    }
    ier
}

/// Applies a CAN_MCR write to the controller state.
pub fn write_mcr(state: CANState, value: u32) -> (next: CANState)
    requires
        mcr_write_ok(value),
    ensures
        next == mcr_next_state(state, value),
{
    let mcr = encode_mcr(state);
    let mut next = state;
    let mut changed_bits = (mcr ^ value) & 0x000080ff;
    let ghost a: u32 = if state == CANState::Sleep { 2 } else { 0 };
    let ghost b: u32 = if state == CANState::Initialization { 1 } else { 0 };
    proof {
        assert(mcr == 0x0001_0000u32 | a | b);
        lemma_mcr_changes(value, a, b);
    }
    if changed_bits & 0x00008000 != 0 && value & 0x00008000 != 0 {
        next = CANState::Sleep;
        changed_bits &= !0x00008000;
    }
    if changed_bits & 0x00000002 != 0 {
        next = if value & 0x00000002 != 0 {
            CANState::Sleep
        } else {
            CANState::Ready
        };
        changed_bits &= !0x00000002;
    }
    if changed_bits & 0x00000001 != 0 {
        next = if value & 0x00000001 != 0 {
            CANState::Initialization
        } else {
            CANState::Ready
        };
    }
    next
}

proof fn lemma_mcr_changes(value: u32, a: u32, b: u32)
    requires
        a == 0 || a == 2,
        b == 0 || b == 1,
    ensures
        ({
            let c = ((0x0001_0000u32 | a | b) ^ value) & 0x80ff;
            &&& (c & 0x8000 != 0) == (value & 0x8000 != 0)
            &&& (c & 2 != 0) == ((value & 2 != 0) != (a == 2))
            &&& (c & 1 != 0) == ((value & 1 != 0) != (b == 1))
            &&& (c & !0x8000u32) & 2 == c & 2
            &&& (c & !0x8000u32) & 1 == c & 1
            &&& ((c & !0x8000u32) & !2u32) & 1 == c & 1
            &&& (c & !2u32) & 1 == c & 1
        }),
{
    assert(({
        let c = ((0x0001_0000u32 | a | b) ^ value) & 0x80ff;
        &&& (c & 0x8000 != 0) == (value & 0x8000 != 0)
        &&& (c & 2 != 0) == ((value & 2 != 0) != (a == 2))
        &&& (c & 1 != 0) == ((value & 1 != 0) != (b == 1))
        &&& (c & !0x8000u32) & 2 == c & 2
        &&& (c & !0x8000u32) & 1 == c & 1
        &&& ((c & !0x8000u32) & !2u32) & 1 == c & 1
        &&& (c & !2u32) & 1 == c & 1
    })) by (bit_vector)
        requires
            a == 0 || a == 2,
            b == 0 || b == 1,
    ;
}

} // verus!
