use vstd::prelude::*;

use super::can_mode::{mode_code, CANMode};
use crate::bits::lemma_bit_basics;

verus! {

/// The bit timing register (CAN_BTR): test mode, resynchronisation jump
/// width, the two time segments and the baud rate prescaler.  Each length
/// is kept as the number of time quanta, one more than its register field.
pub struct BitTiming {
    mode: CANMode,
    sjw: u8,
    ts1: u8,
    ts2: u8,
    brp: u16,
}

/// The bits of CAN_BTR that hold state; the others read as zero.
pub open spec fn btr_mask() -> u32 {
    0xFF7F03FF
}

impl BitTiming {
    #[verifier::type_invariant]
    spec fn inv(self) -> bool {
        &&& 1 <= self.sjw <= 64
        &&& 1 <= self.ts1 <= 16
        &&& 1 <= self.ts2 <= 8
        &&& 1 <= self.brp <= 1024
    }

    /// The register word that describes this configuration.
    pub closed spec fn btr(self) -> u32 {
        (mode_code(self.mode) << 30u32) | (((self.sjw - 1) as u32) << 24u32) | (((self.ts1
            - 1) as u32) << 16u32) | (((self.ts2 - 1) as u32) << 20u32) | ((self.brp - 1) as u32)
    }

    /// Reset configuration: normal mode, SJW 1, TS1 4, TS2 3, prescaler 1.
    pub fn new() -> (r: Self)
        ensures
            r.btr() == 0x0023_0000,
    {
        let r = Self { mode: CANMode::Normal, sjw: 1, ts1: 4, ts2: 3, brp: 1 };
        proof {
            lemma_btr_bits(0);
        }
        r
    }

    /// Reads CAN_BTR.
    pub fn encode(&self) -> (btr: u32)
        ensures
            btr == self.btr(),
    {
        proof {
            use_type_invariant(self);
        }
        let mut btr: u32 = 0;
        btr |= match self.mode {
            CANMode::Normal => 0,
            CANMode::Loopback => 0x40000000,
            CANMode::Silent => 0x80000000,
            CANMode::SilentLoopback => 0xC0000000,
        };
        btr |= ((self.sjw - 1) as u32) << 24;
        btr |= ((self.ts1 - 1) as u32) << 16;
        btr |= ((self.ts2 - 1) as u32) << 20;
        btr |= (self.brp - 1) as u32;
        proof {
            lemma_btr_bits(0);
            lemma_bit_basics();
            assert((0u32 | (mode_code(self.mode) << 30u32)) == (mode_code(self.mode) << 30u32));
        }
        btr
    }

    /// Writes CAN_BTR: every field is taken from `value`, bits outside
    /// [`btr_mask`] are dropped.
    pub fn write(&mut self, value: u32)
        ensures
            final(self).btr() == value & btr_mask(),
    {
        let mode_bits = value & 0xC0000000;
        let mode = if mode_bits == 0 {
            CANMode::Normal
        } else if mode_bits == 0x40000000 {
            CANMode::Loopback
        } else if mode_bits == 0x80000000 {
            CANMode::Silent
        } else {
            CANMode::SilentLoopback
        };
        proof {
            lemma_bit_basics();
            assert((value >> 24) & 0x3F <= 0x3F && (value >> 16) & 0x0F <= 0x0F && (value >> 20)
                & 0x07 <= 0x07 && value & 0x3FF <= 0x3FF);
        }
        let sjw = ((value >> 24) & 0x3F) as u8 + 1;
        let ts1 = ((value >> 16) & 0x0F) as u8 + 1;
        let ts2 = ((value >> 20) & 0x07) as u8 + 1;
        let brp = (value & 0x3FF) as u16 + 1;
        *self = BitTiming { mode, sjw, ts1, ts2, brp };
        proof {
            let m = mode_code(self.mode);
            lemma_btr_bits(value);
            assert(m == value >> 30u32);
        }
    }
}

proof fn lemma_btr_bits(value: u32)
    by (bit_vector)
    ensures
        (0u32 << 30u32) | (0u32 << 24u32) | (3u32 << 16u32) | (2u32 << 20u32) | 0u32
            == 0x0023_0000u32,
        0u32 == (0u32 << 30u32) && 0x40000000u32 == (1u32 << 30u32) && 0x80000000u32 == (2u32
            << 30u32) && 0xC0000000u32 == (3u32 << 30u32),
        value & 0xC0000000 == 0 ==> value >> 30u32 == 0,
        value & 0xC0000000 == 0x40000000 ==> value >> 30u32 == 1,
        value & 0xC0000000 == 0x80000000 ==> value >> 30u32 == 2,
        value & 0xC0000000 != 0 && value & 0xC0000000 != 0x40000000 && value & 0xC0000000
            != 0x80000000 ==> value >> 30u32 == 3,
        ((value >> 30u32) << 30u32) | (((value >> 24u32) & 0x3F) << 24u32) | (((value >> 16u32)
            & 0x0F) << 16u32) | (((value >> 20u32) & 0x07) << 20u32) | (value & 0x3FF) == value
            & 0xFF7F03FF,
{
}

} // verus!
