//! A basic timer (TIM6): control, interrupt enable, prescaler and
//! auto-reload registers.
use vstd::prelude::*;

use super::mmio_handler::MmioHandler;
use crate::bits::lemma_bit_basics;

verus! {

/// Size of the basic timer register block.
pub const BASIC_TIMER_REGION_SIZE: usize = 0x30;

pub struct BasicTimerRegion {
    pub start_addr: usize,
    pub prescaler: u16,
    pub auto_reload_enabled: bool,
    pub auto_reload: u32,
    pub counter_enabled: bool,
    pub update_interrupt_enabled: bool,
}

/// CR1 as read: CEN (bit 0) and ARPE (bit 7).
pub open spec fn cr1_word(counter_enabled: bool, auto_reload_enabled: bool) -> u32 {
    (if counter_enabled {
        1u32
    } else {
        0
    }) | (if auto_reload_enabled {
        0x80u32
    } else {
        0
    })
}

impl BasicTimerRegion {
    /// Reset state: division by one, everything off.
    pub fn new(start_addr: usize) -> (r: Self)
        ensures
            r == (BasicTimerRegion {
                start_addr,
                prescaler: 1,
                auto_reload_enabled: false,
                auto_reload: 0,
                counter_enabled: false,
                update_interrupt_enabled: false,
            }),
    {
        Self {
            start_addr,
            prescaler: 1,
            auto_reload_enabled: false,
            auto_reload: 0,
            counter_enabled: false,
            update_interrupt_enabled: false,
        }
    }

    pub fn new_boxed(start_addr: usize) -> (r: Box<Self>)
        ensures
            *r == (BasicTimerRegion {
                start_addr,
                prescaler: 1,
                auto_reload_enabled: false,
                auto_reload: 0,
                counter_enabled: false,
                update_interrupt_enabled: false,
            }),
    {
        Box::new(Self::new(start_addr))
    }

    pub fn encode_cr1(&self) -> (r: u32)
        ensures
            r == cr1_word(self.counter_enabled, self.auto_reload_enabled),
    {
        let mut value: u32 = 0;
        if self.counter_enabled {
            value |= 0x1;
        }
        if self.auto_reload_enabled {
            value |= 0x80;
        }
        proof {
            lemma_bit_basics();
            assert(0u32 | 1u32 == 1u32 && 1u32 | 0u32 == 1u32 && 0u32 | 0x80u32 == 0x80u32 && 0u32
                | 0u32 == 0u32);
        }
        value
    }

    pub open spec fn offset(&self, address: usize) -> int {
        address - self.start_addr
    }

    /// The value a read returns.
    pub open spec fn read_spec(&self, address: usize) -> u32 {
        let off = self.offset(address);
        if off == 0x00 {
            cr1_word(self.counter_enabled, self.auto_reload_enabled)
        } else if off == 0x0C {
            if self.update_interrupt_enabled {
                1
            } else {
                0
            }
        } else if off == 0x28 {
            (self.prescaler - 1) as u32
        } else {
            self.auto_reload
        }
    }
}

impl MmioHandler for BasicTimerRegion {
    /// CR1, DIER, PSC (while the stored division factor is not zero) and
    /// ARR can be read.
    open spec fn read_ok(&self, address: usize) -> bool {
        let off = self.offset(address);
        self.start_addr <= address && (off == 0x00 || off == 0x0C || (off == 0x28 && self.prescaler
            != 0) || off == 0x2C)
    }

    /// CR1, DIER, PSC (with a value whose successor fits in 64 bits) and ARR
    /// can be written.
    open spec fn write_ok(&self, address: usize, value: u64) -> bool {
        let off = self.offset(address);
        self.start_addr <= address && (off == 0x00 || off == 0x0C || (off == 0x28 && value
            < u64::MAX) || off == 0x2C)
    }

    open spec fn covers(&self, address: usize) -> bool {
        self.start_addr <= address < self.start_addr + BASIC_TIMER_REGION_SIZE
    }

    open spec fn read_value(&self, address: usize) -> u32 {
        self.read_spec(address)
    }

    open spec fn read_done(&self, address: usize, next: &Self) -> bool {
        *next == *self
    }

    fn read(&mut self, address: usize) -> (r: u32) {
        let offset = address - self.start_addr;
        if offset == 0x00 {
            return self.encode_cr1();
        }
        if offset == 0x0C {
            return if self.update_interrupt_enabled {
                1
            } else {
                0
            };
        }
        if offset == 0x28 {
            return self.prescaler as u32 - 1;
        }
        self.auto_reload
    }

    /// The timer after a write: CR1 takes CEN and ARPE, DIER takes UIE, PSC
    /// stores the division factor `value + 1` truncated to 16 bits, ARR the
    /// low 32 bits.
    open spec fn written(&self, address: usize, value: u64, next: &Self) -> bool {
        let off = self.offset(address);
        *next == if off == 0x00 {
            BasicTimerRegion {
                counter_enabled: value & 1 != 0,
                auto_reload_enabled: value & 0x80 != 0,
                ..*self
            }
        } else if off == 0x0C {
            BasicTimerRegion { update_interrupt_enabled: value & 1 != 0, ..*self }
        } else if off == 0x28 {
            BasicTimerRegion { prescaler: (value + 1) as u16, ..*self }
        } else {
            BasicTimerRegion { auto_reload: value as u32, ..*self }
        }
    }

    fn write(&mut self, address: usize, value: u64) {
        let offset = address - self.start_addr;
        if offset == 0x00 {
            self.counter_enabled = (value & 1) != 0;
            self.auto_reload_enabled = (value & 0x80) != 0;
            return;
        }
        if offset == 0x0C {
            self.update_interrupt_enabled = (value & 1) != 0;
            return;
        }
        if offset == 0x28 {
            self.prescaler = (value + 1) as u16;
            return;
        }
        self.auto_reload = value as u32;
    }

    fn contains(&self, address: usize) -> (r: bool) {
        address >= self.start_addr && address - self.start_addr < BASIC_TIMER_REGION_SIZE
    }

    fn can_read(&self, address: usize) -> (r: bool) {
        if address < self.start_addr {
            return false;
        }
        let off = address - self.start_addr;
        off == 0x00 || off == 0x0C || (off == 0x28 && self.prescaler != 0) || off == 0x2C
    }

    fn can_write(&self, address: usize, value: u64) -> (r: bool) {
        if address < self.start_addr {
            return false;
        }
        let off = address - self.start_addr;
        off == 0x00 || off == 0x0C || (off == 0x28 && value < u64::MAX) || off == 0x2C
    }
}

/// What a timer register reads right after `value` was written to it.
pub open spec fn timer_readback(off: int, value: u64) -> u32 {
    if off == 0x00 {
        (value & 0x81) as u32
    } else if off == 0x0C {
        (value & 1) as u32
    } else if off == 0x28 {
        (value & 0xFFFF) as u32
    } else {
        value as u32
    }
}

/// Read after write on the timer: CR1 keeps CEN and ARPE, DIER keeps UIE,
/// PSC reads back the low 16 bits of the written value, ARR the low 32
/// bits.  When the low 16 bits of a PSC value are all ones, the stored
/// division factor wraps to 0 and PSC can no longer be read.
pub proof fn law_timer_read_after_write(t: BasicTimerRegion, g: BasicTimerRegion, address: usize, value: u64)
    requires
        t.write_ok(address, value),
        t.written(address, value, &g),
    ensures
        g.read_ok(address) == (t.offset(address) != 0x28 || value & 0xFFFF != 0xFFFF),
        g.read_ok(address) ==> g.read_value(address) == timer_readback(t.offset(address), value),
{
    lemma_timer_bits(value);
}

proof fn lemma_timer_bits(value: u64)
    by (bit_vector)
    ensures
        value & 1 != 0 ==> (value & 0x80 != 0 ==> 1u32 | 0x80u32 == (value & 0x81) as u32) && (
        value & 0x80 == 0 ==> 1u32 | 0u32 == (value & 0x81) as u32),
        value & 1 == 0 ==> (value & 0x80 != 0 ==> 0u32 | 0x80u32 == (value & 0x81) as u32) && (
        value & 0x80 == 0 ==> 0u32 | 0u32 == (value & 0x81) as u32),
        value & 1 != 0 ==> 1u32 == (value & 1) as u32,
        value & 1 == 0 ==> 0u32 == (value & 1) as u32,
        value < 0xFFFF_FFFF_FFFF_FFFFu64 ==> ((value + 1) as u16 == 0) == (value & 0xFFFF
            == 0xFFFF),
        value < 0xFFFF_FFFF_FFFF_FFFFu64 && (value & 0xFFFF) != 0xFFFF ==> (((value + 1) as u16)
            - 1) as u32 == (value & 0xFFFF) as u32,
{
}

} // verus!
