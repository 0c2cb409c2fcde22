//! The first bxCAN controller model: control and status registers, bit
//! timing and the filter block, without mailboxes.
use vstd::prelude::*;

use super::bxcan::bit_timing::{btr_mask, BitTiming};
use super::bxcan::can_state::CANState;
use super::bxcan::control::{
    encode_ier, encode_mcr, encode_msr, ier_word, mcr_next_state, mcr_word, mcr_write_ok, msr_word,
    write_mcr,
};
use super::filter_bank::FilterBank;
use super::mmio_handler::MmioHandler;

verus! {

/// Size of the bxCAN register block.
pub const BXCAN_REGION_SIZE: usize = 0x2B0;

pub struct BXCanRegion {
    pub start_addr: usize,
    pub state: CANState,
    pub bit_timing: BitTiming,
    pub filters: FilterBank,
    pub fifo0_pending_int_enable: bool,
    pub fifo1_pending_int_enable: bool,
}

impl BXCanRegion {
    pub open spec fn offset(&self, address: usize) -> usize {
        (address - self.start_addr) as usize
    }

    /// The value a read returns.
    pub open spec fn read_spec(&self, address: usize) -> u32 {
        let off = self.offset(address);
        if off == 0x000 {
            mcr_word(self.state)
        } else if off == 0x004 {
            msr_word(self.state)
        } else if off == 0x014 {
            ier_word(self.fifo0_pending_int_enable, self.fifo1_pending_int_enable)
        } else if off == 0x01C {
            self.bit_timing.btr()
        } else {
            self.filters.read_spec(off)
        }
    }

    pub fn new(start_addr: usize) -> (r: Self)
        ensures
            r.start_addr == start_addr,
            r.state == CANState::Sleep,
            r.bit_timing.btr() == 0x0023_0000,
            r.filters.filters.state == super::bxcan::can_filter::CANFilterState::Active,
            !r.fifo0_pending_int_enable,
            !r.fifo1_pending_int_enable,
    {
        Self {
            start_addr,
            state: CANState::Sleep,
            bit_timing: BitTiming::new(),
            filters: FilterBank::new(),
            fifo0_pending_int_enable: false,
            fifo1_pending_int_enable: false,
        }
    }

    /// The controller, boxed for the bus.
    pub fn new_boxed(start_addr: usize) -> (r: Box<Self>)
        ensures
            r.start_addr == start_addr,
            r.state == CANState::Sleep,
            r.bit_timing.btr() == 0x0023_0000,
            r.filters.filters.state == super::bxcan::can_filter::CANFilterState::Active,
            !r.fifo0_pending_int_enable,
            !r.fifo1_pending_int_enable,
    {
        Box::new(Self::new(start_addr))
    }

    pub fn encode_mcr(&self) -> (r: u32)
        ensures
            r == mcr_word(self.state),
    {
        encode_mcr(self.state)
    }

    pub fn encode_msr(&self) -> (r: u32)
        ensures
            r == msr_word(self.state),
    {
        encode_msr(self.state)
    }

    pub fn encode_ier(&self) -> (r: u32)
        ensures
            r == ier_word(self.fifo0_pending_int_enable, self.fifo1_pending_int_enable),
    {
        encode_ier(self.fifo0_pending_int_enable, self.fifo1_pending_int_enable)
    }
}

impl MmioHandler for BXCanRegion {
    open spec fn read_ok(&self, address: usize) -> bool {
        let off = self.offset(address);
        &&& self.start_addr <= address
        &&& (off == 0x000 || off == 0x004 || off == 0x014 || off == 0x01C || self.filters.read_ok(
            off,
        ))
    }

    open spec fn write_ok(&self, address: usize, value: u64) -> bool {
        let off = self.offset(address);
        let v = value as u32;
        &&& self.start_addr <= address
        &&& ((off == 0x000 && mcr_write_ok(v)) || off == 0x014 || off == 0x01C
            || self.filters.write_ok(off, v))
    }

    open spec fn covers(&self, address: usize) -> bool {
        self.start_addr <= address < self.start_addr + BXCAN_REGION_SIZE
    }

    open spec fn read_value(&self, address: usize) -> u32 {
        self.read_spec(address)
    }

    open spec fn read_done(&self, address: usize, next: &Self) -> bool {
        *next == *self
    }

    fn read(&mut self, address: usize) -> (r: u32) {
        let offset = address - self.start_addr;
        if offset == 0x000 {
            return self.encode_mcr();
        }
        if offset == 0x004 {
            return self.encode_msr();
        }
        if offset == 0x014 {
            return self.encode_ier();
        }
        if offset == 0x01C {
            return self.bit_timing.encode();
        }
        self.filters.read(offset)
    }

    /// The controller after a write of the low 32 bits of `value`.
    open spec fn written(&self, address: usize, value: u64, next: &Self) -> bool {
        let off = self.offset(address);
        let v = value as u32;
        &&& next.state == (if off == 0 {
            mcr_next_state(self.state, v)
        } else {
            self.state
        })
        &&& next.fifo0_pending_int_enable == (if off == 0x014 {
            v & 0x02 != 0
        } else {
            self.fifo0_pending_int_enable
        })
        &&& next.fifo1_pending_int_enable == (if off == 0x014 {
            v & 0x10 != 0
        } else {
            self.fifo1_pending_int_enable
        })
        &&& next.bit_timing.btr() == (if off == 0x01C {
            v & btr_mask()
        } else {
            self.bit_timing.btr()
        })
        &&& if self.filters.write_ok(off, v) {
            self.filters.written(&next.filters, off, v)
        } else {
            next.filters == self.filters
        }
        &&& next.start_addr == self.start_addr
    }

    fn write(&mut self, address: usize, value: u64) {
        let value = value as u32;
        let offset = address - self.start_addr;
        if offset == 0x000 {
            self.state = write_mcr(self.state, value);
            return;
        }
        if offset == 0x014 {
            self.fifo0_pending_int_enable = value & 0x02 != 0;
            self.fifo1_pending_int_enable = value & 0x10 != 0;
            return;
        }
        if offset == 0x1C {
            self.bit_timing.write(value);
            return;
        }
        self.filters.write(offset, value);
    }

    fn contains(&self, address: usize) -> (r: bool) {
        address >= self.start_addr && address - self.start_addr < BXCAN_REGION_SIZE
    }

    fn can_read(&self, address: usize) -> (r: bool) {
        if address < self.start_addr {
            return false;
        }
        let off = address - self.start_addr;
        off == 0x000 || off == 0x004 || off == 0x014 || off == 0x01C || self.filters.can_read(off)
    }

    fn can_write(&self, address: usize, value: u64) -> (r: bool) {
        if address < self.start_addr {
            return false;
        }
        let off = address - self.start_addr;
        let v = value as u32;
        (off == 0x000 && v & 0xFC == 0) || off == 0x014 || off == 0x01C || self.filters.can_write(
            off,
            v,
        )
    }
}

} // verus!
