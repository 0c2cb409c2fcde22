//! The system control block: only AIRCR is modelled, as a constant.
use vstd::prelude::*;

use super::mmio_handler::MmioHandler;

verus! {

/// Size of the SCB register block.
pub const SCB_REGION_SIZE: usize = 0x40;

/// The value AIRCR reads: the read key with little-endian data.
pub const AIRCR_VALUE: u32 = 0xFA050000;

pub struct SCBRegion {
    pub start_addr: usize,
}

impl SCBRegion {
    pub fn new(start_addr: usize) -> (r: Self)
        ensures
            r.start_addr == start_addr,
    {
        Self { start_addr }
    }

    pub fn new_boxed(start_addr: usize) -> (r: Box<Self>)
        ensures
            r.start_addr == start_addr,
    {
        Box::new(Self::new(start_addr))
    }
}

impl MmioHandler for SCBRegion {
    /// Only AIRCR (offset 0x0C) can be read.
    open spec fn read_ok(&self, address: usize) -> bool {
        self.start_addr <= address && address - self.start_addr == 0x0c
    }

    /// No register of the block can be written.
    open spec fn write_ok(&self, address: usize, value: u64) -> bool {
        false
    }

    open spec fn covers(&self, address: usize) -> bool {
        self.start_addr <= address < self.start_addr + SCB_REGION_SIZE
    }

    open spec fn read_value(&self, address: usize) -> u32 {
        AIRCR_VALUE
    }

    open spec fn read_done(&self, address: usize, next: &Self) -> bool {
        *next == *self
    }

    fn read(&mut self, address: usize) -> (r: u32) {
        AIRCR_VALUE
    }

    open spec fn written(&self, address: usize, value: u64, next: &Self) -> bool {
        *next == *self
    }

    fn write(&mut self, address: usize, value: u64) {
    }

    fn contains(&self, address: usize) -> (r: bool) {
        address >= self.start_addr && address - self.start_addr < SCB_REGION_SIZE
    }

    fn can_read(&self, address: usize) -> (r: bool) {
        address >= self.start_addr && address - self.start_addr == 0x0c
    }

    fn can_write(&self, address: usize, value: u64) -> (r: bool) {
        false
    }
}

} // verus!
