//! A placeholder region: every access to it is a fault.
use vstd::prelude::*;

use super::mmio_handler::MmioHandler;

verus! {

pub struct NotImplementedHandler {
    pub start_addr: usize,
    pub end_addr: usize,
}

impl NotImplementedHandler {
    pub fn new(size: usize, start_addr: usize) -> (r: Self)
        requires
            start_addr + size <= usize::MAX,
        ensures
            r.start_addr == start_addr,
            r.end_addr == start_addr + size,
    {
        let end_addr = start_addr + size;
        Self { start_addr, end_addr }
    }

    pub fn new_boxed(size: usize, start_addr: usize) -> (r: Box<Self>)
        requires
            start_addr + size <= usize::MAX,
        ensures
            r.start_addr == start_addr,
            r.end_addr == start_addr + size,
    {
        Box::new(Self::new(size, start_addr))
    }
}

impl MmioHandler for NotImplementedHandler {
    /// No read is served.
    open spec fn read_ok(&self, address: usize) -> bool {
        false
    }

    /// No write is served.
    open spec fn write_ok(&self, address: usize, value: u64) -> bool {
        false
    }

    open spec fn covers(&self, address: usize) -> bool {
        self.start_addr <= address < self.end_addr
    }

    open spec fn read_value(&self, address: usize) -> u32 {
        0
    }

    open spec fn written(&self, address: usize, value: u64, next: &Self) -> bool {
        *next == *self
    }

    open spec fn read_done(&self, address: usize, next: &Self) -> bool {
        *next == *self
    }

    fn read(&mut self, address: usize) -> (r: u32) {
        0
    }

    fn write(&mut self, address: usize, value: u64) {
    }

    fn contains(&self, address: usize) -> (r: bool) {
        address >= self.start_addr && address < self.end_addr
    }

    fn can_read(&self, address: usize) -> (r: bool) {
        false
    }

    fn can_write(&self, address: usize, value: u64) -> (r: bool) {
        false
    }
}

} // verus!
