//! The emulator control block: its only register holds the address of
//! the firmware's vector table.
use vstd::prelude::*;

use super::mmio_handler::MmioHandler;
use crate::vector_table::VectorTablePtr;

verus! {

/// Size of the emulator control block: 1 KiB.
pub const BRIDGE_REGION_SIZE: usize = 0x400;

pub struct BridgeRegion {
    pub start_addr: usize,
    pub vector_table: VectorTablePtr,
}

impl BridgeRegion {
    pub fn new(start_addr: usize) -> (r: Self)
        ensures
            r.start_addr == start_addr,
            r.vector_table.0 == 0,
    {
        Self { start_addr, vector_table: VectorTablePtr::new_null() }
    }

    pub fn new_boxed(start_addr: usize) -> (r: Box<Self>)
        ensures
            r.start_addr == start_addr,
            r.vector_table.0 == 0,
    {
        Box::new(Self::new(start_addr))
    }

    /// The vector table the firmware registered.
    pub fn get_vector_table(&self) -> (r: VectorTablePtr)
        ensures
            r == self.vector_table,
    {
        self.vector_table
    }
}

impl MmioHandler for BridgeRegion {
    /// Only the first register is served.
    open spec fn read_ok(&self, address: usize) -> bool {
        self.start_addr <= address && address - self.start_addr == 0
    }

    open spec fn write_ok(&self, address: usize, value: u64) -> bool {
        self.start_addr <= address && address - self.start_addr == 0
    }

    open spec fn covers(&self, address: usize) -> bool {
        self.start_addr <= address < self.start_addr + BRIDGE_REGION_SIZE
    }

    /// The low 32 bits of the vector table address.
    open spec fn read_value(&self, address: usize) -> u32 {
        self.vector_table.0 as u32
    }

    open spec fn read_done(&self, address: usize, next: &Self) -> bool {
        *next == *self
    }

    fn read(&mut self, address: usize) -> (r: u32) {
        self.vector_table.as_ptr() as u32
    }

    /// A write registers `value` as the vector table address.
    open spec fn written(&self, address: usize, value: u64, next: &Self) -> bool {
        &&& next.vector_table.0 == value
        &&& next.start_addr == self.start_addr
    }

    fn write(&mut self, address: usize, value: u64) {
        self.vector_table = VectorTablePtr::new(value);
    }

    fn contains(&self, address: usize) -> (r: bool) {
        self.start_addr <= address && address - self.start_addr < BRIDGE_REGION_SIZE
    }

    fn can_read(&self, address: usize) -> (r: bool) {
        self.start_addr <= address && address - self.start_addr == 0
    }

    fn can_write(&self, address: usize, value: u64) -> (r: bool) {
        self.start_addr <= address && address - self.start_addr == 0
    }
}

/// Read after write: the register reads back the low 32 bits of the vector
/// table address written to it, and that address is the registered table.
pub proof fn law_bridge_read_after_write(b: BridgeRegion, g: BridgeRegion, address: usize, value: u64)
    requires
        b.write_ok(address, value),
        b.written(address, value, &g),
    ensures
        g.read_ok(address),
        g.read_value(address) == value as u32,
        g.vector_table.0 == value,
{
}

} // verus!
