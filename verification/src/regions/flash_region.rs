//! The flash interface: the access control register (ACR) and the option
//! bytes the firmware may read.
use vstd::prelude::*;

use super::mmio_handler::MmioHandler;
use crate::bits::{byte_at, byte_of, lemma_word_le_of_bytes, pack_le, word_le};

verus! {

/// Size of the flash interface register block.
pub const FLASH_REGION_SIZE: usize = 0x24;

pub struct FlashRegion {
    pub start_addr: usize,
    pub mem: [u8; 0x24],
}

impl FlashRegion {
    /// Reset contents: ACR latency field 3, option byte word all ones.
    pub fn new(start_addr: usize) -> (r: Self)
        ensures
            r.start_addr == start_addr,
            r.mem[0] == 0x03,
            forall|i: int| 1 <= i < 0x20 ==> #[trigger] r.mem[i] == 0,
            forall|i: int| 0x20 <= i < 0x24 ==> #[trigger] r.mem[i] == 0xFF,
    {
        let mut mem = [0u8; 0x24];
        mem[0] = 0x03;
        mem[0x20] = 0xFF;
        mem[0x21] = 0xFF;
        mem[0x22] = 0xFF;
        mem[0x23] = 0xFF;
        Self { start_addr, mem }
    }

    pub fn new_boxed(start_addr: usize) -> (r: Box<Self>)
        ensures
            r.start_addr == start_addr,
            r.mem[0] == 0x03,
            forall|i: int| 1 <= i < 0x20 ==> #[trigger] r.mem[i] == 0,
            forall|i: int| 0x20 <= i < 0x24 ==> #[trigger] r.mem[i] == 0xFF,
    {
        Box::new(Self::new(start_addr))
    }

    pub open spec fn offset(&self, address: usize) -> int {
        address - self.start_addr
    }
}

impl MmioHandler for FlashRegion {
    /// Reads starting in the first word (ACR) are served.
    open spec fn read_ok(&self, address: usize) -> bool {
        self.start_addr <= address && self.offset(address) <= 3
    }

    /// Only ACR can be written.
    open spec fn write_ok(&self, address: usize, value: u64) -> bool {
        self.start_addr <= address && self.offset(address) == 0
    }

    open spec fn covers(&self, address: usize) -> bool {
        self.start_addr <= address < self.start_addr + FLASH_REGION_SIZE
    }

    /// The four bytes from the offset on, little endian.
    open spec fn read_value(&self, address: usize) -> u32 {
        let o = self.offset(address);
        word_le(self.mem[o], self.mem[o + 1], self.mem[o + 2], self.mem[o + 3])
    }

    open spec fn read_done(&self, address: usize, next: &Self) -> bool {
        *next == *self
    }

    fn read(&mut self, address: usize) -> (r: u32) {
        let offset = address - self.start_addr;
        pack_le(self.mem[offset], self.mem[offset + 1], self.mem[offset + 2], self.mem[offset + 3])
    }

    /// A write stores the low 32 bits of `value` in ACR, little endian.
    open spec fn written(&self, address: usize, value: u64, next: &Self) -> bool {
        &&& forall|i: int| 0 <= i < 4 ==> #[trigger] next.mem[i] == byte_of(value as u32, i as u32)
        &&& forall|i: int| 4 <= i < 0x24 ==> #[trigger] next.mem[i] == self.mem[i]
        &&& next.start_addr == self.start_addr
    }

    fn write(&mut self, address: usize, value: u64) {
        let v = value as u32;
        self.mem[0] = byte_at(v, 0);
        self.mem[1] = byte_at(v, 1);
        self.mem[2] = byte_at(v, 2);
        self.mem[3] = byte_at(v, 3);
    }

    fn contains(&self, address: usize) -> (r: bool) {
        address >= self.start_addr && address - self.start_addr < FLASH_REGION_SIZE
    }

    fn can_read(&self, address: usize) -> (r: bool) {
        address >= self.start_addr && address - self.start_addr <= 3
    }

    fn can_write(&self, address: usize, value: u64) -> (r: bool) {
        address >= self.start_addr && address - self.start_addr == 0
    }
}

/// Read after write: ACR reads back the low 32 bits of the written value.
pub proof fn law_flash_acr_read_after_write(f: FlashRegion, g: FlashRegion, address: usize, value: u64)
    requires
        f.write_ok(address, value),
        f.written(address, value, &g),
    ensures
        g.read_ok(address),
        g.read_value(address) == value as u32,
{
    assert(g.mem[0] == byte_of(value as u32, 0));
    assert(g.mem[1] == byte_of(value as u32, 1));
    assert(g.mem[2] == byte_of(value as u32, 2));
    assert(g.mem[3] == byte_of(value as u32, 3));
    lemma_word_le_of_bytes(value as u32);
}

} // verus!
