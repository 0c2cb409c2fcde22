//! A plain memory region: words are stored as little-endian bytes.
use vstd::prelude::*;

use super::mmio_handler::MmioHandler;
use crate::bits::{byte_at, byte_of, lemma_word_le_of_bytes, pack_le, word_le};

verus! {

pub struct MemHandler {
    pub mem: Vec<u8>,
    pub start_addr: usize,
    pub end_addr: usize,
}

impl MemHandler {
    /// `size` zero bytes at `start_addr`.
    pub fn new(size: usize, start_addr: usize) -> (r: Self)
        requires
            start_addr + size <= usize::MAX,
        ensures
            r.mem@ == Seq::new(size as nat, |i: int| 0u8),
            r.start_addr == start_addr,
            r.end_addr == start_addr + size,
    {
        let end_addr = start_addr + size;
        let mut mem: Vec<u8> = Vec::new();
        let mut i: usize = 0;
        while i < size
            invariant
                i <= size,
                mem@ == Seq::new(i as nat, |j: int| 0u8),
            decreases size - i,
        {
            mem.push(0);
            i = i + 1;
            assert(mem@ == Seq::new(i as nat, |j: int| 0u8));
        }
        Self { mem, start_addr, end_addr }
    }

    pub fn new_boxed(size: usize, start_addr: usize) -> (r: Box<Self>)
        requires
            start_addr + size <= usize::MAX,
        ensures
            r.mem@ == Seq::new(size as nat, |i: int| 0u8),
            r.start_addr == start_addr,
            r.end_addr == start_addr + size,
    {
        Box::new(Self::new(size, start_addr))
    }

    pub open spec fn offset(&self, address: usize) -> int {
        address - self.start_addr
    }
}

impl MmioHandler for MemHandler {
    /// A whole word inside the stored bytes.
    open spec fn read_ok(&self, address: usize) -> bool {
        self.start_addr <= address && self.offset(address) + 4 <= self.mem@.len()
    }

    open spec fn write_ok(&self, address: usize, value: u64) -> bool {
        self.start_addr <= address && self.offset(address) + 4 <= self.mem@.len()
    }

    open spec fn covers(&self, address: usize) -> bool {
        self.start_addr <= address < self.end_addr
    }

    /// The four bytes at the address, little endian.
    open spec fn read_value(&self, address: usize) -> u32 {
        let o = self.offset(address);
        word_le(self.mem@[o], self.mem@[o + 1], self.mem@[o + 2], self.mem@[o + 3])
    }

    open spec fn read_done(&self, address: usize, next: &Self) -> bool {
        *next == *self
    }

    fn read(&mut self, address: usize) -> (r: u32) {
        let offset = address - self.start_addr;
        let len = self.mem.len();
        assert(offset + 4 <= len);
        pack_le(self.mem[offset], self.mem[offset + 1], self.mem[offset + 2], self.mem[offset + 3])
    }

    /// A write stores the low 32 bits of `value` at the address, little
    /// endian.
    open spec fn written(&self, address: usize, value: u64, next: &Self) -> bool {
        let o = self.offset(address);
        &&& next.mem@.len() == self.mem@.len()
        &&& forall|i: int|
            0 <= i < next.mem@.len() ==> #[trigger] next.mem@[i] == if o
                <= i < o + 4 {
                byte_of(value as u32, (i - o) as u32)
            } else {
                self.mem@[i]
            }
        &&& next.start_addr == self.start_addr
        &&& next.end_addr == self.end_addr
    }

    fn write(&mut self, address: usize, value: u64) {
        let v = value as u32;
        let offset = address - self.start_addr;
        let len = self.mem.len();
        assert(offset + 4 <= len);
        self.mem.set(offset, byte_at(v, 0));
        self.mem.set(offset + 1, byte_at(v, 1));
        self.mem.set(offset + 2, byte_at(v, 2));
        self.mem.set(offset + 3, byte_at(v, 3));
    }

    fn contains(&self, address: usize) -> (r: bool) {
        address >= self.start_addr && address < self.end_addr
    }

    fn can_read(&self, address: usize) -> (r: bool) {
        address >= self.start_addr && address - self.start_addr <= self.mem.len()
            && self.mem.len() - (address - self.start_addr) >= 4
    }

    fn can_write(&self, address: usize, value: u64) -> (r: bool) {
        address >= self.start_addr && address - self.start_addr <= self.mem.len()
            && self.mem.len() - (address - self.start_addr) >= 4
    }
}

/// Read after write: a word reads back the low 32 bits of the value written
/// to it.
pub proof fn law_mem_read_after_write(h: MemHandler, g: MemHandler, address: usize, value: u64)
    requires
        h.write_ok(address, value),
        h.written(address, value, &g),
    ensures
        g.read_ok(address),
        g.read_value(address) == value as u32,
{
    let o = h.offset(address);
    assert(g.mem@[o] == byte_of(value as u32, 0));
    assert(g.mem@[o + 1] == byte_of(value as u32, 1));
    assert(g.mem@[o + 2] == byte_of(value as u32, 2));
    assert(g.mem@[o + 3] == byte_of(value as u32, 3));
    lemma_word_le_of_bytes(value as u32);
}

} // verus!
