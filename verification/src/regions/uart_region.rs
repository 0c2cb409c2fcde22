//! A USART without data path: control register 1 and the baud rate
//! register.
use vstd::prelude::*;

use super::mmio_handler::MmioHandler;

verus! {

/// Size of a USART register block.
pub const UART_REGION_SIZE: usize = 0x2C;


pub struct UARTRegion {
    pub start_addr: usize,
    pub peripheral_index: u8,
    pub baud_rate_divisor: u32,
    pub cr1: u32,
}

impl UARTRegion {
    pub fn new(start_addr: usize, peripheral_index: u8) -> (r: Self)
        ensures
            r == (UARTRegion { start_addr, peripheral_index, baud_rate_divisor: 0, cr1: 0 }),
    {
        Self { start_addr, peripheral_index, baud_rate_divisor: 0, cr1: 0 }
    }

    pub fn new_boxed(start_addr: usize, peripheral_index: u8) -> (r: Box<Self>)
        ensures
            *r == (UARTRegion { start_addr, peripheral_index, baud_rate_divisor: 0, cr1: 0 }),
    {
        Box::new(Self::new(start_addr, peripheral_index))
    }

    pub fn _is_transmitter_enabled(&self) -> (r: bool)
        ensures
            r == (self.cr1 & 0x8 != 0),
    {
        self.cr1 & 0x8 != 0
    }

    pub fn _is_receiver_enabled(&self) -> (r: bool)
        ensures
            r == (self.cr1 & 0x4 != 0),
    {
        self.cr1 & 0x4 != 0
    }

    pub fn _is_driver_enabled(&self) -> (r: bool)
        ensures
            r == (self.cr1 & 0x1 != 0),
    {
        self.cr1 & 0x1 != 0
    }

    pub open spec fn offset(&self, address: usize) -> int {
        address - self.start_addr
    }
}

impl MmioHandler for UARTRegion {
    /// CR1 (offset 0) and the baud rate divisor (read at offset 0x1C).
    open spec fn read_ok(&self, address: usize) -> bool {
        self.start_addr <= address && (self.offset(address) == 0 || self.offset(address) == 0x1C)
    }

    /// CR1 when only UE, RE and TE change; BRR (offset 0x0C) always.
    open spec fn write_ok(&self, address: usize, value: u64) -> bool {
        &&& self.start_addr <= address
        &&& (self.offset(address) == 0 || self.offset(address) == 0x0C)
        &&& self.offset(address) == 0 ==> (self.cr1 ^ (value as u32)) & 0xfffffff2 == 0
    }

    open spec fn covers(&self, address: usize) -> bool {
        self.start_addr <= address < self.start_addr + UART_REGION_SIZE
    }

    open spec fn read_value(&self, address: usize) -> u32 {
        if self.offset(address) == 0 {
            self.cr1
        } else {
            self.baud_rate_divisor
        }
    }

    open spec fn read_done(&self, address: usize, next: &Self) -> bool {
        *next == *self
    }

    fn read(&mut self, address: usize) -> (r: u32) {
        let offset = address - self.start_addr;
        if offset == 0 {
            return self.cr1;
        }
        self.baud_rate_divisor
    }

    /// The USART after a write of the low 32 bits of `value`.
    open spec fn written(&self, address: usize, value: u64, next: &Self) -> bool {
        *next == (if self.offset(address) == 0 {
            UARTRegion { cr1: value as u32, ..*self }
        } else {
            UARTRegion { baud_rate_divisor: value as u32, ..*self }
        })
    }

    fn write(&mut self, address: usize, value: u64) {
        let value = value as u32;
        let offset = address - self.start_addr;
        if offset == 0x00 {
            self.cr1 = value;
            return;
        }
        self.baud_rate_divisor = value;
    }

    fn contains(&self, address: usize) -> (r: bool) {
        address >= self.start_addr && address - self.start_addr < UART_REGION_SIZE
    }

    fn can_read(&self, address: usize) -> (r: bool) {
        address >= self.start_addr && (address - self.start_addr == 0 || address - self.start_addr
            == 0x1C)
    }

    fn can_write(&self, address: usize, value: u64) -> (r: bool) {
        if address < self.start_addr {
            return false;
        }
        let off = address - self.start_addr;
        if off == 0 {
            (self.cr1 ^ (value as u32)) & 0xfffffff2 == 0
        } else {
            off == 0x0C
        }
    }
}

/// Read after write: CR1 reads back the value written to it, and the baud
/// rate divisor written at BRR (0x0C) reads back at 0x1C.
pub proof fn law_uart_read_after_write(
    u: UARTRegion,
    g: UARTRegion,
    address: usize,
    value: u64,
    read_address: usize,
)
    requires
        u.write_ok(address, value),
        u.written(address, value, &g),
        u.offset(read_address) == (if u.offset(address) == 0 {
            0int
        } else {
            0x1Cint
        }),
    ensures
        g.read_ok(read_address),
        g.read_value(read_address) == value as u32,
{
}

} // verus!
