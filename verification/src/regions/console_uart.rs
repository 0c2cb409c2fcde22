//! A USART connected to a console channel: bytes written to the transmit
//! data register are queued for sending on the channel, bytes arriving on
//! it are queued for the receive data register.
use vstd::prelude::*;

use std::collections::VecDeque;

use super::mmio_handler::MmioHandler;

verus! {

/// Size of a USART register block.
pub const UART_REGION_SIZE: usize = 0x2C;

/// A USART with its console channel (0 when the console could not open
/// one), the queue of received bytes and the bytes written for sending.
pub struct UARTRegion {
    pub start_addr: usize,
    pub peripheral_index: u8,
    pub channel_id: u64,
    pub baud_rate_divisor: u32,
    pub cr1: u32,
    pub rx_queue: VecDeque<u8>,
    pub tx_queue: Vec<u8>,
}

impl UARTRegion {
    pub fn new(start_addr: usize, peripheral_index: u8, channel_id: u64) -> (r: Self)
        ensures
            r.start_addr == start_addr,
            r.peripheral_index == peripheral_index,
            r.channel_id == channel_id,
            r.baud_rate_divisor == 0,
            r.cr1 == 0,
            r.rx_queue@ == Seq::<u8>::empty(),
            r.tx_queue@ == Seq::<u8>::empty(),
    {
        Self {
            start_addr,
            peripheral_index,
            channel_id,
            baud_rate_divisor: 0,
            cr1: 0,
            rx_queue: VecDeque::new(),
            tx_queue: Vec::new(),
        }
    }

    pub fn _is_transmitter_enabled(&self) -> (r: bool)
        ensures
            r == (self.cr1 & 0x8 != 0),
    {
        self.cr1 & 0x8 != 0
    }

    pub fn _is_receiver_enabled(&self) -> (r: bool)
        ensures
            r == (self.cr1 & 0x4 != 0),
    {
        self.cr1 & 0x4 != 0
    }

    pub fn _is_driver_enabled(&self) -> (r: bool)
        ensures
            r == (self.cr1 & 0x1 != 0),
    {
        self.cr1 & 0x1 != 0
    }

    /// Queues bytes received on the channel.
    pub fn push_rx(&mut self, data: &[u8])
        ensures
            final(self).rx_queue@ == old(self).rx_queue@ + data@,
            final(self).start_addr == old(self).start_addr,
            final(self).peripheral_index == old(self).peripheral_index,
            final(self).channel_id == old(self).channel_id,
            final(self).baud_rate_divisor == old(self).baud_rate_divisor,
            final(self).cr1 == old(self).cr1,
            final(self).tx_queue@ == old(self).tx_queue@,
    {
        let mut i: usize = 0;
        while i < data.len()
            invariant
                i <= data@.len(),
                self.rx_queue@ == old(self).rx_queue@ + data@.subrange(0, i as int),
                self.start_addr == old(self).start_addr,
                self.peripheral_index == old(self).peripheral_index,
                self.channel_id == old(self).channel_id,
                self.baud_rate_divisor == old(self).baud_rate_divisor,
                self.cr1 == old(self).cr1,
                self.tx_queue@ == old(self).tx_queue@,
            decreases data@.len() - i,
        {
            self.rx_queue.push_back(data[i]);
            i = i + 1;
            assert(self.rx_queue@ == old(self).rx_queue@ + data@.subrange(0, i as int));
        }
        assert(data@.subrange(0, data@.len() as int) == data@);
    }

    pub open spec fn offset(&self, address: usize) -> int {
        address - self.start_addr
    }

    /// Hands over the bytes written for sending, oldest first.
    pub fn take_tx(&mut self) -> (bytes: Vec<u8>)
        ensures
            bytes@ == old(self).tx_queue@,
            final(self).tx_queue@ == Seq::<u8>::empty(),
            final(self).rx_queue@ == old(self).rx_queue@,
            final(self).start_addr == old(self).start_addr,
            final(self).peripheral_index == old(self).peripheral_index,
            final(self).channel_id == old(self).channel_id,
            final(self).baud_rate_divisor == old(self).baud_rate_divisor,
            final(self).cr1 == old(self).cr1,
    {
        let mut bytes: Vec<u8> = Vec::new();
        std::mem::swap(&mut bytes, &mut self.tx_queue);
        bytes
    }
}

impl MmioHandler for UARTRegion {
    /// CR1 (offset 0), the baud rate divisor (read at offset 0x1C) and the
    /// receive data register (0x24).
    open spec fn read_ok(&self, address: usize) -> bool {
        let off = self.offset(address);
        self.start_addr <= address && (off == 0 || off == 0x1C || off == 0x24)
    }

    /// CR1 when only UE, RE and TE change; BRR (0x0C); the transmit data
    /// register (0x28).
    open spec fn write_ok(&self, address: usize, value: u64) -> bool {
        let off = self.offset(address);
        &&& self.start_addr <= address
        &&& (off == 0 || off == 0x0C || off == 0x28)
        &&& off == 0 ==> (self.cr1 ^ (value as u32)) & 0xfffffff2 == 0
    }

    open spec fn covers(&self, address: usize) -> bool {
        self.start_addr <= address < self.start_addr + UART_REGION_SIZE
    }

    /// CR1, the baud rate divisor, or the oldest received byte (0 when none
    /// is queued).
    open spec fn read_value(&self, address: usize) -> u32 {
        let off = self.offset(address);
        if off == 0 {
            self.cr1
        } else if off == 0x1C {
            self.baud_rate_divisor
        } else if self.rx_queue@.len() > 0 {
            self.rx_queue@[0] as u32
        } else {
            0
        }
    }

    /// Reading the receive data register takes the oldest received byte.
    open spec fn read_done(&self, address: usize, next: &Self) -> bool {
        let q = self.rx_queue@;
        &&& next.rx_queue@ == (if self.offset(address) == 0x24 && q.len() > 0 {
            q.subrange(1, q.len() as int)
        } else {
            q
        })
        &&& next.tx_queue@ == self.tx_queue@
        &&& next.cr1 == self.cr1
        &&& next.baud_rate_divisor == self.baud_rate_divisor
        &&& next.channel_id == self.channel_id
        &&& next.start_addr == self.start_addr
        &&& next.peripheral_index == self.peripheral_index
    }

    /// A write takes the low 32 bits of `value` into CR1 or BRR; a byte
    /// written to the transmit data register is queued for sending when the
    /// channel is open.
    open spec fn written(&self, address: usize, value: u64, next: &Self) -> bool {
        let off = self.offset(address);
        &&& next.tx_queue@ == (if off == 0x28 && self.channel_id != 0 {
            self.tx_queue@.push(value as u8)
        } else {
            self.tx_queue@
        })
        &&& next.cr1 == (if off == 0 {
            value as u32
        } else {
            self.cr1
        })
        &&& next.baud_rate_divisor == (if off == 0x0C {
            value as u32
        } else {
            self.baud_rate_divisor
        })
        &&& next.rx_queue@ == self.rx_queue@
        &&& next.channel_id == self.channel_id
        &&& next.start_addr == self.start_addr
        &&& next.peripheral_index == self.peripheral_index
    }

    fn read(&mut self, address: usize) -> (r: u32) {
        let offset = address - self.start_addr;
        if offset == 0 {
            return self.cr1;
        }
        if offset == 0x1C {
            return self.baud_rate_divisor;
        }
        match self.rx_queue.pop_front() {
            Some(b) => b as u32,
            None => 0,
        }
    }

    fn write(&mut self, address: usize, value: u64) {
        let v = value as u32;
        let offset = address - self.start_addr;
        if offset == 0x00 {
            self.cr1 = v;
            return;
        }
        if offset == 0x0C {
            self.baud_rate_divisor = v;
            return;
        }
        if self.channel_id != 0 {
            self.tx_queue.push(value as u8);
        }
    }

    fn contains(&self, address: usize) -> (r: bool) {
        address >= self.start_addr && address - self.start_addr < UART_REGION_SIZE
    }

    fn can_read(&self, address: usize) -> (r: bool) {
        if address < self.start_addr {
            return false;
        }
        let off = address - self.start_addr;
        off == 0 || off == 0x1C || off == 0x24
    }

    fn can_write(&self, address: usize, value: u64) -> (r: bool) {
        if address < self.start_addr {
            return false;
        }
        let off = address - self.start_addr;
        if off == 0 {
            (self.cr1 ^ (value as u32)) & 0xfffffff2 == 0
        } else {
            off == 0x0C || off == 0x28
        }
    }
}

} // verus!
