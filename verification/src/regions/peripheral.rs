//! The peripheral blocks of the simulated bus as one type, so that the bus
//! can hold them side by side.
use vstd::prelude::*;

use super::basic_timer_region::BasicTimerRegion;
use super::bridge_region::BridgeRegion;
use super::bxcan::BXCanRegion;
use super::console_uart::UARTRegion;
use super::flash_region::FlashRegion;
use super::gpio_region::GPIORegion;
use super::mmio_handler::MmioHandler;
use super::nvic_region::NVICRegion;
use super::rcc_region::RCCRegion;
use super::scb_region::SCBRegion;

verus! {

/// One peripheral block of the simulated microcontroller.  Every access is
/// served by the block the variant holds.
pub enum Peripheral {
    Flash(FlashRegion),
    Rcc(RCCRegion),
    Bridge(BridgeRegion),
    Gpio(GPIORegion),
    Uart(UARTRegion),
    Can(BXCanRegion),
    Scb(SCBRegion),
    Nvic(NVICRegion),
    Timer(BasicTimerRegion),
}

impl MmioHandler for Peripheral {
    open spec fn read_ok(&self, address: usize) -> bool {
        match self {
            Peripheral::Flash(r) => r.read_ok(address),
            Peripheral::Rcc(r) => r.read_ok(address),
            Peripheral::Bridge(r) => r.read_ok(address),
            Peripheral::Gpio(r) => r.read_ok(address),
            Peripheral::Uart(r) => r.read_ok(address),
            Peripheral::Can(r) => r.read_ok(address),
            Peripheral::Scb(r) => r.read_ok(address),
            Peripheral::Nvic(r) => r.read_ok(address),
            Peripheral::Timer(r) => r.read_ok(address),
        }
    }

    open spec fn write_ok(&self, address: usize, value: u64) -> bool {
        match self {
            Peripheral::Flash(r) => r.write_ok(address, value),
            Peripheral::Rcc(r) => r.write_ok(address, value),
            Peripheral::Bridge(r) => r.write_ok(address, value),
            Peripheral::Gpio(r) => r.write_ok(address, value),
            Peripheral::Uart(r) => r.write_ok(address, value),
            Peripheral::Can(r) => r.write_ok(address, value),
            Peripheral::Scb(r) => r.write_ok(address, value),
            Peripheral::Nvic(r) => r.write_ok(address, value),
            Peripheral::Timer(r) => r.write_ok(address, value),
        }
    }

    open spec fn covers(&self, address: usize) -> bool {
        match self {
            Peripheral::Flash(r) => r.covers(address),
            Peripheral::Rcc(r) => r.covers(address),
            Peripheral::Bridge(r) => r.covers(address),
            Peripheral::Gpio(r) => r.covers(address),
            Peripheral::Uart(r) => r.covers(address),
            Peripheral::Can(r) => r.covers(address),
            Peripheral::Scb(r) => r.covers(address),
            Peripheral::Nvic(r) => r.covers(address),
            Peripheral::Timer(r) => r.covers(address),
        }
    }

    open spec fn read_value(&self, address: usize) -> u32 {
        match self {
            Peripheral::Flash(r) => r.read_value(address),
            Peripheral::Rcc(r) => r.read_value(address),
            Peripheral::Bridge(r) => r.read_value(address),
            Peripheral::Gpio(r) => r.read_value(address),
            Peripheral::Uart(r) => r.read_value(address),
            Peripheral::Can(r) => r.read_value(address),
            Peripheral::Scb(r) => r.read_value(address),
            Peripheral::Nvic(r) => r.read_value(address),
            Peripheral::Timer(r) => r.read_value(address),
        }
    }

    /// The block stays the same kind of block and changes as its own read
    /// says.
    open spec fn read_done(&self, address: usize, next: &Self) -> bool {
        match (self, next) {
            (Peripheral::Flash(r), Peripheral::Flash(n)) => r.read_done(address, n),
            (Peripheral::Rcc(r), Peripheral::Rcc(n)) => r.read_done(address, n),
            (Peripheral::Bridge(r), Peripheral::Bridge(n)) => r.read_done(address, n),
            (Peripheral::Gpio(r), Peripheral::Gpio(n)) => r.read_done(address, n),
            (Peripheral::Uart(r), Peripheral::Uart(n)) => r.read_done(address, n),
            (Peripheral::Can(r), Peripheral::Can(n)) => r.read_done(address, n),
            (Peripheral::Scb(r), Peripheral::Scb(n)) => r.read_done(address, n),
            (Peripheral::Nvic(r), Peripheral::Nvic(n)) => r.read_done(address, n),
            (Peripheral::Timer(r), Peripheral::Timer(n)) => r.read_done(address, n),
            _ => false,
        }
    }

    /// The block stays the same kind of block and changes as its own write
    /// says.
    open spec fn written(&self, address: usize, value: u64, next: &Self) -> bool {
        match (self, next) {
            (Peripheral::Flash(r), Peripheral::Flash(n)) => r.written(address, value, n),
            (Peripheral::Rcc(r), Peripheral::Rcc(n)) => r.written(address, value, n),
            (Peripheral::Bridge(r), Peripheral::Bridge(n)) => r.written(address, value, n),
            (Peripheral::Gpio(r), Peripheral::Gpio(n)) => r.written(address, value, n),
            (Peripheral::Uart(r), Peripheral::Uart(n)) => r.written(address, value, n),
            (Peripheral::Can(r), Peripheral::Can(n)) => r.written(address, value, n),
            (Peripheral::Scb(r), Peripheral::Scb(n)) => r.written(address, value, n),
            (Peripheral::Nvic(r), Peripheral::Nvic(n)) => r.written(address, value, n),
            (Peripheral::Timer(r), Peripheral::Timer(n)) => r.written(address, value, n),
            _ => false,
        }
    }

    fn read(&mut self, address: usize) -> (r: u32) {
        match self {
            Peripheral::Flash(r) => r.read(address),
            Peripheral::Rcc(r) => r.read(address),
            Peripheral::Bridge(r) => r.read(address),
            Peripheral::Gpio(r) => r.read(address),
            Peripheral::Uart(r) => r.read(address),
            Peripheral::Can(r) => r.read(address),
            Peripheral::Scb(r) => r.read(address),
            Peripheral::Nvic(r) => r.read(address),
            Peripheral::Timer(r) => r.read(address),
        }
    }

    fn write(&mut self, address: usize, value: u64) {
        match self {
            Peripheral::Flash(r) => r.write(address, value),
            Peripheral::Rcc(r) => r.write(address, value),
            Peripheral::Bridge(r) => r.write(address, value),
            Peripheral::Gpio(r) => r.write(address, value),
            Peripheral::Uart(r) => r.write(address, value),
            Peripheral::Can(r) => r.write(address, value),
            Peripheral::Scb(r) => r.write(address, value),
            Peripheral::Nvic(r) => r.write(address, value),
            Peripheral::Timer(r) => r.write(address, value),
        }
    }

    fn contains(&self, address: usize) -> (r: bool) {
        match self {
            Peripheral::Flash(r) => r.contains(address),
            Peripheral::Rcc(r) => r.contains(address),
            Peripheral::Bridge(r) => r.contains(address),
            Peripheral::Gpio(r) => r.contains(address),
            Peripheral::Uart(r) => r.contains(address),
            Peripheral::Can(r) => r.contains(address),
            Peripheral::Scb(r) => r.contains(address),
            Peripheral::Nvic(r) => r.contains(address),
            Peripheral::Timer(r) => r.contains(address),
        }
    }

    fn can_read(&self, address: usize) -> (r: bool) {
        match self {
            Peripheral::Flash(r) => r.can_read(address),
            Peripheral::Rcc(r) => r.can_read(address),
            Peripheral::Bridge(r) => r.can_read(address),
            Peripheral::Gpio(r) => r.can_read(address),
            Peripheral::Uart(r) => r.can_read(address),
            Peripheral::Can(r) => r.can_read(address),
            Peripheral::Scb(r) => r.can_read(address),
            Peripheral::Nvic(r) => r.can_read(address),
            Peripheral::Timer(r) => r.can_read(address),
        }
    }

    fn can_write(&self, address: usize, value: u64) -> (r: bool) {
        match self {
            Peripheral::Flash(r) => r.can_write(address, value),
            Peripheral::Rcc(r) => r.can_write(address, value),
            Peripheral::Bridge(r) => r.can_write(address, value),
            Peripheral::Gpio(r) => r.can_write(address, value),
            Peripheral::Uart(r) => r.can_write(address, value),
            Peripheral::Can(r) => r.can_write(address, value),
            Peripheral::Scb(r) => r.can_write(address, value),
            Peripheral::Nvic(r) => r.can_write(address, value),
            Peripheral::Timer(r) => r.can_write(address, value),
        }
    }
}

} // verus!
