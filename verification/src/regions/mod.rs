//! Memory-mapped peripheral regions.
pub mod basic_timer_region;
pub mod bridge_region;
pub mod bxcan;
pub mod bxcan_basic;
pub mod bxcan_inline;
pub mod console_uart;
pub mod filter_bank;
pub mod flash_region;
pub mod gpio_region;
pub mod mem_handler;
pub mod mmio_handler;
pub mod not_implemented_handler;
pub mod nvic_region;
pub mod peripheral;
pub mod rcc_region;
pub mod scb_region;
pub mod uart_region;
