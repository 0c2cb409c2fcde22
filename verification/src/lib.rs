//! A verified model of the memory-mapped peripherals of an STM32F303x8
//! microcontroller, the byte protocol that carries bus accesses between the
//! firmware process and the simulator, and the instruction-level emulation
//! of trapped accesses.
pub mod bits;
pub mod bump;
pub mod context;
pub mod decode;
pub mod emulate;
pub mod hex;
pub mod ipc_protocol;
pub mod mcu_protocol;
pub mod parent;
pub mod protocol;
pub mod regions;
pub mod simulator;
pub mod syscall;
pub mod vector_table;
