//! Linux system call numbers, flags and records the firmware side uses to
//! install its signal handlers.
use vstd::prelude::*;

verus! {

pub const F_SETOWN: i32 = 8;

pub const F_SETFL: i32 = 4;

pub const O_ASYNC: i32 = 0o20000;

pub const O_NONBLOCK: i32 = 0o4000;

pub const SA_SIGINFO: u64 = 0x00000004;

pub const SA_RESTORER: u64 = 0x04000000;

pub const SA_NODEFER: u64 = 0x40000000;

pub const SIGSEGV: i32 = 11;

pub const SIGIO: i32 = 29;

pub const SA_SIGINFO_FULL: u64 = SA_SIGINFO | SA_RESTORER;

/// The kernel's `sigaction` record.
#[derive(Clone, Copy, Debug)]
pub struct SigAction {
    pub sa_handler: usize,
    pub sa_flags: u64,
    pub sa_restorer: usize,
    pub sa_mask: u64,
}

} // verus!
