//! The saved machine context of a trapped instruction and access to its
//! general purpose registers.
use vstd::prelude::*;

verus! {

/// The general purpose registers of the saved context, in the order the
/// kernel stores them.
pub struct MContext {
    pub gregs: [i64; 23],
    pub fpregs: usize,
    pub __reserved1: [u64; 8],
}

/// The user context handed to a signal handler.
pub struct UContext {
    pub uc_flags: u64,
    pub uc_link: usize,
    pub uc_stack: [u64; 3],
    pub uc_mcontext: MContext,
    pub uc_sigmask: [u64; 16],
}

/// Registers an instruction operand can name.
#[derive(Clone, Copy, Debug, PartialEq, Eq, Structural)]
pub enum GpRegister {
    R8, R8D, R8W, R8L,
    R9, R9D, R9W, R9L,
    R10, R10D, R10W, R10L,
    R11, R11D, R11W, R11L,
    R12, R12D, R12W, R12L,
    R13, R13D, R13W, R13L,
    R14, R14D, R14W, R14L,
    R15, R15D, R15W, R15L,
    RDI, EDI, DI, DIL,
    RSI, ESI, SI, SIL,
    RBP, EBP, BP, BPL,
    RBX, EBX, BX, BL,
    RDX, EDX, DX, DL, DH,
    RAX, EAX, AX, AL, AH,
    RCX, ECX, CX, CL, CH,
    RSP, ESP, SP, SPL,
    RIP,
    ES, CS, SS, DS,
    Other,
}

/// The slot of the saved register file that holds a register (any width
/// of it), if it is one of the general purpose registers or RIP.
pub open spec fn greg_index(reg: GpRegister) -> Option<usize> {
    match reg {
        GpRegister::R8 | GpRegister::R8D | GpRegister::R8W | GpRegister::R8L => Some(0),
        GpRegister::R9 | GpRegister::R9D | GpRegister::R9W | GpRegister::R9L => Some(1),
        GpRegister::R10 | GpRegister::R10D | GpRegister::R10W | GpRegister::R10L => Some(2),
        GpRegister::R11 | GpRegister::R11D | GpRegister::R11W | GpRegister::R11L => Some(3),
        GpRegister::R12 | GpRegister::R12D | GpRegister::R12W | GpRegister::R12L => Some(4),
        GpRegister::R13 | GpRegister::R13D | GpRegister::R13W | GpRegister::R13L => Some(5),
        GpRegister::R14 | GpRegister::R14D | GpRegister::R14W | GpRegister::R14L => Some(6),
        GpRegister::R15 | GpRegister::R15D | GpRegister::R15W | GpRegister::R15L => Some(7),
        GpRegister::RDI | GpRegister::EDI | GpRegister::DI | GpRegister::DIL => Some(8),
        GpRegister::RSI | GpRegister::ESI | GpRegister::SI | GpRegister::SIL => Some(9),
        GpRegister::RBP | GpRegister::EBP | GpRegister::BP | GpRegister::BPL => Some(10),
        GpRegister::RBX | GpRegister::EBX | GpRegister::BX | GpRegister::BL => Some(11),
        GpRegister::RDX | GpRegister::EDX | GpRegister::DX | GpRegister::DL | GpRegister::DH => Some(12),
        GpRegister::RAX | GpRegister::EAX | GpRegister::AX | GpRegister::AL | GpRegister::AH => Some(13),
        GpRegister::RCX | GpRegister::ECX | GpRegister::CX | GpRegister::CL | GpRegister::CH => Some(14),
        GpRegister::RSP | GpRegister::ESP | GpRegister::SP | GpRegister::SPL => Some(15),
        GpRegister::RIP => Some(16),
        _ => None,
    }
}

/// The saved-context slot of a register.
pub fn iced_register_to_libc_reg(reg: GpRegister) -> (r: Option<usize>)
    ensures
        r == greg_index(reg),
{
    match reg {
        GpRegister::R8 | GpRegister::R8D | GpRegister::R8W | GpRegister::R8L => Some(0),
        GpRegister::R9 | GpRegister::R9D | GpRegister::R9W | GpRegister::R9L => Some(1),
        GpRegister::R10 | GpRegister::R10D | GpRegister::R10W | GpRegister::R10L => Some(2),
        GpRegister::R11 | GpRegister::R11D | GpRegister::R11W | GpRegister::R11L => Some(3),
        GpRegister::R12 | GpRegister::R12D | GpRegister::R12W | GpRegister::R12L => Some(4),
        GpRegister::R13 | GpRegister::R13D | GpRegister::R13W | GpRegister::R13L => Some(5),
        GpRegister::R14 | GpRegister::R14D | GpRegister::R14W | GpRegister::R14L => Some(6),
        GpRegister::R15 | GpRegister::R15D | GpRegister::R15W | GpRegister::R15L => Some(7),
        GpRegister::RDI | GpRegister::EDI | GpRegister::DI | GpRegister::DIL => Some(8),
        GpRegister::RSI | GpRegister::ESI | GpRegister::SI | GpRegister::SIL => Some(9),
        GpRegister::RBP | GpRegister::EBP | GpRegister::BP | GpRegister::BPL => Some(10),
        GpRegister::RBX | GpRegister::EBX | GpRegister::BX | GpRegister::BL => Some(11),
        GpRegister::RDX | GpRegister::EDX | GpRegister::DX | GpRegister::DL | GpRegister::DH => Some(12),
        GpRegister::RAX | GpRegister::EAX | GpRegister::AX | GpRegister::AL | GpRegister::AH => Some(13),
        GpRegister::RCX | GpRegister::ECX | GpRegister::CX | GpRegister::CL | GpRegister::CH => Some(14),
        GpRegister::RSP | GpRegister::ESP | GpRegister::SP | GpRegister::SPL => Some(15),
        GpRegister::RIP => Some(16),
        _ => None,
    }
}

/// Register access on a saved machine context.
pub struct Context<'a> {
    pub mcontext: &'a mut MContext,
}

impl<'a> Context<'a> {
    pub fn new(mcontext: &'a mut MContext) -> (r: Self)
        ensures
            *r.mcontext == *old(mcontext),
            *final(mcontext) == *final(r.mcontext),
    {
        Self { mcontext }
    }

    /// The 64-bit slot of a general purpose register, 0 for the segment
    /// registers ES, CS, SS and DS, and nothing for other registers.
    pub fn get_register_value(&self, reg: GpRegister) -> (r: Option<u64>)
        ensures
            r == (match greg_index(reg) {
                Some(i) => Some(old(self.mcontext).gregs[i as int] as u64),
                None => if reg == GpRegister::ES || reg == GpRegister::CS || reg == GpRegister::SS
                    || reg == GpRegister::DS {
                    Some(0u64)
                } else {
                    None
                },
            }),
    {
        if let Some(idx) = iced_register_to_libc_reg(reg) {
            return Some(self.mcontext.gregs[idx] as u64);
        }
        match reg {
            GpRegister::ES | GpRegister::CS | GpRegister::SS | GpRegister::DS => Some(0),
            _ => None,
        }
    }

    /// Stores `value` in the 64-bit slot of a general purpose register;
    /// other registers are ignored.
    pub fn write_register(&mut self, reg: GpRegister, value: u64)
        ensures
            match greg_index(reg) {
                Some(i) => (*final(self).mcontext).gregs@ == (*old(self).mcontext).gregs@.update(
                    i as int,
                    value as i64,
                ),
                None => (*final(self).mcontext).gregs == (*old(self).mcontext).gregs,
            },
            *final(old(self).mcontext) == *final(final(self).mcontext),
    {
        if let Some(idx) = iced_register_to_libc_reg(reg) {
            self.mcontext.gregs[idx] = value as i64;
        }
    }
}

/// The 64-bit register a register is a part of: RAX for EAX, AX, AL and
/// AH, RSI for ESI, SI and SIL, R8 for R8D, R8W and R8L, and so on; RIP
/// for itself.  Segment registers and the rest have none.
pub open spec fn family(reg: GpRegister) -> Option<GpRegister> {
    match reg {
        GpRegister::RAX | GpRegister::EAX | GpRegister::AX | GpRegister::AL | GpRegister::AH => Some(
            GpRegister::RAX,
        ),
        GpRegister::RCX | GpRegister::ECX | GpRegister::CX | GpRegister::CL | GpRegister::CH => Some(
            GpRegister::RCX,
        ),
        GpRegister::RDX | GpRegister::EDX | GpRegister::DX | GpRegister::DL | GpRegister::DH => Some(
            GpRegister::RDX,
        ),
        GpRegister::RBX | GpRegister::EBX | GpRegister::BX | GpRegister::BL => Some(GpRegister::RBX),
        GpRegister::RSP | GpRegister::ESP | GpRegister::SP | GpRegister::SPL => Some(GpRegister::RSP),
        GpRegister::RBP | GpRegister::EBP | GpRegister::BP | GpRegister::BPL => Some(GpRegister::RBP),
        GpRegister::RSI | GpRegister::ESI | GpRegister::SI | GpRegister::SIL => Some(GpRegister::RSI),
        GpRegister::RDI | GpRegister::EDI | GpRegister::DI | GpRegister::DIL => Some(GpRegister::RDI),
        GpRegister::R8 | GpRegister::R8D | GpRegister::R8W | GpRegister::R8L => Some(GpRegister::R8),
        GpRegister::R9 | GpRegister::R9D | GpRegister::R9W | GpRegister::R9L => Some(GpRegister::R9),
        GpRegister::R10 | GpRegister::R10D | GpRegister::R10W | GpRegister::R10L => Some(
            GpRegister::R10,
        ),
        GpRegister::R11 | GpRegister::R11D | GpRegister::R11W | GpRegister::R11L => Some(
            GpRegister::R11,
        ),
        GpRegister::R12 | GpRegister::R12D | GpRegister::R12W | GpRegister::R12L => Some(
            GpRegister::R12,
        ),
        GpRegister::R13 | GpRegister::R13D | GpRegister::R13W | GpRegister::R13L => Some(
            GpRegister::R13,
        ),
        GpRegister::R14 | GpRegister::R14D | GpRegister::R14W | GpRegister::R14L => Some(
            GpRegister::R14,
        ),
        GpRegister::R15 | GpRegister::R15D | GpRegister::R15W | GpRegister::R15L => Some(
            GpRegister::R15,
        ),
        GpRegister::RIP => Some(GpRegister::RIP),
        _ => None,
    }
}

/// Where the Linux kernel saves a 64-bit register in `gregs` on x86-64
/// (the `REG_*` numbers of `<sys/ucontext.h>`): R8..R15 at 0..7, then RDI,
/// RSI, RBP, RBX, RDX, RAX, RCX, RSP and RIP at 8..16.
pub open spec fn kernel_slot(r64: GpRegister) -> int {
    match r64 {
        GpRegister::R8 => 0,
        GpRegister::R9 => 1,
        GpRegister::R10 => 2,
        GpRegister::R11 => 3,
        GpRegister::R12 => 4,
        GpRegister::R13 => 5,
        GpRegister::R14 => 6,
        GpRegister::R15 => 7,
        GpRegister::RDI => 8,
        GpRegister::RSI => 9,
        GpRegister::RBP => 10,
        GpRegister::RBX => 11,
        GpRegister::RDX => 12,
        GpRegister::RAX => 13,
        GpRegister::RCX => 14,
        GpRegister::RSP => 15,
        GpRegister::RIP => 16,
        _ => -1,
    }
}

/// Every width of a register is kept in the kernel's slot of its 64-bit
/// register; a register outside the general purpose families and RIP has
/// no slot.
pub proof fn law_register_slot_of_family(reg: GpRegister)
    ensures
        greg_index(reg) == (match family(reg) {
            Some(r64) => Some(kernel_slot(r64) as usize),
            None => None,
        }),
        greg_index(reg) is Some ==> greg_index(reg)->0 < 17,
{
}

/// Different register families are kept in different slots: two registers
/// share a slot exactly when they are parts of the same 64-bit register.
pub proof fn law_register_slots_distinct(r1: GpRegister, r2: GpRegister)
    requires
        greg_index(r1) is Some,
        greg_index(r2) is Some,
    ensures
        (greg_index(r1) == greg_index(r2)) == (family(r1) == family(r2)),
{
}

} // verus!
