//! Emulation of the instructions that trap on a simulated peripheral:
//! operand values, the result of OR, XOR, AND, MOV and TEST, and the
//! register and memory effects.
use vstd::prelude::*;

use crate::context::{greg_index, Context, GpRegister};

verus! {

/// The instructions the emulator carries out.
#[derive(Clone, Copy, Debug, PartialEq, Eq, Structural)]
pub enum Mnemonic {
    Or,
    Xor,
    And,
    Mov,
    Test,
    Unknown(u32),
}

/// An instruction operand, with its immediate already decoded.
#[derive(Clone, Copy, Debug, PartialEq, Eq, Structural)]
pub enum Operand {
    Register(GpRegister),
    Immediate8(u8),
    Immediate8_2nd(u8),
    Immediate16(u16),
    Immediate32(u32),
    Immediate64(u64),
    Immediate8to16(i16),
    Immediate8to32(i32),
    Immediate8to64(i64),
    Immediate32to64(i64),
    Memory(u64),
    Other,
}

/// The value of an operand: known, or to be loaded from a bus address.
#[derive(Clone, Copy, Debug, PartialEq, Eq, Structural)]
pub enum OperandValue {
    Value(u64),
    Load(u64),
}

/// The 64-bit value of a register in a saved register file: its slot, 0
/// for a segment register or a register without a slot.
pub open spec fn register_value(gregs: [i64; 23], reg: GpRegister) -> u64 {
    match greg_index(reg) {
        Some(i) => gregs[i as int] as u64,
        None => 0,
    }
}

/// The value of an operand: registers read from the saved context
/// (0 when the register has no slot), immediates zero- or sign-extended
/// to 64 bits, memory operands to be loaded, anything else 0.
pub open spec fn operand_value(gregs: [i64; 23], op: Operand) -> OperandValue {
    match op {
        Operand::Register(reg) => OperandValue::Value(register_value(gregs, reg)),
        Operand::Immediate8(v) => OperandValue::Value(v as u64),
        Operand::Immediate8_2nd(v) => OperandValue::Value(v as u64),
        Operand::Immediate16(v) => OperandValue::Value(v as u64),
        Operand::Immediate32(v) => OperandValue::Value(v as u64),
        Operand::Immediate64(v) => OperandValue::Value(v),
        Operand::Immediate8to16(v) => OperandValue::Value(v as u64),
        Operand::Immediate8to32(v) => OperandValue::Value(v as u64),
        Operand::Immediate8to64(v) => OperandValue::Value(v as u64),
        Operand::Immediate32to64(v) => OperandValue::Value(v as u64),
        Operand::Memory(addr) => OperandValue::Load(addr),
        Operand::Other => OperandValue::Value(0),
    }
}

/// The value an instruction stores into its first operand: the bitwise
/// OR, XOR or AND of both operands, or the second operand for MOV.  TEST
/// stores nothing.
pub open spec fn alu_result(m: Mnemonic, v1: u64, v2: u64) -> Option<u64> {
    match m {
        Mnemonic::Or => Some(v1 | v2),
        Mnemonic::Xor => Some(v1 ^ v2),
        Mnemonic::And => Some(v1 & v2),
        Mnemonic::Mov => Some(v2),
        _ => None,
    }
}

/// RFLAGS after TEST: CF, PF, ZF, SF and OF (bits 0, 2, 6, 7, 11)
/// cleared, then SF set from bit 31 of the result and ZF set when the
/// result is zero.
pub open spec fn test_flags_spec(flags: i64, v1: u64, v2: u64) -> i64 {
    let res = v1 & v2;
    let cleared = flags & !0x8C5i64;
    let sf: i64 = if res & 0x8000_0000 != 0 {
        0x80
    } else {
        0
    };
    let zf: i64 = if res == 0 {
        0x40
    } else {
        0
    };
    cleared | sf | zf
}

pub fn get_operand_value(ctx: &Context, op: Operand) -> (r: OperandValue)
    ensures
        r == operand_value(old(ctx.mcontext).gregs, op),
{
    match op {
        Operand::Register(reg) => {
            let v = ctx.get_register_value(reg);
            match v {
                Some(x) => OperandValue::Value(x),
                None => OperandValue::Value(0),
            }
        },
        Operand::Immediate8(v) => OperandValue::Value(v as u64),
        Operand::Immediate8_2nd(v) => OperandValue::Value(v as u64),
        Operand::Immediate16(v) => OperandValue::Value(v as u64),
        Operand::Immediate32(v) => OperandValue::Value(v as u64),
        Operand::Immediate64(v) => OperandValue::Value(v),
        Operand::Immediate8to16(v) => OperandValue::Value(v as u64),
        Operand::Immediate8to32(v) => OperandValue::Value(v as u64),
        Operand::Immediate8to64(v) => OperandValue::Value(v as u64),
        Operand::Immediate32to64(v) => OperandValue::Value(v as u64),
        Operand::Memory(addr) => OperandValue::Load(addr),
        Operand::Other => OperandValue::Value(0),
    }
}

/// Stores `value` into an operand: a register slot of the saved context,
/// or, for a memory operand, returns the bus address to store to.  Other
/// operands are left alone.
pub fn set_operand_value(ctx: &mut Context, op: Operand, value: u64) -> (store: Option<u64>)
    ensures
        store == (match op {
            Operand::Memory(addr) => Some(addr),
            _ => None,
        }),
        match op {
            Operand::Register(reg) => match greg_index(reg) {
                Some(i) => (*final(ctx).mcontext).gregs@ == (*old(ctx).mcontext).gregs@.update(
                    i as int,
                    value as i64,
                ),
                None => (*final(ctx).mcontext).gregs == (*old(ctx).mcontext).gregs,
            },
            _ => (*final(ctx).mcontext).gregs == (*old(ctx).mcontext).gregs,
        },
        *final(old(ctx).mcontext) == *final(final(ctx).mcontext),
{
    match op {
        Operand::Register(reg) => {
            ctx.write_register(reg, value);
            None
        },
        Operand::Memory(addr) => Some(addr),
        _ => None,
    }
}

/// The value OR, XOR, AND and MOV store.
pub fn alu(m: Mnemonic, v1: u64, v2: u64) -> (r: Option<u64>)
    ensures
        r == alu_result(m, v1, v2),
{
    match m {
        Mnemonic::Or => Some(v1 | v2),
        Mnemonic::Xor => Some(v1 ^ v2),
        Mnemonic::And => Some(v1 & v2),
        Mnemonic::Mov => Some(v2),
        _ => None,
    }
}

/// RFLAGS after TEST of `v1` and `v2`.
pub fn test_flags(flags: i64, v1: u64, v2: u64) -> (r: i64)
    ensures
        r == test_flags_spec(flags, v1, v2),
{
    let res = v1 & v2;
    let mut f = flags & !((1i64 << 0) | (1i64 << 6) | (1i64 << 7) | (1i64 << 2) | (1i64 << 11));
    proof {
        assert(!((1i64 << 0i64) | (1i64 << 6i64) | (1i64 << 7i64) | (1i64 << 2i64) | (1i64
            << 11i64)) == !0x8C5i64) by (bit_vector);
    }
    let ghost cleared = f;
    if (res & 0x80000000) != 0 {
        f |= 1 << 7;
    }
    let ghost after_sf = f;
    if res == 0 {
        f |= 1 << 6;
    }
    proof {
        assert(cleared | 0i64 == cleared && (1i64 << 7i64) == 0x80i64 && (1i64 << 6i64) == 0x40i64
            && after_sf | 0i64 == after_sf) by (bit_vector);
    }
    f
}

/// Which operands an instruction reads before it acts, destination first:
/// none for an instruction the emulator does not carry out, only the
/// source for MOV, both for OR, XOR, AND and TEST.
pub open spec fn reads_operands(m: Mnemonic) -> (bool, bool) {
    match m {
        Mnemonic::Unknown(_) => (false, false),
        Mnemonic::Mov => (false, true),
        _ => (true, true),
    }
}

/// Which operands the instruction `m` reads, destination first.
pub fn operands_read(m: Mnemonic) -> (r: (bool, bool))
    ensures
        r == reads_operands(m),
{
    match m {
        Mnemonic::Unknown(_) => (false, false),
        Mnemonic::Mov => (false, true),
        _ => (true, true),
    }
}

/// What a trapped instruction does once its operands are known: store a
/// value into its destination, set RFLAGS, or stop the program because
/// the emulator does not know the mnemonic (kept by its number).
#[derive(Clone, Copy, Debug, PartialEq, Eq, Structural)]
pub enum StepResult {
    Store(u64),
    Flags(i64),
    Unknown(u32),
}

/// The effect of instruction `m` with destination value `v1`, source value
/// `v2` and RFLAGS `flags`: OR, XOR and AND store the bitwise result, MOV
/// stores the source, TEST sets the flags of `v1 & v2`.
pub open spec fn step_spec(m: Mnemonic, v1: u64, v2: u64, flags: i64) -> StepResult {
    match m {
        Mnemonic::Or => StepResult::Store(v1 | v2),
        Mnemonic::Xor => StepResult::Store(v1 ^ v2),
        Mnemonic::And => StepResult::Store(v1 & v2),
        Mnemonic::Mov => StepResult::Store(v2),
        Mnemonic::Test => StepResult::Flags(test_flags_spec(flags, v1, v2)),
        Mnemonic::Unknown(code) => StepResult::Unknown(code),
    }
}

/// Carries out instruction `m` on the operand values `v1` (destination)
/// and `v2` (source) with RFLAGS `flags`.
pub fn emulate_step(m: Mnemonic, v1: u64, v2: u64, flags: i64) -> (r: StepResult)
    ensures
        r == step_spec(m, v1, v2, flags),
{
    match m {
        Mnemonic::Test => StepResult::Flags(test_flags(flags, v1, v2)),
        Mnemonic::Unknown(code) => StepResult::Unknown(code),
        _ => {
            let stored = alu(m, v1, v2);
            match stored {
                Some(v) => StepResult::Store(v),
                None => StepResult::Unknown(0),
            }
        },
    }
}

/// The address of the instruction after one of `len` bytes at `rip`.
pub fn next_rip(rip: u64, len: u64) -> (r: u64)
    requires
        rip + len <= u64::MAX,
    ensures
        r == rip + len,
{
    rip + len
}

/// Prepares entry to an interrupt handler: the interrupted RIP is pushed,
/// so RSP moves down by eight and the returned store (address, value)
/// writes the old RIP at the new top of stack.
pub fn inject_interrupt(ctx: &mut Context) -> (store: (u64, u64))
    requires
        (*old(ctx).mcontext).gregs[15] as u64 >= 8,
    ensures
        ({
            let rsp = (*old(ctx).mcontext).gregs[15] as u64;
            let rip = (*old(ctx).mcontext).gregs[16] as u64;
            &&& store == ((rsp - 8) as u64, rip)
            &&& (*final(ctx).mcontext).gregs@ == (*old(ctx).mcontext).gregs@.update(
                15,
                ((rsp - 8) as u64) as i64,
            )
        }),
        *final(old(ctx).mcontext) == *final(final(ctx).mcontext),
{
    let rsp = ctx.mcontext.gregs[15] as u64;
    let new_rsp = rsp - 8;
    let rip = ctx.mcontext.gregs[16] as u64;
    ctx.mcontext.gregs[15] = new_rsp as i64;
    (new_rsp, rip)
}

/// RFLAGS after TEST, flag by flag: ZF (bit 6) is set exactly when
/// `v1 & v2` is zero, SF (bit 7) exactly when bit 31 of `v1 & v2` is set,
/// CF, PF and OF (bits 0, 2 and 11) are cleared, and every other bit keeps
/// its value.  The flags depend on the operands only through `v1 & v2`.
pub proof fn law_test_flags(flags: i64, v1: u64, v2: u64)
    ensures
        ({
            let r = test_flags_spec(flags, v1, v2);
            let res = v1 & v2;
            &&& ((r >> 6i64) & 1 == 1) == (res == 0)
            &&& ((r >> 7i64) & 1 == 1) == ((res >> 31u64) & 1 == 1)
            &&& (r >> 0i64) & 1 == 0
            &&& (r >> 2i64) & 1 == 0
            &&& (r >> 11i64) & 1 == 0
            &&& r & !0x8C5i64 == flags & !0x8C5i64
        }),
        test_flags_spec(flags, v1, v2) == test_flags_spec(flags, v1 & v2, v1 & v2),
{
    let both = v1 & v2;
    let cleared = flags & !0x8C5i64;
    let sign: i64 = if both & 0x8000_0000 != 0 {
        0x80
    } else {
        0
    };
    let zero: i64 = if both == 0 {
        0x40
    } else {
        0
    };
    let r = cleared | sign | zero;
    assert(r == test_flags_spec(flags, v1, v2));
    assert(((r >> 6i64) & 1 == 1) == (both == 0) && ((r >> 7i64) & 1 == 1) == ((both >> 31u64) & 1
        == 1) && (r >> 0i64) & 1 == 0 && (r >> 2i64) & 1 == 0 && (r >> 11i64) & 1 == 0 && r
        & !0x8C5i64 == flags & !0x8C5i64) by (bit_vector)
        requires
            both == v1 & v2,
            cleared == flags & !0x8C5i64,
            sign == (if both & 0x8000_0000 != 0 {
                0x80i64
            } else {
                0i64
            }),
            zero == (if both == 0 {
                0x40i64
            } else {
                0i64
            }),
            r == cleared | sign | zero,
    ;
    assert((v1 & v2) & (v1 & v2) == v1 & v2) by (bit_vector);
}

/// What OR, XOR, AND and MOV store, bit by bit: bit `j` of the stored
/// value is the OR, XOR or AND of bit `j` of the two operands, or bit `j`
/// of the source for MOV; TEST stores nothing and sets the flags instead.
pub proof fn law_alu_bitwise(v1: u64, v2: u64, j: u64)
    requires
        j < 64,
    ensures
        ((alu_result(Mnemonic::Or, v1, v2)->0 >> j) & 1 == 1) == (((v1 >> j) & 1 == 1) || ((v2
            >> j) & 1 == 1)),
        ((alu_result(Mnemonic::Xor, v1, v2)->0 >> j) & 1 == 1) == (((v1 >> j) & 1 == 1) != ((v2
            >> j) & 1 == 1)),
        ((alu_result(Mnemonic::And, v1, v2)->0 >> j) & 1 == 1) == (((v1 >> j) & 1 == 1) && ((v2
            >> j) & 1 == 1)),
        alu_result(Mnemonic::Mov, v1, v2) == Some(v2),
        alu_result(Mnemonic::Test, v1, v2) is None,
        step_spec(Mnemonic::Test, v1, v2, 0) is Flags,
        forall|m: Mnemonic| #[trigger] alu_result(m, v1, v2) is Some ==> step_spec(m, v1, v2, 0)
            == StepResult::Store(alu_result(m, v1, v2)->0),
{
    let o = v1 | v2;
    let x = v1 ^ v2;
    let a = v1 & v2;
    assert(((o >> j) & 1 == 1) == (((v1 >> j) & 1 == 1) || ((v2 >> j) & 1 == 1)) && ((x >> j) & 1
        == 1) == (((v1 >> j) & 1 == 1) != ((v2 >> j) & 1 == 1)) && ((a >> j) & 1 == 1) == (((v1
        >> j) & 1 == 1) && ((v2 >> j) & 1 == 1))) by (bit_vector)
        requires
            j < 64,
            o == v1 | v2,
            x == v1 ^ v2,
            a == v1 & v2,
    ;
}

/// The value of an immediate operand: an unsigned immediate keeps its
/// value, a signed one is sign-extended, so that read as a signed 64-bit
/// number it is the immediate.
pub proof fn law_immediate_values(gregs: [i64; 23], a: u8, b: u16, c: u32, d: i16, e: i32, f: i64)
    ensures
        operand_value(gregs, Operand::Immediate8(a))->Value_0 == a,
        operand_value(gregs, Operand::Immediate8_2nd(a))->Value_0 == a,
        operand_value(gregs, Operand::Immediate16(b))->Value_0 == b,
        operand_value(gregs, Operand::Immediate32(c))->Value_0 == c,
        operand_value(gregs, Operand::Immediate8to16(d))->Value_0 as i64 == d,
        operand_value(gregs, Operand::Immediate8to32(e))->Value_0 as i64 == e,
        operand_value(gregs, Operand::Immediate8to64(f))->Value_0 as i64 == f,
        operand_value(gregs, Operand::Immediate32to64(f))->Value_0 as i64 == f,
        operand_value(gregs, Operand::Memory(f as u64)) == OperandValue::Load(f as u64),
{
    assert((d as u64) as i64 == d && (e as u64) as i64 == e && (f as u64) as i64 == f)
        by (bit_vector);
}

} // verus!
