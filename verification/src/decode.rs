//! Decoding the instruction that trapped: the decoder of `iced-x86` reads
//! the bytes at the faulting instruction, and its answer is brought into
//! the library's operand model.
use vstd::prelude::*;

use iced_x86::{Decoder, DecoderOptions, MemorySize, OpKind};

use crate::context::{family, greg_index, GpRegister};
use crate::emulate::{Mnemonic, Operand};
use crate::protocol::AccessSize;

verus! {

/// An operand as the decoder reports it: a register by its number in the
/// decoder's register list, an immediate as stored in the instruction, a
/// memory operand, or anything else.
#[derive(Clone, Copy, Debug, PartialEq, Eq, Structural)]
pub enum RawOperand {
    Register(u8),
    Immediate8(u8),
    Immediate8_2nd(u8),
    Immediate16(u16),
    Immediate32(u32),
    Immediate64(u64),
    Immediate8to16(i16),
    Immediate8to32(i32),
    Immediate8to64(i64),
    Immediate32to64(i64),
    Memory,
    Other,
}

/// The kinds of operand the decoder reports that the emulator tells apart.
#[derive(Clone, Copy, Debug, PartialEq, Eq, Structural)]
pub enum OperandKind {
    Register,
    Immediate8,
    Immediate8_2nd,
    Immediate16,
    Immediate32,
    Immediate64,
    Immediate8to16,
    Immediate8to32,
    Immediate8to64,
    Immediate32to64,
    Memory,
    Other,
}

/// The register the decoder numbers `code`; registers the emulator does
/// not know (BH, the segment registers FS and GS, vector registers and the
/// rest) are `Other`.
pub open spec fn register_of_code(code: u8) -> GpRegister {
    match code {
        1 => GpRegister::AL,
        2 => GpRegister::CL,
        3 => GpRegister::DL,
        4 => GpRegister::BL,
        5 => GpRegister::AH,
        6 => GpRegister::CH,
        7 => GpRegister::DH,
        9 => GpRegister::SPL,
        10 => GpRegister::BPL,
        11 => GpRegister::SIL,
        12 => GpRegister::DIL,
        13 => GpRegister::R8L,
        14 => GpRegister::R9L,
        15 => GpRegister::R10L,
        16 => GpRegister::R11L,
        17 => GpRegister::R12L,
        18 => GpRegister::R13L,
        19 => GpRegister::R14L,
        20 => GpRegister::R15L,
        21 => GpRegister::AX,
        22 => GpRegister::CX,
        23 => GpRegister::DX,
        24 => GpRegister::BX,
        25 => GpRegister::SP,
        26 => GpRegister::BP,
        27 => GpRegister::SI,
        28 => GpRegister::DI,
        29 => GpRegister::R8W,
        30 => GpRegister::R9W,
        31 => GpRegister::R10W,
        32 => GpRegister::R11W,
        33 => GpRegister::R12W,
        34 => GpRegister::R13W,
        35 => GpRegister::R14W,
        36 => GpRegister::R15W,
        37 => GpRegister::EAX,
        38 => GpRegister::ECX,
        39 => GpRegister::EDX,
        40 => GpRegister::EBX,
        41 => GpRegister::ESP,
        42 => GpRegister::EBP,
        43 => GpRegister::ESI,
        44 => GpRegister::EDI,
        45 => GpRegister::R8D,
        46 => GpRegister::R9D,
        47 => GpRegister::R10D,
        48 => GpRegister::R11D,
        49 => GpRegister::R12D,
        50 => GpRegister::R13D,
        51 => GpRegister::R14D,
        52 => GpRegister::R15D,
        53 => GpRegister::RAX,
        54 => GpRegister::RCX,
        55 => GpRegister::RDX,
        56 => GpRegister::RBX,
        57 => GpRegister::RSP,
        58 => GpRegister::RBP,
        59 => GpRegister::RSI,
        60 => GpRegister::RDI,
        61 => GpRegister::R8,
        62 => GpRegister::R9,
        63 => GpRegister::R10,
        64 => GpRegister::R11,
        65 => GpRegister::R12,
        66 => GpRegister::R13,
        67 => GpRegister::R14,
        68 => GpRegister::R15,
        70 => GpRegister::RIP,
        71 => GpRegister::ES,
        72 => GpRegister::CS,
        73 => GpRegister::SS,
        74 => GpRegister::DS,
        _ => GpRegister::Other,
    }
}

/// The register the decoder numbers `code`.
pub fn gp_register_of_code(code: u8) -> (r: GpRegister)
    ensures
        r == register_of_code(code),
{
    match code {
        1 => GpRegister::AL,
        2 => GpRegister::CL,
        3 => GpRegister::DL,
        4 => GpRegister::BL,
        5 => GpRegister::AH,
        6 => GpRegister::CH,
        7 => GpRegister::DH,
        9 => GpRegister::SPL,
        10 => GpRegister::BPL,
        11 => GpRegister::SIL,
        12 => GpRegister::DIL,
        13 => GpRegister::R8L,
        14 => GpRegister::R9L,
        15 => GpRegister::R10L,
        16 => GpRegister::R11L,
        17 => GpRegister::R12L,
        18 => GpRegister::R13L,
        19 => GpRegister::R14L,
        20 => GpRegister::R15L,
        21 => GpRegister::AX,
        22 => GpRegister::CX,
        23 => GpRegister::DX,
        24 => GpRegister::BX,
        25 => GpRegister::SP,
        26 => GpRegister::BP,
        27 => GpRegister::SI,
        28 => GpRegister::DI,
        29 => GpRegister::R8W,
        30 => GpRegister::R9W,
        31 => GpRegister::R10W,
        32 => GpRegister::R11W,
        33 => GpRegister::R12W,
        34 => GpRegister::R13W,
        35 => GpRegister::R14W,
        36 => GpRegister::R15W,
        37 => GpRegister::EAX,
        38 => GpRegister::ECX,
        39 => GpRegister::EDX,
        40 => GpRegister::EBX,
        41 => GpRegister::ESP,
        42 => GpRegister::EBP,
        43 => GpRegister::ESI,
        44 => GpRegister::EDI,
        45 => GpRegister::R8D,
        46 => GpRegister::R9D,
        47 => GpRegister::R10D,
        48 => GpRegister::R11D,
        49 => GpRegister::R12D,
        50 => GpRegister::R13D,
        51 => GpRegister::R14D,
        52 => GpRegister::R15D,
        53 => GpRegister::RAX,
        54 => GpRegister::RCX,
        55 => GpRegister::RDX,
        56 => GpRegister::RBX,
        57 => GpRegister::RSP,
        58 => GpRegister::RBP,
        59 => GpRegister::RSI,
        60 => GpRegister::RDI,
        61 => GpRegister::R8,
        62 => GpRegister::R9,
        63 => GpRegister::R10,
        64 => GpRegister::R11,
        65 => GpRegister::R12,
        66 => GpRegister::R13,
        67 => GpRegister::R14,
        68 => GpRegister::R15,
        70 => GpRegister::RIP,
        71 => GpRegister::ES,
        72 => GpRegister::CS,
        73 => GpRegister::SS,
        74 => GpRegister::DS,
        _ => GpRegister::Other,
    }
}

/// The value the address computation uses for a register: its slot of the
/// saved register file, 0 for ES, CS, SS and DS, nothing for any other.
pub open spec fn register_value_of_code(gregs: Seq<i64>, code: u8) -> Option<u64> {
    let reg = register_of_code(code);
    match greg_index(reg) {
        Some(i) => Some(gregs[i as int] as u64),
        None => if reg == GpRegister::ES || reg == GpRegister::CS || reg == GpRegister::SS || reg
            == GpRegister::DS {
            Some(0u64)
        } else {
            None
        },
    }
}

/// The value the address computation uses for the register numbered `code`.
pub fn register_by_code(gregs: &[i64; 23], code: u8) -> (v: Option<u64>)
    ensures
        v == register_value_of_code(gregs@, code),
{
    let reg = gp_register_of_code(code);
    match crate::context::iced_register_to_libc_reg(reg) {
        Some(i) => Some(gregs[i] as u64),
        None => match reg {
            GpRegister::ES | GpRegister::CS | GpRegister::SS | GpRegister::DS => Some(0),
            _ => None,
        },
    }
}

/// The mnemonic the decoder reads from `code` at `ip`.
pub uninterp spec fn decoded_mnemonic(code: Seq<u8>, ip: u64) -> Mnemonic;

/// The length in bytes of the instruction the decoder reads from `code`.
pub uninterp spec fn decoded_length(code: Seq<u8>, ip: u64) -> usize;

/// The memory operand size the decoder reports.
pub uninterp spec fn decoded_access_size(code: Seq<u8>, ip: u64) -> AccessSize;

/// The kind of operand `i` the decoder reports.
pub uninterp spec fn decoded_op_kind(code: Seq<u8>, ip: u64, i: u32) -> OperandKind;

/// The number of the register of operand `i`.
pub uninterp spec fn decoded_op_register(code: Seq<u8>, ip: u64, i: u32) -> u8;

/// The instruction's 8-bit immediate.
pub uninterp spec fn decoded_immediate8(code: Seq<u8>, ip: u64) -> u8;

/// The instruction's second 8-bit immediate.
pub uninterp spec fn decoded_immediate8_2nd(code: Seq<u8>, ip: u64) -> u8;

/// The instruction's 16-bit immediate.
pub uninterp spec fn decoded_immediate16(code: Seq<u8>, ip: u64) -> u16;

/// The instruction's 32-bit immediate.
pub uninterp spec fn decoded_immediate32(code: Seq<u8>, ip: u64) -> u32;

/// The instruction's 64-bit immediate.
pub uninterp spec fn decoded_immediate64(code: Seq<u8>, ip: u64) -> u64;

/// The instruction's 8-bit immediate, sign-extended to 16 bits.
pub uninterp spec fn decoded_immediate8to16(code: Seq<u8>, ip: u64) -> i16;

/// The instruction's 8-bit immediate, sign-extended to 32 bits.
pub uninterp spec fn decoded_immediate8to32(code: Seq<u8>, ip: u64) -> i32;

/// The instruction's 8-bit immediate, sign-extended to 64 bits.
pub uninterp spec fn decoded_immediate8to64(code: Seq<u8>, ip: u64) -> i64;

/// The instruction's 32-bit immediate, sign-extended to 64 bits.
pub uninterp spec fn decoded_immediate32to64(code: Seq<u8>, ip: u64) -> i64;

/// The address of memory operand `i`, with the registers taken from the
/// saved register file `gregs`.
pub uninterp spec fn decoded_address(code: Seq<u8>, ip: u64, i: u32, gregs: Seq<i64>) -> Option<u64>;

/// Decodes `code` at `ip` in 64-bit mode (`Decoder::with_ip`, then
/// `Decoder::decode`) and reads `Instruction::mnemonic` of the decoded
/// instruction, with the mnemonics the emulator carries out told apart and any
/// other one kept by its number.  The result is a function of the bytes and the
/// address alone.
#[verifier::external_body]
fn decode_mnemonic(code: &[u8], ip: u64) -> (m: Mnemonic)
    ensures
        m == decoded_mnemonic(code@, ip),
{
    match Decoder::with_ip(64, code, ip, DecoderOptions::NONE).decode().mnemonic() {
        iced_x86::Mnemonic::Or => Mnemonic::Or,
        iced_x86::Mnemonic::Xor => Mnemonic::Xor,
        iced_x86::Mnemonic::And => Mnemonic::And,
        iced_x86::Mnemonic::Mov => Mnemonic::Mov,
        iced_x86::Mnemonic::Test => Mnemonic::Test,
        other => Mnemonic::Unknown(other as u32),
    }
}

/// Decodes `code` at `ip` in 64-bit mode (`Decoder::with_ip`, then
/// `Decoder::decode`) and reads `Instruction::len` of the decoded instruction;
/// a function of the bytes and the address alone.
#[verifier::external_body]
fn decode_length(code: &[u8], ip: u64) -> (n: usize)
    ensures
        n == decoded_length(code@, ip),
{
    Decoder::with_ip(64, code, ip, DecoderOptions::NONE).decode().len()
}

/// Decodes `code` at `ip` in 64-bit mode (`Decoder::with_ip`, then
/// `Decoder::decode`) and reads `Instruction::memory_size` of the decoded
/// instruction, with the integer sizes told apart; a function of the bytes and
/// the address alone.
#[verifier::external_body]
fn decode_access_size(code: &[u8], ip: u64) -> (s: AccessSize)
    ensures
        s == decoded_access_size(code@, ip),
{
    match Decoder::with_ip(64, code, ip, DecoderOptions::NONE).decode().memory_size() {
        MemorySize::UInt8 => AccessSize::UInt8,
        MemorySize::Int8 => AccessSize::Int8,
        MemorySize::UInt16 => AccessSize::UInt16,
        MemorySize::Int16 => AccessSize::Int16,
        MemorySize::UInt32 => AccessSize::UInt32,
        MemorySize::Int32 => AccessSize::Int32,
        MemorySize::UInt64 => AccessSize::UInt64,
        MemorySize::Int64 => AccessSize::Int64,
        _ => AccessSize::Other,
    }
}

/// Decodes `code` at `ip` in 64-bit mode (`Decoder::with_ip`, then
/// `Decoder::decode`) and reads `Instruction::op_kind` of operand `i` (at most
/// 4), with the kinds the emulator handles told apart; a function of the bytes,
/// the address and `i`.
#[verifier::external_body]
fn decode_op_kind(code: &[u8], ip: u64, i: u32) -> (k: OperandKind)
    requires
        i < 5,
    ensures
        k == decoded_op_kind(code@, ip, i),
{
    match Decoder::with_ip(64, code, ip, DecoderOptions::NONE).decode().op_kind(i) {
        OpKind::Register => OperandKind::Register,
        OpKind::Immediate8 => OperandKind::Immediate8,
        OpKind::Immediate8_2nd => OperandKind::Immediate8_2nd,
        OpKind::Immediate16 => OperandKind::Immediate16,
        OpKind::Immediate32 => OperandKind::Immediate32,
        OpKind::Immediate64 => OperandKind::Immediate64,
        OpKind::Immediate8to16 => OperandKind::Immediate8to16,
        OpKind::Immediate8to32 => OperandKind::Immediate8to32,
        OpKind::Immediate8to64 => OperandKind::Immediate8to64,
        OpKind::Immediate32to64 => OperandKind::Immediate32to64,
        OpKind::Memory => OperandKind::Memory,
        _ => OperandKind::Other,
    }
}

/// Decodes `code` at `ip` in 64-bit mode (`Decoder::with_ip`, then
/// `Decoder::decode`) and reads `Instruction::op_register` of operand `i` (at
/// most 4), by its number in the decoder's register list; a function of the
/// bytes, the address and `i`.
#[verifier::external_body]
fn decode_op_register(code: &[u8], ip: u64, i: u32) -> (r: u8)
    requires
        i < 5,
    ensures
        r == decoded_op_register(code@, ip, i),
{
    Decoder::with_ip(64, code, ip, DecoderOptions::NONE).decode().op_register(i) as u8
}

/// Decodes `code` at `ip` in 64-bit mode (`Decoder::with_ip`, then
/// `Decoder::decode`) and reads `Instruction::immediate8`; a function of the
/// bytes and the address.
#[verifier::external_body]
fn decode_immediate8(code: &[u8], ip: u64) -> (v: u8)
    ensures
        v == decoded_immediate8(code@, ip),
{
    Decoder::with_ip(64, code, ip, DecoderOptions::NONE).decode().immediate8()
}

/// Decodes `code` at `ip` in 64-bit mode (`Decoder::with_ip`, then
/// `Decoder::decode`) and reads `Instruction::immediate8_2nd`; a function of
/// the bytes and the address.
#[verifier::external_body]
fn decode_immediate8_2nd(code: &[u8], ip: u64) -> (v: u8)
    ensures
        v == decoded_immediate8_2nd(code@, ip),
{
    Decoder::with_ip(64, code, ip, DecoderOptions::NONE).decode().immediate8_2nd()
}

/// Decodes `code` at `ip` in 64-bit mode (`Decoder::with_ip`, then
/// `Decoder::decode`) and reads `Instruction::immediate16`; a function of the
/// bytes and the address.
#[verifier::external_body]
fn decode_immediate16(code: &[u8], ip: u64) -> (v: u16)
    ensures
        v == decoded_immediate16(code@, ip),
{
    Decoder::with_ip(64, code, ip, DecoderOptions::NONE).decode().immediate16()
}

/// Decodes `code` at `ip` in 64-bit mode (`Decoder::with_ip`, then
/// `Decoder::decode`) and reads `Instruction::immediate32`; a function of the
/// bytes and the address.
#[verifier::external_body]
fn decode_immediate32(code: &[u8], ip: u64) -> (v: u32)
    ensures
        v == decoded_immediate32(code@, ip),
{
    Decoder::with_ip(64, code, ip, DecoderOptions::NONE).decode().immediate32()
}

/// Decodes `code` at `ip` in 64-bit mode (`Decoder::with_ip`, then
/// `Decoder::decode`) and reads `Instruction::immediate64`; a function of the
/// bytes and the address.
#[verifier::external_body]
fn decode_immediate64(code: &[u8], ip: u64) -> (v: u64)
    ensures
        v == decoded_immediate64(code@, ip),
{
    Decoder::with_ip(64, code, ip, DecoderOptions::NONE).decode().immediate64()
}

/// Decodes `code` at `ip` in 64-bit mode (`Decoder::with_ip`, then
/// `Decoder::decode`) and reads `Instruction::immediate8to16`; a function of
/// the bytes and the address.
#[verifier::external_body]
fn decode_immediate8to16(code: &[u8], ip: u64) -> (v: i16)
    ensures
        v == decoded_immediate8to16(code@, ip),
{
    Decoder::with_ip(64, code, ip, DecoderOptions::NONE).decode().immediate8to16()
}

/// Decodes `code` at `ip` in 64-bit mode (`Decoder::with_ip`, then
/// `Decoder::decode`) and reads `Instruction::immediate8to32`; a function of
/// the bytes and the address.
#[verifier::external_body]
fn decode_immediate8to32(code: &[u8], ip: u64) -> (v: i32)
    ensures
        v == decoded_immediate8to32(code@, ip),
{
    Decoder::with_ip(64, code, ip, DecoderOptions::NONE).decode().immediate8to32()
}

/// Decodes `code` at `ip` in 64-bit mode (`Decoder::with_ip`, then
/// `Decoder::decode`) and reads `Instruction::immediate8to64`; a function of
/// the bytes and the address.
#[verifier::external_body]
fn decode_immediate8to64(code: &[u8], ip: u64) -> (v: i64)
    ensures
        v == decoded_immediate8to64(code@, ip),
{
    Decoder::with_ip(64, code, ip, DecoderOptions::NONE).decode().immediate8to64()
}

/// Decodes `code` at `ip` in 64-bit mode (`Decoder::with_ip`, then
/// `Decoder::decode`) and reads `Instruction::immediate32to64`; a function of
/// the bytes and the address.
#[verifier::external_body]
fn decode_immediate32to64(code: &[u8], ip: u64) -> (v: i64)
    ensures
        v == decoded_immediate32to64(code@, ip),
{
    Decoder::with_ip(64, code, ip, DecoderOptions::NONE).decode().immediate32to64()
}

/// Operand `i` as the decoder reports it: its kind, and the register or
/// immediate of that kind.
pub open spec fn raw_operand_of(code: Seq<u8>, ip: u64, i: u32) -> RawOperand {
    match decoded_op_kind(code, ip, i) {
        OperandKind::Register => RawOperand::Register(decoded_op_register(code, ip, i)),
        OperandKind::Immediate8 => RawOperand::Immediate8(decoded_immediate8(code, ip)),
        OperandKind::Immediate8_2nd => RawOperand::Immediate8_2nd(decoded_immediate8_2nd(code, ip)),
        OperandKind::Immediate16 => RawOperand::Immediate16(decoded_immediate16(code, ip)),
        OperandKind::Immediate32 => RawOperand::Immediate32(decoded_immediate32(code, ip)),
        OperandKind::Immediate64 => RawOperand::Immediate64(decoded_immediate64(code, ip)),
        OperandKind::Immediate8to16 => RawOperand::Immediate8to16(decoded_immediate8to16(code, ip)),
        OperandKind::Immediate8to32 => RawOperand::Immediate8to32(decoded_immediate8to32(code, ip)),
        OperandKind::Immediate8to64 => RawOperand::Immediate8to64(decoded_immediate8to64(code, ip)),
        OperandKind::Immediate32to64 => RawOperand::Immediate32to64(
            decoded_immediate32to64(code, ip),
        ),
        OperandKind::Memory => RawOperand::Memory,
        OperandKind::Other => RawOperand::Other,
    }
}

/// Operand `i` (at most 4) as the decoder reports it.
pub fn decode_operand(code: &[u8], ip: u64, i: u32) -> (op: RawOperand)
    requires
        i < 5,
    ensures
        op == raw_operand_of(code@, ip, i),
{
    match decode_op_kind(code, ip, i) {
        OperandKind::Register => RawOperand::Register(decode_op_register(code, ip, i)),
        OperandKind::Immediate8 => RawOperand::Immediate8(decode_immediate8(code, ip)),
        OperandKind::Immediate8_2nd => RawOperand::Immediate8_2nd(decode_immediate8_2nd(code, ip)),
        OperandKind::Immediate16 => RawOperand::Immediate16(decode_immediate16(code, ip)),
        OperandKind::Immediate32 => RawOperand::Immediate32(decode_immediate32(code, ip)),
        OperandKind::Immediate64 => RawOperand::Immediate64(decode_immediate64(code, ip)),
        OperandKind::Immediate8to16 => RawOperand::Immediate8to16(decode_immediate8to16(code, ip)),
        OperandKind::Immediate8to32 => RawOperand::Immediate8to32(decode_immediate8to32(code, ip)),
        OperandKind::Immediate8to64 => RawOperand::Immediate8to64(decode_immediate8to64(code, ip)),
        OperandKind::Immediate32to64 => RawOperand::Immediate32to64(
            decode_immediate32to64(code, ip),
        ),
        OperandKind::Memory => RawOperand::Memory,
        OperandKind::Other => RawOperand::Other,
    }
}

/// Decodes `code` at `ip` in 64-bit mode (`Decoder::with_ip`, then
/// `Decoder::decode`) and reads `Instruction::virtual_address` of operand `i`
/// (at most 4), the decoder asking the registers' values of
/// [`register_by_code`]; a function of the bytes, the address, `i` and the
/// register file.
#[verifier::external_body]
fn decode_address(code: &[u8], ip: u64, i: u32, gregs: &[i64; 23]) -> (a: Option<u64>)
    requires
        i < 5,
    ensures
        a == decoded_address(code@, ip, i, gregs@),
{
    Decoder::with_ip(64, code, ip, DecoderOptions::NONE).decode().virtual_address(i, 0, |reg, _, _| register_by_code(gregs, reg as u8))
}

/// The library's operand for a decoded one: registers by name, immediates
/// as stored, a memory operand at `address` (0 when the decoder could not
/// compute it).
pub open spec fn operand_of_raw(raw: RawOperand, address: Option<u64>) -> Operand {
    match raw {
        RawOperand::Register(c) => Operand::Register(register_of_code(c)),
        RawOperand::Immediate8(v) => Operand::Immediate8(v),
        RawOperand::Immediate8_2nd(v) => Operand::Immediate8_2nd(v),
        RawOperand::Immediate16(v) => Operand::Immediate16(v),
        RawOperand::Immediate32(v) => Operand::Immediate32(v),
        RawOperand::Immediate64(v) => Operand::Immediate64(v),
        RawOperand::Immediate8to16(v) => Operand::Immediate8to16(v),
        RawOperand::Immediate8to32(v) => Operand::Immediate8to32(v),
        RawOperand::Immediate8to64(v) => Operand::Immediate8to64(v),
        RawOperand::Immediate32to64(v) => Operand::Immediate32to64(v),
        RawOperand::Memory => Operand::Memory(
            match address {
                Some(a) => a,
                None => 0,
            },
        ),
        RawOperand::Other => Operand::Other,
    }
}

/// The library's operand for a decoded one.
pub fn operand_from_raw(raw: RawOperand, address: Option<u64>) -> (op: Operand)
    ensures
        op == operand_of_raw(raw, address),
{
    match raw {
        RawOperand::Register(c) => Operand::Register(gp_register_of_code(c)),
        RawOperand::Immediate8(v) => Operand::Immediate8(v),
        RawOperand::Immediate8_2nd(v) => Operand::Immediate8_2nd(v),
        RawOperand::Immediate16(v) => Operand::Immediate16(v),
        RawOperand::Immediate32(v) => Operand::Immediate32(v),
        RawOperand::Immediate64(v) => Operand::Immediate64(v),
        RawOperand::Immediate8to16(v) => Operand::Immediate8to16(v),
        RawOperand::Immediate8to32(v) => Operand::Immediate8to32(v),
        RawOperand::Immediate8to64(v) => Operand::Immediate8to64(v),
        RawOperand::Immediate32to64(v) => Operand::Immediate32to64(v),
        RawOperand::Memory => Operand::Memory(
            match address {
                Some(a) => a,
                None => 0,
            },
        ),
        RawOperand::Other => Operand::Other,
    }
}

/// The trapped instruction in the library's terms: what it does, its two
/// operands (destination first), the size of its memory access and its
/// length.
#[derive(Clone, Copy, Debug)]
pub struct Trapped {
    pub mnemonic: Mnemonic,
    pub dst: Operand,
    pub src: Operand,
    pub size: AccessSize,
    pub len: usize,
}

/// The trapped instruction the decoder reads from `code` at `ip`, memory
/// operands addressed with the registers of `gregs`.
pub open spec fn trapped_of(code: Seq<u8>, ip: u64, gregs: Seq<i64>) -> Trapped {
    Trapped {
        mnemonic: decoded_mnemonic(code, ip),
        dst: operand_of_raw(raw_operand_of(code, ip, 0), decoded_address(code, ip, 0, gregs)),
        src: operand_of_raw(raw_operand_of(code, ip, 1), decoded_address(code, ip, 1, gregs)),
        size: decoded_access_size(code, ip),
        len: decoded_length(code, ip),
    }
}

/// Decodes the instruction at `ip` from its bytes `code` (the decoder reads
/// at most 15), memory operands addressed with the registers of `gregs`.
pub fn decode_trapped(code: &[u8], ip: u64, gregs: &[i64; 23]) -> (t: Trapped)
    ensures
        t == trapped_of(code@, ip, gregs@),
{
    let raw_dst = decode_operand(code, ip, 0);
    let dst_address = match raw_dst {
        RawOperand::Memory => decode_address(code, ip, 0, gregs),
        _ => None,
    };
    let raw_src = decode_operand(code, ip, 1);
    let src_address = match raw_src {
        RawOperand::Memory => decode_address(code, ip, 1, gregs),
        _ => None,
    };
    Trapped {
        mnemonic: decode_mnemonic(code, ip),
        dst: operand_from_raw(raw_dst, dst_address),
        src: operand_from_raw(raw_src, src_address),
        size: decode_access_size(code, ip),
        len: decode_length(code, ip),
    }
}

/// The width in bits of a general purpose register; 0 for the others.
pub open spec fn register_width(reg: GpRegister) -> int {
    match reg {
        GpRegister::RAX | GpRegister::RCX | GpRegister::RDX | GpRegister::RBX | GpRegister::RSP | GpRegister::RBP | GpRegister::RSI | GpRegister::RDI | GpRegister::R8 | GpRegister::R9 | GpRegister::R10 | GpRegister::R11 | GpRegister::R12 | GpRegister::R13 | GpRegister::R14 | GpRegister::R15 => 64,
        GpRegister::EAX | GpRegister::ECX | GpRegister::EDX | GpRegister::EBX | GpRegister::ESP | GpRegister::EBP | GpRegister::ESI | GpRegister::EDI | GpRegister::R8D | GpRegister::R9D | GpRegister::R10D | GpRegister::R11D | GpRegister::R12D | GpRegister::R13D | GpRegister::R14D | GpRegister::R15D => 32,
        GpRegister::AX | GpRegister::CX | GpRegister::DX | GpRegister::BX | GpRegister::SP | GpRegister::BP | GpRegister::SI | GpRegister::DI | GpRegister::R8W | GpRegister::R9W | GpRegister::R10W | GpRegister::R11W | GpRegister::R12W | GpRegister::R13W | GpRegister::R14W | GpRegister::R15W => 16,
        GpRegister::AL | GpRegister::CL | GpRegister::DL | GpRegister::BL | GpRegister::SPL | GpRegister::BPL | GpRegister::SIL | GpRegister::DIL | GpRegister::R8L | GpRegister::R9L | GpRegister::R10L | GpRegister::R11L | GpRegister::R12L | GpRegister::R13L | GpRegister::R14L | GpRegister::R15L | GpRegister::AH | GpRegister::CH | GpRegister::DH => 8,
        _ => 0,
    }
}

/// The number x86-64 gives a 64-bit register: RAX, RCX, RDX, RBX, RSP,
/// RBP, RSI, RDI as 0..7 and R8..R15 as 8..15; -1 for anything else.
pub open spec fn register_number(r64: GpRegister) -> int {
    match r64 {
        GpRegister::RAX => 0,
        GpRegister::RCX => 1,
        GpRegister::RDX => 2,
        GpRegister::RBX => 3,
        GpRegister::RSP => 4,
        GpRegister::RBP => 5,
        GpRegister::RSI => 6,
        GpRegister::RDI => 7,
        GpRegister::R8 => 8,
        GpRegister::R9 => 9,
        GpRegister::R10 => 10,
        GpRegister::R11 => 11,
        GpRegister::R12 => 12,
        GpRegister::R13 => 13,
        GpRegister::R14 => 14,
        GpRegister::R15 => 15,
        _ => -1,
    }
}

/// Whether a register is one of the high byte registers AH, CH, DH.
pub open spec fn is_high_byte(reg: GpRegister) -> bool {
    reg == GpRegister::AH || reg == GpRegister::CH || reg == GpRegister::DH
}

/// The decoder's number for a general purpose register, from its width,
/// the number of its 64-bit register and whether it is a high byte: the
/// decoder lists AL, CL, DL, BL, AH, CH, DH, BH, SPL..DIL, R8L..R15L as
/// 1..20, then the 16-, 32- and 64-bit registers in x86-64 order from 21,
/// 37 and 53, and RIP as 70.
pub open spec fn decoder_code(reg: GpRegister) -> int {
    let n = match family(reg) {
        Some(r64) => register_number(r64),
        None => -1int,
    };
    if reg == GpRegister::RIP {
        70
    } else if register_width(reg) == 64 {
        53 + n
    } else if register_width(reg) == 32 {
        37 + n
    } else if register_width(reg) == 16 {
        21 + n
    } else if is_high_byte(reg) {
        5 + n
    } else if register_width(reg) == 8 && n < 4 {
        1 + n
    } else if register_width(reg) == 8 {
        5 + n
    } else {
        -1
    }
}

/// The decoder's numbering of the general purpose registers: each code
/// from 1 to 68 other than 8 (BH, which the emulator does not know) names
/// the register whose width, 64-bit register and byte position that code
/// stands for, and 70 names RIP.
pub proof fn law_register_codes(code: u8)
    requires
        1 <= code <= 68 && code != 8 || code == 70,
    ensures
        decoder_code(register_of_code(code)) == code,
        register_width(register_of_code(code)) == (if code <= 20 {
            8int
        } else if code <= 36 {
            16
        } else if code <= 52 {
            32
        } else if code <= 68 {
            64
        } else {
            0
        }),
{
}

/// Distinct codes of general purpose registers decode to distinct
/// registers.
pub proof fn law_register_codes_distinct(c1: u8, c2: u8)
    requires
        1 <= c1 <= 68 && c1 != 8 || c1 == 70,
        1 <= c2 <= 68 && c2 != 8 || c2 == 70,
        c1 != c2,
    ensures
        register_of_code(c1) != register_of_code(c2),
{
    law_register_codes(c1);
    law_register_codes(c2);
}

} // verus!
