use simulator::context::GpRegister;
use simulator::decode::{
    decode_operand, decode_trapped, gp_register_of_code, operand_from_raw, register_by_code,
    RawOperand,
};
use simulator::emulate::{Mnemonic, Operand};
use simulator::protocol::AccessSize;

fn code(bytes: &[u8]) -> [u8; 15] {
    let mut buf = [0x90u8; 15];
    buf[..bytes.len()].copy_from_slice(bytes);
    buf
}

fn registers() -> [i64; 23] {
    let mut gregs = [0i64; 23];
    gregs[8] = 0x4800_0010; // rdi
    gregs[11] = 0x4000_6400; // rbx
    gregs[13] = 0x4002_1000; // rax
    gregs[14] = 0xE000_E100; // rcx
    gregs
}

#[test]
fn decodes_a_register_load() {
    // mov eax, [rbx]
    let t = decode_trapped(&code(&[0x8B, 0x03]), 0x40_1000, &registers());
    assert_eq!(t.mnemonic, Mnemonic::Mov);
    assert_eq!(t.dst, Operand::Register(GpRegister::EAX));
    assert_eq!(t.src, Operand::Memory(0x4000_6400));
    assert_eq!(t.size, AccessSize::UInt32);
    assert_eq!(t.len, 2);
}

#[test]
fn decodes_an_or_with_displacement() {
    // or byte [rdi+4], 0x10
    let t = decode_trapped(&code(&[0x80, 0x4F, 0x04, 0x10]), 0x40_2000, &registers());
    assert_eq!(t.mnemonic, Mnemonic::Or);
    assert_eq!(t.dst, Operand::Memory(0x4800_0014));
    assert_eq!(t.src, Operand::Immediate8(0x10));
    assert_eq!(t.size, AccessSize::UInt8);
    assert_eq!(t.len, 4);
}

#[test]
fn decodes_test_xor_and_and() {
    // test dword [rax], 0x80000000
    let t = decode_trapped(&code(&[0xF7, 0x00, 0x00, 0x00, 0x00, 0x80]), 0, &registers());
    assert_eq!(t.mnemonic, Mnemonic::Test);
    assert_eq!(t.dst, Operand::Memory(0x4002_1000));
    assert_eq!(t.src, Operand::Immediate32(0x8000_0000));
    assert_eq!(t.len, 6);
    // xor qword [rcx], rdx
    let t = decode_trapped(&code(&[0x48, 0x31, 0x11]), 0, &registers());
    assert_eq!(t.mnemonic, Mnemonic::Xor);
    assert_eq!(t.dst, Operand::Memory(0xE000_E100));
    assert_eq!(t.src, Operand::Register(GpRegister::RDX));
    assert_eq!(t.size, AccessSize::UInt64);
    assert_eq!(t.len, 3);
    // and eax, -2
    let t = decode_trapped(&code(&[0x83, 0xE0, 0xFE]), 0, &registers());
    assert_eq!(t.mnemonic, Mnemonic::And);
    assert_eq!(t.dst, Operand::Register(GpRegister::EAX));
    assert_eq!(t.src, Operand::Immediate8to32(-2));
    assert_eq!(t.len, 3);
}

#[test]
fn other_instructions_are_unknown() {
    // nop
    let t = decode_trapped(&code(&[0x90]), 0, &registers());
    assert!(matches!(t.mnemonic, Mnemonic::Unknown(_)));
    assert_eq!(t.len, 1);
}

#[test]
fn register_numbers() {
    assert_eq!(gp_register_of_code(1), GpRegister::AL);
    assert_eq!(gp_register_of_code(8), GpRegister::Other);
    assert_eq!(gp_register_of_code(53), GpRegister::RAX);
    assert_eq!(gp_register_of_code(68), GpRegister::R15);
    assert_eq!(gp_register_of_code(70), GpRegister::RIP);
    assert_eq!(gp_register_of_code(74), GpRegister::DS);
    assert_eq!(gp_register_of_code(75), GpRegister::Other);
    let gregs = registers();
    assert_eq!(register_by_code(&gregs, 53), Some(0x4002_1000));
    assert_eq!(register_by_code(&gregs, 12), Some(0x4800_0010));
    assert_eq!(register_by_code(&gregs, 72), Some(0));
    assert_eq!(register_by_code(&gregs, 8), None);
    assert_eq!(operand_from_raw(RawOperand::Register(38), None), Operand::Register(GpRegister::ECX));
    assert_eq!(operand_from_raw(RawOperand::Memory, Some(0x10)), Operand::Memory(0x10));
    assert_eq!(operand_from_raw(RawOperand::Memory, None), Operand::Memory(0));
    assert_eq!(operand_from_raw(RawOperand::Immediate16(7), Some(1)), Operand::Immediate16(7));
}

#[test]
fn raw_operands() {
    // mov rax, 0x1122334455667788
    let bytes = code(&[0x48, 0xB8, 0x88, 0x77, 0x66, 0x55, 0x44, 0x33, 0x22, 0x11]);
    assert_eq!(decode_operand(&bytes, 0, 0), RawOperand::Register(53));
    assert_eq!(decode_operand(&bytes, 0, 1), RawOperand::Immediate64(0x1122_3344_5566_7788));
    // operands past the last one read as register number 0 (no register)
    assert_eq!(decode_operand(&bytes, 0, 2), RawOperand::Register(0));
    // mov word [rbx], 0x1234
    let bytes = code(&[0x66, 0xC7, 0x03, 0x34, 0x12]);
    assert_eq!(decode_operand(&bytes, 0, 0), RawOperand::Memory);
    assert_eq!(decode_operand(&bytes, 0, 1), RawOperand::Immediate16(0x1234));
    // and qword [rax], -8 (sign-extended 8-bit immediate)
    let bytes = code(&[0x48, 0x83, 0x20, 0xF8]);
    assert_eq!(decode_operand(&bytes, 0, 1), RawOperand::Immediate8to64(-8));
}
