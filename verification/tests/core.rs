use simulator::bits::{byte64_at, byte_at, pack_le, push_le64, read_le64, set_bit_if};
use simulator::bump::bump_reserve;
use simulator::context::{iced_register_to_libc_reg, Context, GpRegister, MContext};
use simulator::emulate::{
    alu, emulate_step, get_operand_value, inject_interrupt, next_rip, operands_read,
    set_operand_value, test_flags, Mnemonic, Operand, OperandValue, StepResult,
};
use simulator::hex::hex_digits;
use simulator::regions::mem_handler::MemHandler;
use simulator::regions::mmio_handler::MmioHandler;
use simulator::simulator::{DeviceState, LinkAction, LinkEvent, LinkRequest, LinkState, Simulator};
use simulator::vector_table::VectorTablePtr;

fn blank_context() -> MContext {
    MContext { gregs: [0; 23], fpregs: 0, __reserved1: [0; 8] }
}

#[test]
fn bit_helpers() {
    assert_eq!(set_bit_if(0b1000, 1, true), 0b1010);
    assert_eq!(set_bit_if(0b1000, 1, false), 0b1000);
    assert_eq!(set_bit_if(0, 31, true), 0x8000_0000);
    assert_eq!(pack_le(0x78, 0x56, 0x34, 0x12), 0x1234_5678);
    assert_eq!(byte_at(0x1234_5678, 0), 0x78);
    assert_eq!(byte_at(0x1234_5678, 3), 0x12);
    assert_eq!(byte64_at(0x0102_0304_0506_0708, 7), 0x01);
    let mut out = vec![9];
    push_le64(&mut out, 0x0102_0304_0506_0708);
    assert_eq!(out, vec![9, 8, 7, 6, 5, 4, 3, 2, 1]);
    assert_eq!(read_le64(&out, 1), 0x0102_0304_0506_0708);
}

#[test]
fn hex_rendering() {
    assert_eq!(&hex_digits(0), b"0x0000000000000000");
    assert_eq!(&hex_digits(0xDEAD_BEEF_0123_4567), b"0xdeadbeef01234567");
    assert_eq!(&hex_digits(u64::MAX), b"0xffffffffffffffff");
    assert_eq!(&hex_digits(0xA), b"0x000000000000000a");
}

#[test]
fn bump_reservations() {
    assert_eq!(bump_reserve(0, 8, 16, 1024), Some((0, 16)));
    assert_eq!(bump_reserve(1, 8, 16, 1024), Some((8, 24)));
    assert_eq!(bump_reserve(13, 16, 3, 1024), Some((16, 19)));
    assert_eq!(bump_reserve(17, 1, 5, 1024), Some((17, 22)));
    assert_eq!(bump_reserve(1000, 8, 24, 1024), Some((1000, 1024)));
    assert_eq!(bump_reserve(1001, 8, 24, 1024), None);
    assert_eq!(bump_reserve(0, 4096, 1, 1024), Some((0, 1)));
    assert_eq!(bump_reserve(1, 4096, 1, 1024), None);
}

#[test]
fn register_slots() {
    assert_eq!(iced_register_to_libc_reg(GpRegister::R8), Some(0));
    assert_eq!(iced_register_to_libc_reg(GpRegister::R15L), Some(7));
    assert_eq!(iced_register_to_libc_reg(GpRegister::EDI), Some(8));
    assert_eq!(iced_register_to_libc_reg(GpRegister::AH), Some(13));
    assert_eq!(iced_register_to_libc_reg(GpRegister::CL), Some(14));
    assert_eq!(iced_register_to_libc_reg(GpRegister::SP), Some(15));
    assert_eq!(iced_register_to_libc_reg(GpRegister::RIP), Some(16));
    assert_eq!(iced_register_to_libc_reg(GpRegister::DS), None);
    assert_eq!(iced_register_to_libc_reg(GpRegister::Other), None);
}

#[test]
fn context_register_access() {
    let mut mc = blank_context();
    mc.gregs[13] = 0x1234;
    mc.gregs[2] = -1;
    let mut ctx = Context::new(&mut mc);
    assert_eq!(ctx.get_register_value(GpRegister::EAX), Some(0x1234));
    assert_eq!(ctx.get_register_value(GpRegister::R10W), Some(u64::MAX));
    assert_eq!(ctx.get_register_value(GpRegister::CS), Some(0));
    assert_eq!(ctx.get_register_value(GpRegister::Other), None);
    ctx.write_register(GpRegister::RBX, 77);
    ctx.write_register(GpRegister::SS, 5);
    assert_eq!(ctx.get_register_value(GpRegister::BL), Some(77));
    assert_eq!(mc.gregs[11], 77);
}

#[test]
fn operand_values() {
    let mut mc = blank_context();
    mc.gregs[12] = 40;
    let ctx = Context::new(&mut mc);
    assert_eq!(get_operand_value(&ctx, Operand::Register(GpRegister::EDX)), OperandValue::Value(40));
    assert_eq!(get_operand_value(&ctx, Operand::Register(GpRegister::Other)), OperandValue::Value(0));
    assert_eq!(get_operand_value(&ctx, Operand::Immediate8(0xFF)), OperandValue::Value(0xFF));
    assert_eq!(get_operand_value(&ctx, Operand::Immediate8to32(-1)), OperandValue::Value(u64::MAX));
    assert_eq!(get_operand_value(&ctx, Operand::Immediate32to64(-2)), OperandValue::Value(u64::MAX - 1));
    assert_eq!(get_operand_value(&ctx, Operand::Memory(0x4000_0000)), OperandValue::Load(0x4000_0000));
    assert_eq!(get_operand_value(&ctx, Operand::Other), OperandValue::Value(0));
}

#[test]
fn storing_operands() {
    let mut mc = blank_context();
    let mut ctx = Context::new(&mut mc);
    assert_eq!(set_operand_value(&mut ctx, Operand::Register(GpRegister::RCX), 9), None);
    assert_eq!(set_operand_value(&mut ctx, Operand::Memory(0x4800_0014), 9), Some(0x4800_0014));
    assert_eq!(set_operand_value(&mut ctx, Operand::Immediate8(1), 9), None);
    assert_eq!(mc.gregs[14], 9);
}

#[test]
fn alu_results() {
    assert_eq!(alu(Mnemonic::Or, 0b1100, 0b1010), Some(0b1110));
    assert_eq!(alu(Mnemonic::Xor, 0b1100, 0b1010), Some(0b0110));
    assert_eq!(alu(Mnemonic::And, 0b1100, 0b1010), Some(0b1000));
    assert_eq!(alu(Mnemonic::Mov, 0b1100, 0b1010), Some(0b1010));
    assert_eq!(alu(Mnemonic::Test, 1, 1), None);
    assert_eq!(alu(Mnemonic::Unknown(7), 1, 1), None);
}

#[test]
fn test_instruction_flags() {
    // CF, PF, ZF, SF, OF cleared; other flags kept.
    assert_eq!(test_flags(0x8C5 | 0x200, 1, 1), 0x200);
    // zero result sets ZF
    assert_eq!(test_flags(0, 0xF0, 0x0F), 0x40);
    // bit 31 of the result sets SF
    assert_eq!(test_flags(0x1, 0x8000_0000, 0xFFFF_FFFF), 0x80);
    // bit 63 alone does not set SF
    assert_eq!(test_flags(0, 1 << 63, 1 << 63), 0);
}

#[test]
fn instruction_advance_and_interrupt_entry() {
    assert_eq!(next_rip(0x1000, 3), 0x1003);
    let mut mc = blank_context();
    mc.gregs[15] = 0x7000;
    mc.gregs[16] = 0x40_1234;
    let mut ctx = Context::new(&mut mc);
    assert_eq!(inject_interrupt(&mut ctx), (0x6FF8, 0x40_1234));
    assert_eq!(mc.gregs[15], 0x6FF8);
    assert_eq!(mc.gregs[16], 0x40_1234);
}

#[test]
fn vector_table_handlers() {
    let entries = [0u64, 0x100, 0, 0x300];
    let null = VectorTablePtr::new_null();
    assert!(null.is_null());
    assert_eq!(null.try_get_handler(1, &entries), None);
    let table = VectorTablePtr::new(0x0800_0000);
    assert_eq!(table.as_ptr(), 0x0800_0000);
    assert!(!table.is_null());
    assert_eq!(table.try_get_handler(0, &entries), None);
    assert_eq!(table.try_get_handler(1, &entries), Some(0x100));
    assert_eq!(table.try_get_handler(3, &entries), Some(0x300));
    assert_eq!(table.try_get_handler(4, &entries), None);
}

#[test]
fn device_interrupt_bookkeeping() {
    let entries = [0u64, 0x100];
    let mut dev = DeviceState::new();
    assert!(dev.get_vector_table().is_null());
    assert_eq!(dev.begin_interrupt(1, &entries), None);
    assert_eq!(dev.get_active_interrupt(), None);
    dev.set_vector_table(VectorTablePtr::new(0x2000));
    assert_eq!(dev.get_vector_table().as_ptr(), 0x2000);
    assert_eq!(dev.begin_interrupt(0, &entries), None);
    assert_eq!(dev.get_active_interrupt(), None);
    assert_eq!(dev.begin_interrupt(1, &entries), Some(0x100));
    assert_eq!(dev.get_active_interrupt(), Some(1));
    dev.end_interrupt();
    assert_eq!(dev.get_active_interrupt(), None);
}

#[test]
fn console_link_decisions() {
    let mut link = LinkState::new(true);
    assert_eq!(link.decide(LinkRequest::OpenChannel), LinkAction::Perform);
    assert_eq!(link.open_channel_reply(Some(12)), 12);
    assert!(link.connected);
    link.complete(true);
    assert!(link.connected);
    link.complete(false);
    assert!(!link.connected);
    assert_eq!(link.decide(LinkRequest::OpenChannel), LinkAction::ReplyNoChannel);
    assert_eq!(link.decide(LinkRequest::SendBin), LinkAction::Ignore);
    assert_eq!(link.decide(LinkRequest::Listen), LinkAction::Ignore);

    let mut other = LinkState::new(true);
    assert_eq!(other.open_channel_reply(None), 0);
    assert!(!other.connected);
}

#[test]
fn lookup_finds_first_covering_handler() {
    let handlers = vec![
        MemHandler::new(0x10, 0x1000),
        MemHandler::new(0x100, 0x1008),
        MemHandler::new(0x10, 0x2000),
    ];
    let mut sim = Simulator::new(handlers);
    assert_eq!(sim.lookup_handler(0x1004).map(|h| h.start_addr), Some(0x1000));
    assert_eq!(sim.lookup_handler(0x100C).map(|h| h.start_addr), Some(0x1000));
    assert_eq!(sim.lookup_handler(0x1010).map(|h| h.start_addr), Some(0x1008));
    assert_eq!(sim.lookup_handler(0x200F).map(|h| h.start_addr), Some(0x2000));
    assert!(sim.lookup_handler(0x2010).is_none());
    assert!(sim.lookup_handler(0).is_none());
    let h = sim.lookup_handler(0x2000).unwrap();
    h.write(0x2004, 0xAABB_CCDD);
    assert_eq!(sim.handlers[2].read(0x2004), 0xAABB_CCDD);
}

#[test]
fn memory_region_reads_back_low_word() {
    let mut mem = MemHandler::new(8, 0x100);
    assert!(mem.can_write(0x104, 0));
    assert!(!mem.can_write(0x105, 0));
    assert!(!mem.can_read(0xFF));
    assert!(mem.contains(0x107));
    assert!(!mem.contains(0x108));
    mem.write(0x104, 0x1_2233_4455);
    assert_eq!(mem.read(0x104), 0x2233_4455);
    assert_eq!(mem.mem, vec![0, 0, 0, 0, 0x55, 0x44, 0x33, 0x22]);
    assert_eq!(mem.read(0x102), 0x4455_0000);
}

#[test]
fn emulation_step_per_mnemonic() {
    assert_eq!(operands_read(Mnemonic::Mov), (false, true));
    assert_eq!(operands_read(Mnemonic::Or), (true, true));
    assert_eq!(operands_read(Mnemonic::Test), (true, true));
    assert_eq!(operands_read(Mnemonic::Unknown(7)), (false, false));
    assert_eq!(emulate_step(Mnemonic::Or, 0xF0, 0x0F, 0), StepResult::Store(0xFF));
    assert_eq!(emulate_step(Mnemonic::Xor, 0xFF, 0x0F, 0), StepResult::Store(0xF0));
    assert_eq!(emulate_step(Mnemonic::And, 0xFF, 0x0F, 0), StepResult::Store(0x0F));
    assert_eq!(emulate_step(Mnemonic::Mov, 0x55, 0x12, 0), StepResult::Store(0x12));
    assert_eq!(emulate_step(Mnemonic::Test, 0xF0, 0x0F, 0x8C5), StepResult::Flags(0x40));
    assert_eq!(emulate_step(Mnemonic::Test, 0x8000_0000, 0xFFFF_FFFF, 0x1), StepResult::Flags(0x80));
    assert_eq!(emulate_step(Mnemonic::Unknown(9), 1, 2, 3), StepResult::Unknown(9));
}

#[test]
fn bump_blocks_follow_each_other() {
    let heap = 1024 * 1024;
    let (s1, e1) = bump_reserve(0, 8, 5, heap).unwrap();
    assert_eq!((s1, e1), (0, 5));
    let (s2, e2) = bump_reserve(e1, 16, 3, heap).unwrap();
    assert_eq!((s2, e2), (16, 19));
    assert!(e1 <= s2);
    let (s3, e3) = bump_reserve(e2, 4, heap - 20, heap).unwrap();
    assert_eq!((s3, e3), (20, heap));
    assert_eq!(bump_reserve(e3, 1, 1, heap), None);
}

#[test]
fn console_link_run_of_requests() {
    let ev = |request, outcome| LinkEvent { request, outcome };
    let mut link = LinkState::new(true);
    let mut replies = Vec::new();
    let run = [
        ev(LinkRequest::OpenChannel, Some(4)),
        ev(LinkRequest::SendBin, Some(0)),
        ev(LinkRequest::OpenChannel, Some(9)),
        ev(LinkRequest::Listen, None),
        ev(LinkRequest::OpenChannel, Some(11)),
        ev(LinkRequest::SendBin, Some(0)),
    ];
    for e in run {
        if let Some(r) = link.finish(e) {
            replies.push(r);
        }
    }
    assert_eq!(replies, vec![4, 9, 0]);
    assert!(!link.connected);

    let mut fresh = LinkState::new(true);
    assert_eq!(fresh.finish(ev(LinkRequest::OpenChannel, None)), Some(0));
    assert!(!fresh.connected);
    assert_eq!(fresh.finish(ev(LinkRequest::SendBin, Some(0))), None);
    assert!(!fresh.connected);
}
