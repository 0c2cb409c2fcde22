use simulator::regions::bxcan::bit_timing::BitTiming;
use simulator::regions::bxcan::can_filter::{
    filter_read_accepted, filter_write_accepted, is_filter_offset, CANFilter, CANFilterState,
    CANFilterType, CANFilters,
};
use simulator::regions::bxcan::can_message::CANMessage;
use simulator::regions::bxcan::can_state::CANState;
use simulator::regions::bxcan::control::{encode_ier, encode_mcr, encode_msr, write_mcr};
use simulator::regions::bxcan::fifo_index::FIFOIndex;
use simulator::regions::bxcan::filter_scale::FilterScale;
use simulator::regions::bxcan::mailbox::Mailbox;
use simulator::regions::bxcan::mailboxes::TXMailbox;
use simulator::regions::bxcan::BXCanRegion;
use simulator::regions::mmio_handler::MmioHandler;

const BASE: usize = 0x4000_6400;

#[test]
fn message_accessors_and_wire_form() {
    let m = CANMessage::new(0x1234_5678, [1, 2, 3, 4, 5, 6, 7, 8], 8);
    assert_eq!(m.get_id(), 0x1234_5678);
    assert_eq!(m.get_data(), &[1, 2, 3, 4, 5, 6, 7, 8]);
    assert_eq!(m.get_dlc(), 8);
    let bytes = m.into_bytes();
    assert_eq!(bytes, vec![0x78, 0x56, 0x34, 0x12, 8, 1, 2, 3, 4, 5, 6, 7, 8]);
    let back = CANMessage::from_bytes(bytes.clone());
    assert_eq!(back.get_id(), 0x1234_5678);
    assert_eq!(back.get_dlc(), 8);
    assert_eq!(back.get_data(), &[1, 2, 3, 4, 5, 6, 7, 8]);
    assert_eq!(back.into_bytes(), bytes);
}

#[test]
fn message_from_longer_wire_form() {
    let mut wire: Vec<u8> = (1u8..=13).collect();
    wire.push(0xFF);
    let m = CANMessage::from_bytes(wire);
    assert_eq!(m.get_id(), 0x0403_0201);
    assert_eq!(m.get_dlc(), 5);
    assert_eq!(m.get_data(), &[6, 7, 8, 9, 10, 11, 12, 13]);
}

#[test]
fn mailbox_identifier_register() {
    let mut m = Mailbox::new();
    assert_eq!(m.encode_tir(), 0x4);
    // extended identifier with RTR
    m.write_tir((0x12345 << 3) | 0x4 | 0x2);
    assert_eq!(m.encode_tir(), (0x12345 << 3) | 0x4 | 0x2);
    // standard identifier: IDE reads set, TXRQ reads clear
    m.write_tir((0x123 << 21) | 0x1);
    assert_eq!(m.encode_tir(), (0x123 << 21) | 0x4);
    assert_eq!(m.encode_tsr(), 0x03);
}

#[test]
fn mailbox_identifier_read_after_write() {
    for value in [0u32, 0xFFFF_FFFF, 0x0000_0006, 0xABCD_EF01, 0x8000_0002, 0x7FFF_FFF9] {
        let mut m = Mailbox::new();
        m.write_tir(value);
        let expected = (value & if value & 0x4 != 0 { 0xFFFF_FFFE } else { 0xFFE0_0002 }) | 0x4;
        assert_eq!(m.encode_tir(), expected, "value {value:08x}");
    }
}

#[test]
fn mailbox_data_registers() {
    let mut m = Mailbox::new();
    m.write_tdlr(0x1122_3344);
    m.write_tdhr(0x5566_7788);
    assert_eq!(m.encode_tdlr(), 0x1122_3344);
    assert_eq!(m.encode_tdhr(), 0x5566_7788);
    m.write_tdlr(0xCAFE_BABE);
    assert_eq!(m.encode_tdlr(), 0xCAFE_BABE);
    assert_eq!(m.encode_tdhr(), 0x5566_7788);
    m.write_tdtr(0x1F);
    assert_eq!(m.encode_tdtr(), 0xF);
    let msg = m.into_message();
    assert_eq!(msg.get_data(), &[0xBE, 0xBA, 0xFE, 0xCA, 0x88, 0x77, 0x66, 0x55]);
    assert_eq!(msg.get_dlc(), 0xF);
}

#[test]
fn mailbox_status_and_store() {
    let mut m = Mailbox::new();
    assert!(m.is_empty());
    assert_eq!(m.encode_tsr(), 0);
    m.abort();
    assert_eq!(m.encode_tsr(), 0x03);
    m.store_message(CANMessage::new(0x42, [9; 8], 2));
    assert_eq!(m.encode_tir(), (0x42 << 3) | 0x4);
    assert_eq!(m.encode_tdtr(), 2);
    assert_eq!(m.encode_tdlr(), 0x0909_0909);
}

#[test]
fn transmit_mailboxes() {
    let mut tx = TXMailbox::new();
    assert_eq!(tx.encode_tsr(), 0x1D00_0020);
    assert_eq!(tx.read(0x008), Some(0x1D00_0020));
    assert_eq!(tx.read(0x180), Some(0x4));
    assert_eq!(tx.read(0x1B0), None);
    assert_eq!(tx.read(0x00C), None);

    assert!(tx.write(0x188, 0x0403_0201).is_none());
    assert!(tx.write(0x18C, 0x0807_0605).is_none());
    assert!(tx.write(0x184, 4).is_none());
    let sent = tx.write(0x180, (0x7FF << 21) | 0x1).expect("TXRQ hands the frame over");
    assert_eq!(sent.get_id(), 0x7FF);
    assert_eq!(sent.get_dlc(), 4);
    assert_eq!(sent.get_data(), &[1, 2, 3, 4, 5, 6, 7, 8]);
    assert_eq!(tx.encode_tsr(), 0x1D00_0023);

    assert!(tx.write(0x190, 0x4).is_none());
    assert_eq!(tx.read(0x190), Some(0x4));
    assert!(tx.write(0x008, 0x0000_8000).is_none());
    assert_eq!(tx.encode_tsr(), 0x1D00_0323);
    assert!(tx.write(0x1A0, 0x1).is_some());
    assert_eq!(tx.encode_tsr(), 0x1D03_0323);
}

#[test]
fn bit_timing_register() {
    let mut bt = BitTiming::new();
    assert_eq!(bt.encode(), 0x0023_0000);
    bt.write(0xFFFF_FFFF);
    assert_eq!(bt.encode(), 0xFF7F_03FF);
    bt.write(0x4001_0203);
    assert_eq!(bt.encode(), 0x4001_0203);
    bt.write(0x8080_0400);
    assert_eq!(bt.encode(), 0x8000_0000);
    bt.write(0x001C_0000);
    assert_eq!(bt.encode(), 0x001C_0000);
}

#[test]
fn control_and_status_words() {
    assert_eq!(encode_mcr(CANState::Sleep), 0x0001_0002);
    assert_eq!(encode_mcr(CANState::Initialization), 0x0001_0001);
    assert_eq!(encode_mcr(CANState::Ready), 0x0001_0000);
    assert_eq!(encode_msr(CANState::Sleep), 2);
    assert_eq!(encode_msr(CANState::Initialization), 1);
    assert_eq!(encode_msr(CANState::Ready), 0);
    assert_eq!(encode_ier(false, false), 0);
    assert_eq!(encode_ier(true, false), 0x02);
    assert_eq!(encode_ier(false, true), 0x10);
    assert_eq!(encode_ier(true, true), 0x12);
}

#[test]
fn control_register_transitions() {
    assert_eq!(write_mcr(CANState::Sleep, 0x1), CANState::Initialization);
    assert_eq!(write_mcr(CANState::Sleep, 0x3), CANState::Initialization);
    assert_eq!(write_mcr(CANState::Sleep, 0x0), CANState::Ready);
    assert_eq!(write_mcr(CANState::Sleep, 0x2), CANState::Sleep);
    assert_eq!(write_mcr(CANState::Initialization, 0x0), CANState::Ready);
    assert_eq!(write_mcr(CANState::Initialization, 0x1), CANState::Initialization);
    assert_eq!(write_mcr(CANState::Ready, 0x2), CANState::Sleep);
    assert_eq!(write_mcr(CANState::Ready, 0x0), CANState::Ready);
    assert_eq!(write_mcr(CANState::Ready, 0x8000), CANState::Sleep);
    assert_eq!(write_mcr(CANState::Ready, 0x1_0000), CANState::Ready);
}

#[test]
fn filter_offsets() {
    assert!(is_filter_offset(0x00));
    assert!(is_filter_offset(0x1C));
    assert!(is_filter_offset(0x40));
    assert!(is_filter_offset(0xAC));
    assert!(!is_filter_offset(0x08));
    assert!(!is_filter_offset(0xB0));
    assert!(filter_read_accepted(0x5C));
    assert!(filter_read_accepted(0xAC));
    assert!(filter_write_accepted(0x00, 0x2A1C_0E01));
    assert!(filter_write_accepted(0x00, 0x0000_0001));
    assert!(filter_write_accepted(0x0C, 0x3FFF));
    assert!(!filter_write_accepted(0x0C, 0x4000));
    assert!(filter_write_accepted(0x14, 0x3FFF));
    assert!(!filter_write_accepted(0x14, 0x4000));
    assert!(filter_write_accepted(0x1C, 0x3FFF));
    assert!(!filter_write_accepted(0x1C, 0x4000));
    assert!(filter_write_accepted(0x5C, 0));
    assert!(filter_write_accepted(0xAC, 0xFFFF_FFFF));
}

#[test]
fn filter_registers_read_after_write() {
    let mut f = CANFilters::new();
    assert_eq!(f.handle_read(0x00), Some(0x2A1C_0E01));
    assert!(f.handle_write(0x00, 0x2A1C_0E00));
    assert_eq!(f.state, CANFilterState::Active);
    assert_eq!(f.handle_read(0x00), Some(0x2A1C_0E00));
    assert!(f.handle_write(0x00, 0x2A1C_0E01));
    assert_eq!(f.state, CANFilterState::Init);
    assert_eq!(f.handle_read(0x00), Some(0x2A1C_0E01));

    assert!(f.handle_write(0x04, 0xFFFF_FFFF));
    assert_eq!(f.handle_read(0x04), Some(0x3FFF));
    assert_eq!(f.filters[13].filter_type, CANFilterType::List);
    assert!(f.handle_write(0x04, 0x1FFF));
    assert_eq!(f.filters[12].filter_type, CANFilterType::List);
    assert_eq!(f.filters[13].filter_type, CANFilterType::Mask);
    assert!(f.handle_write(0x0C, 0x2A5));
    assert_eq!(f.handle_read(0x0C), Some(0x2A5));
    assert!(f.handle_write(0x0C, 0x3FFF));
    assert_eq!(f.handle_read(0x0C), Some(0x3FFF));
    assert_eq!(f.filters[13].scale, FilterScale::Scale32Bit);
    assert!(f.handle_write(0x14, 0x155));
    assert_eq!(f.handle_read(0x14), Some(0x155));
    assert!(f.handle_write(0x14, 0x3FFF));
    assert_eq!(f.handle_read(0x14), Some(0x3FFF));
    assert_eq!(f.filters[13].fifo_assignment, FIFOIndex::FIFO1);
    assert!(f.handle_write(0x1C, 0x3FFF));
    assert_eq!(f.handle_read(0x1C), Some(0x3FFF));
    assert!(f.filters[13].activated);

    assert!(f.handle_write(0x40, 0xDEAD_BEEF));
    assert!(f.handle_write(0x44, 0x1234_5678));
    assert!(f.handle_write(0xAC, 7));
    assert!(f.handle_write(0xA8, 9));
    assert_eq!(f.handle_read(0x40), Some(0xDEAD_BEEF));
    assert_eq!(f.handle_read(0x44), Some(0x1234_5678));
    assert_eq!(f.handle_read(0xAC), Some(7));
    assert_eq!(f.handle_read(0xA8), Some(9));
    assert_eq!(f.filters[0].bank0, 0xDEAD_BEEF);
    assert_eq!(f.filters[0].bank1, 0x1234_5678);
    assert_eq!(f.filters[13].bank0, 9);
    assert_eq!(f.filters[13].bank1, 7);

    assert!(!f.handle_write(0x08, 5));
    assert_eq!(f.handle_read(0x08), None);
}

#[test]
fn filter_master_takes_finit_alone() {
    let mut f = CANFilters::new();
    assert!(f.handle_write(0x00, 0x0000_0001));
    assert_eq!(f.state, CANFilterState::Init);
    assert_eq!(f.handle_read(0x00), Some(0x2A1C_0E01));
    assert!(f.handle_write(0x00, 0x0000_0000));
    assert_eq!(f.state, CANFilterState::Active);
    assert_eq!(f.handle_read(0x00), Some(0x2A1C_0E00));
}

#[test]
fn filter_write_touches_only_its_register() {
    let mut f = CANFilters::new();
    assert!(f.handle_write(0x50, 0x77));
    assert!(f.handle_write(0x1C, 0x1));
    assert_eq!(f.handle_read(0x50), Some(0x77));
    assert_eq!(f.handle_read(0x54), Some(0));
    assert_eq!(f.handle_read(0x04), Some(0));
    assert_eq!(f.handle_read(0x14), Some(0));
    assert_eq!(f.filters[2].bank0, 0x77);
    assert_eq!(f.filters[2].bank1, 0);
    assert!(f.filters[0].activated);
    assert!(!f.filters[2].activated);
}

#[test]
fn routing_takes_first_accepting_bank() {
    let mut f = CANFilters::new();
    // nothing active: dropped
    assert_eq!(f.route_message(0x123, true), None);

    // bank 0: mask mode, id 0x100 with mask 0x700 -> accepts 0x100..=0x1FF, FIFO 1
    f.handle_write(0x40, 0x100);
    f.handle_write(0x44, 0x700);
    // bank 1: list mode, exactly 0x123, FIFO 0
    f.handle_write(0x48, 0x123);
    f.handle_write(0x04, 0b10);
    f.handle_write(0x14, 0b01);
    f.handle_write(0x1C, 0b11);

    assert_eq!(f.route_message(0x123, true), Some(FIFOIndex::FIFO1));
    assert_eq!(f.route_message(0x1FF, true), Some(FIFOIndex::FIFO1));
    assert_eq!(f.route_message(0x223, true), None);

    // with bank 0 off, bank 1 matches exactly its identifier
    f.handle_write(0x1C, 0b10);
    assert_eq!(f.route_message(0x123, true), Some(FIFOIndex::FIFO0));
    assert_eq!(f.route_message(0x124, true), None);
    // standard frames compare only 11 bits
    assert_eq!(f.route_message(0x800 | 0x123, false), Some(FIFOIndex::FIFO0));
    assert_eq!(f.route_message(0x800 | 0x123, true), None);
}

#[test]
fn default_bank_accepts_everything_when_active() {
    let mut f = CANFilters::new();
    let fresh = CANFilter::new();
    assert!(!fresh.activated);
    f.handle_write(0x1C, 0x1);
    assert_eq!(f.route_message(0x1FFF_FFFF, true), Some(FIFOIndex::FIFO0));
    assert_eq!(f.route_message(0, false), Some(FIFOIndex::FIFO0));
}

#[test]
fn controller_reset_values() {
    let mut can = BXCanRegion::new(BASE);
    assert_eq!(can.read(BASE), 0x0001_0002);
    assert_eq!(can.read(BASE + 0x004), 2);
    assert_eq!(can.read(BASE + 0x008), 0x1D00_0020);
    assert_eq!(can.read(BASE + 0x00C), 0);
    assert_eq!(can.read(BASE + 0x014), 0);
    assert_eq!(can.read(BASE + 0x018), 0);
    assert_eq!(can.read(BASE + 0x01C), 0x0023_0000);
    assert_eq!(can.read(BASE + 0x1B0), 0x4);
    assert_eq!(can.read(BASE + 0x200), 0x2A1C_0E01);
    assert!(can.contains(BASE + 0x2AF));
    assert!(!can.contains(BASE + 0x2B0));
    assert!(!can.can_read(BASE + 0x010));
    assert!(can.can_read(BASE + 0x25C));
    assert!(can.can_read(BASE + 0x2AC));
    assert!(!can.can_write(BASE + 0x008, 0));
    assert!(!can.can_write(BASE, 0x4));
    assert!(can.can_write(BASE, 0x8001));
}

#[test]
fn controller_initialisation_sequence() {
    let mut can = BXCanRegion::new(BASE);
    can.write(BASE, 0x1);
    assert_eq!(can.read(BASE + 0x004), 1);
    can.write(BASE + 0x01C, 0x001C_0003);
    assert_eq!(can.read(BASE + 0x01C), 0x001C_0003);
    can.write(BASE + 0x014, 0x12);
    assert_eq!(can.read(BASE + 0x014), 0x12);
    can.write(BASE, 0x0);
    assert!(can.take_frames().is_empty());
    assert_eq!(can.read(BASE + 0x004), 0);
    assert_eq!(can.read(BASE), 0x0001_0000);
}

#[test]
fn controller_transmit_and_receive() {
    let mut can = BXCanRegion::new(BASE);
    can.write(BASE + 0x188, 0xAABB_CCDD);
    can.write(BASE + 0x184, 3);
    can.write(BASE + 0x180, (0x55 << 3) | 0x4 | 0x1);
    let frames = can.take_frames();
    assert_eq!(frames.len(), 1);
    let sent = frames[0];
    assert_eq!(sent.get_id(), 0x55);
    assert_eq!(sent.get_dlc(), 3);
    assert_eq!(sent.get_data()[..4], [0xDD, 0xCC, 0xBB, 0xAA]);

    // no active filter: frame dropped
    assert_eq!(can.receive(CANMessage::new(0x99, [1; 8], 8)), None);
    assert_eq!(can.read(BASE + 0x1B0), 0x4);

    // bank 0 accepts everything into FIFO 0, bank 1 (list 0x77) into FIFO 1
    can.write(BASE + 0x248, 0x77);
    can.write(BASE + 0x204, 0b10);
    can.write(BASE + 0x214, 0b10);
    can.write(BASE + 0x21C, 0b10);
    assert_eq!(can.receive(CANMessage::new(0x77, [5; 8], 6)), Some(37));
    assert_eq!(can.read(BASE + 0x1C0), (0x77 << 3) | 0x4);
    assert_eq!(can.read(BASE + 0x1C4), 6);
    assert_eq!(can.read(BASE + 0x1C8), 0x0505_0505);
    can.write(BASE + 0x21C, 0b11);
    assert_eq!(can.receive(CANMessage::new(0x78, [7; 8], 1)), Some(36));
    assert_eq!(can.read(BASE + 0x1B0), (0x78 << 3) | 0x4);
    assert_eq!(can.read(BASE + 0x1BC), 0x0707_0707);
}

#[test]
fn transmit_status_after_request() {
    let mut t = TXMailbox::new();
    assert_eq!(t.encode_tsr(), 0x1D00_0020);
    let sent = t.write(0x180, 0x1);
    assert!(sent.is_some());
    assert_eq!(t.encode_tsr(), 0x1D00_0023);
    assert!(t.write(0x300, 0x1).is_none());
    assert_eq!(t.encode_tsr(), 0x1D00_0023);
}

#[test]
fn boxed_controller_starts_reset() {
    let mut can = BXCanRegion::new_boxed(BASE);
    assert_eq!(can.start_addr, BASE);
    assert_eq!(can.read(BASE + 0x008), 0x1D00_0020);
    assert_eq!(can.read(BASE + 0x200), 0x2A1C_0E01);
    can.write(BASE + 0x200, 0x2A1C_0E00);
    assert_eq!(can.read(BASE + 0x200), 0x2A1C_0E00);
}
