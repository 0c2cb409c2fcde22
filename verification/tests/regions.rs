use simulator::regions::basic_timer_region::BasicTimerRegion;
use simulator::regions::bridge_region::BridgeRegion;
use simulator::regions::bxcan_basic::BXCanRegion as BasicCan;
use simulator::regions::bxcan_inline::{encode_tsr, BXCanRegion as InlineCan, Mailbox, MailboxState};
use simulator::regions::console_uart::UARTRegion as ConsoleUart;
use simulator::regions::filter_bank::FilterBank;
use simulator::regions::flash_region::FlashRegion;
use simulator::regions::gpio_region::{
    GPIOMode, GPIOOutputSpeed, GPIOPin, GPIOPort, GPIOPull, GPIORegion,
};
use simulator::regions::mmio_handler::MmioHandler;
use simulator::regions::not_implemented_handler::NotImplementedHandler;
use simulator::regions::nvic_region::NVICRegion;
use simulator::regions::rcc_region::RCCRegion;
use simulator::regions::scb_region::SCBRegion;
use simulator::regions::uart_region::UARTRegion;

const GPIO: usize = 0x4800_0000;

#[test]
fn gpio_moder_reads_back() {
    let mut port = GPIORegion::new(GPIO, GPIOPort::C);
    assert!(port.can_write(GPIO, 0x5555_AAAA));
    port.write(GPIO, 0x5555_AAAA);
    assert_eq!(port.read(GPIO), 0x5555_AAAA);
}

#[test]
fn gpio_reset_states_of_ports_a_and_b() {
    let mut a = GPIORegion::new_gpioa(GPIO);
    assert_eq!(a.read(GPIO), 0xA800_0000);
    assert_eq!(a.read(GPIO + 0x08), 0x0C00_0000);
    assert_eq!(a.read(GPIO + 0x0C), 0x9800_0000);
    assert_eq!(a.read(GPIO + 0x04), 0);
    assert_eq!(a.read(GPIO + 0x10), 0);
    assert_eq!(a.read(GPIO + 0x14), 0);
    let mut b = GPIORegion::new_gpiob(GPIO + 0x400);
    assert_eq!(b.read(GPIO + 0x400), 0x280);
    assert_eq!(b.read(GPIO + 0x408), 0xC0);
    assert_eq!(b.read(GPIO + 0x40C), 0x100);
    let mut c = GPIORegion::new_boxed(GPIO + 0x800, GPIOPort::C);
    assert_eq!(c.read(GPIO + 0x800), 0);
}

#[test]
fn gpio_registers_read_after_write() {
    let mut p = GPIORegion::new(GPIO, GPIOPort::F);
    p.write(GPIO + 0x04, 0xFFFF_8001);
    assert_eq!(p.read(GPIO + 0x04), 0x8001);
    p.write(GPIO + 0x08, 0xE4E4_1B1B);
    assert_eq!(p.read(GPIO + 0x08), 0xE4E4_1B1B);
    assert!(p.can_write(GPIO + 0x0C, 0x1212_2121));
    p.write(GPIO + 0x0C, 0x1212_2121);
    assert_eq!(p.read(GPIO + 0x0C), 0x1212_2121);
    p.write(GPIO + 0x20, 0x8765_4321);
    p.write(GPIO + 0x24, 0x0FED_CBA9);
    assert_eq!(p.read(GPIO + 0x20), 0x8765_4321);
    assert_eq!(p.read(GPIO + 0x24), 0x0FED_CBA9);
}

#[test]
fn gpio_outputs_drive_inputs() {
    let mut p = GPIORegion::new(GPIO, GPIOPort::A);
    // ODR bits of input pins may only be written with their current value
    assert!(!p.can_write(GPIO + 0x14, 0x1));
    assert!(p.can_write(GPIO + 0x14, 0x0));
    p.write(GPIO, 0x0000_0005);
    assert!(p.can_write(GPIO + 0x14, 0x3));
    assert!(!p.can_write(GPIO + 0x14, 0x4));
    p.write(GPIO + 0x14, 0x3);
    assert_eq!(p.read(GPIO + 0x14), 0x3);
    assert_eq!(p.read(GPIO + 0x10), 0x3);
    p.write(GPIO + 0x14, 0x2);
    assert_eq!(p.read(GPIO + 0x10), 0x2);
}

#[test]
fn gpio_rejected_accesses() {
    let p = GPIORegion::new(GPIO, GPIOPort::B);
    assert!(!p.can_write(GPIO + 0x0C, 0x3));
    assert!(!p.can_write(GPIO + 0x10, 0));
    assert!(!p.can_read(GPIO + 0x18));
    assert!(!p.can_read(GPIO + 0x28));
    assert!(p.can_read(GPIO + 0x24));
    assert!(p.contains(GPIO + 0x2B));
    assert!(!p.contains(GPIO + 0x2C));
}

#[test]
fn gpio_field_codes() {
    assert_eq!(GPIOMode::from_bits(2), GPIOMode::AlternateFunction);
    assert_eq!(GPIOMode::Analog.to_bits(), 3);
    assert_eq!(GPIOOutputSpeed::from_bits(1), GPIOOutputSpeed::Low1);
    assert_eq!(GPIOOutputSpeed::High.to_bits(), 3);
    assert_eq!(GPIOPull::from_bits(0), GPIOPull::NoPull);
    assert_eq!(GPIOPull::from_bits(3), GPIOPull::Reserved);
    assert_eq!(GPIOPull::PullDown.to_bits(), 2);
    let mut pin = GPIOPin::new();
    assert!(!pin.read_input());
    pin.mode = GPIOMode::Output;
    pin.write_output(true);
    assert!(pin.read_input());
}

const RCC: usize = 0x4002_1000;

#[test]
fn rcc_reset_values() {
    let mut r = RCCRegion::new(RCC);
    assert_eq!(r.read(RCC), 0x0330_0083);
    assert_eq!(r.read(RCC + 0x04), 0x0000_1B70);
    assert_eq!(r.read(RCC + 0x14), 0x14);
    assert_eq!(r.read(RCC + 0x18), 0);
    assert_eq!(r.read(RCC + 0x1C), 0);
    assert!(!r.can_read(RCC + 0x08));
    assert!(!r.can_read(RCC + 0x20));
}

#[test]
fn rcc_clock_configuration() {
    let mut r = RCCRegion::new(RCC);
    // switch the system clock to the PLL
    assert!(r.can_write(RCC + 0x04, 0x2));
    r.write(RCC + 0x04, 0x2);
    assert_eq!(r.read(RCC + 0x04), 0x0000_1B7A);
    // AHB /512 (code 15); the PLLMUL bits are not among the bits a CFGR
    // write looks at, so the multiplier keeps its reset value
    r.write(RCC + 0x04, 0x003C_00F2);
    assert_eq!(r.read(RCC + 0x04), 0x0000_1BFA);
    // the two APB fields are taken from the written value crosswise
    r.write(RCC + 0x04, 0x003C_04F2);
    assert_eq!(r.read(RCC + 0x04) >> 8 & 0x3F, 0b100_011);
    // APB codes below 4 all select "no division" and read back as 3
    r.write(RCC + 0x04, 0x003C_01F2);
    assert_eq!(r.read(RCC + 0x04) >> 8 & 0x3F, 0b011_011);
    // AHB codes below 8 read back as 7
    r.write(RCC + 0x04, 0x003C_0132);
    assert_eq!(r.read(RCC + 0x04) >> 4 & 0xF, 7);
}

#[test]
fn rcc_rejected_writes() {
    let r = RCCRegion::new(RCC);
    assert!(!r.can_write(RCC + 0x04, 0x3));
    assert!(!r.can_write(RCC + 0x04, 0x0001_0000));
    assert!(!r.can_write(RCC + 0x04, 0x0000_4000));
    assert!(!r.can_write(RCC, 0x0330_0082));
    assert!(r.can_write(RCC, 0x0330_0083 | 0x0000_0100));
    assert!(r.can_write(RCC + 0x14, 0xFFFF_FFFF));
    assert!(!r.can_write(RCC + 0x08, 0));
}

#[test]
fn rcc_enable_writes_are_ignored() {
    let mut r = RCCRegion::new(RCC);
    r.write(RCC + 0x14, 0xFFFF_FFFF);
    r.write(RCC + 0x1C, 0x1234);
    r.write(RCC, 0x0330_0083);
    assert_eq!(r.read(RCC + 0x14), 0x14);
    assert_eq!(r.read(RCC + 0x1C), 0);
    assert_eq!(r.read(RCC), 0x0330_0083);
}

const NVIC: usize = 0xE000_E100;

#[test]
fn nvic_enable_and_clear() {
    let mut n = NVICRegion::new(NVIC);
    assert_eq!(n.read(NVIC), 0);
    n.write(NVIC, 0b101);
    assert!(n.interrupts[0].enabled && n.interrupts[2].enabled && !n.interrupts[1].enabled);
    // each interrupt reads as enabled:pending at its position
    assert_eq!(n.read(NVIC), 0b1010);
    n.write(NVIC + 0x04, 0x1);
    assert!(n.interrupts[32].enabled);
    assert_eq!(n.read(NVIC + 0x04), 0x2);
    n.write(NVIC + 0x84, 0x1);
    assert!(!n.interrupts[32].enabled);
    assert_eq!(n.read(NVIC + 0x04), 0);
    // offset 0x80 is served as a set-enable register for interrupts 0..31
    n.write(NVIC + 0x80, 0x2);
    assert!(n.interrupts[1].enabled);
    assert_eq!(n.read(NVIC + 0x80), 0b1110);
}

#[test]
fn nvic_priorities_and_limits() {
    let mut n = NVICRegion::new(NVIC);
    n.write(NVIC + 0x304, 0x4000_1200);
    assert_eq!(n.interrupts[4].priority, 0);
    assert_eq!(n.interrupts[5].priority, 0x12);
    assert_eq!(n.interrupts[7].priority, 0x40);
    n.write(NVIC + 0x304, 0);
    assert_eq!(n.interrupts[5].priority, 0x12);
    // interrupts past 239 do not exist
    assert!(n.can_write(NVIC + 0x1C, 0xFFFF));
    assert!(!n.can_write(NVIC + 0x1C, 0x1_0000));
    assert!(!n.can_write(NVIC + 0x3F0, 0x1));
    assert!(n.can_write(NVIC + 0x3F0, 0));
    assert!(!n.can_write(NVIC + 0x200, 0));
    assert!(n.can_read(NVIC + 0x100));
    assert!(!n.can_read(NVIC + 0x104));
}

const TIM: usize = 0x4000_1000;

#[test]
fn timer_registers() {
    let mut t = BasicTimerRegion::new(TIM);
    assert_eq!(t.read(TIM), 0);
    assert_eq!(t.read(TIM + 0x28), 0);
    assert_eq!(t.read(TIM + 0x2C), 0);
    t.write(TIM, 0x81);
    assert_eq!(t.read(TIM), 0x81);
    assert_eq!(t.encode_cr1(), 0x81);
    t.write(TIM, 0xFF7E);
    assert_eq!(t.read(TIM), 0x0);
    t.write(TIM + 0x0C, 3);
    assert_eq!(t.read(TIM + 0x0C), 1);
    t.write(TIM + 0x28, 0x1_0007);
    assert_eq!(t.read(TIM + 0x28), 7);
    t.write(TIM + 0x2C, 0x1_2345_6789);
    assert_eq!(t.read(TIM + 0x2C), 0x2345_6789);
}

#[test]
fn timer_prescaler_wraps() {
    let mut t = BasicTimerRegion::new(TIM);
    t.write(TIM + 0x28, 0xFFFF);
    assert!(!t.can_read(TIM + 0x28));
    assert!(!t.can_write(TIM + 0x28, u64::MAX));
    assert!(!t.can_read(TIM + 0x04));
}

const FLASH: usize = 0x4002_2000;

#[test]
fn flash_access_control() {
    let mut f = FlashRegion::new(FLASH);
    assert_eq!(f.read(FLASH), 0x03);
    assert_eq!(f.read(FLASH + 3), 0);
    assert!(!f.can_read(FLASH + 4));
    assert!(!f.can_write(FLASH + 4, 0));
    f.write(FLASH, 0x1_0000_0012);
    assert_eq!(f.read(FLASH), 0x12);
    f.write(FLASH, 0xAABB_CCDD);
    assert_eq!(f.read(FLASH), 0xAABB_CCDD);
    assert_eq!(f.read(FLASH + 1), 0x00AA_BBCC);
    let mut boxed = FlashRegion::new_boxed(FLASH);
    assert_eq!(boxed.read(FLASH), 3);
}

#[test]
fn scb_and_unimplemented_blocks() {
    let mut scb = SCBRegion::new(0xE000_ED00);
    assert!(scb.can_read(0xE000_ED0C));
    assert_eq!(scb.read(0xE000_ED0C), 0xFA05_0000);
    assert!(!scb.can_read(0xE000_ED00));
    assert!(!scb.can_write(0xE000_ED0C, 0));
    assert!(scb.contains(0xE000_ED3F));
    assert!(!scb.contains(0xE000_ED40));
    let ni = NotImplementedHandler::new(0x100, 0x5000_0000);
    assert!(ni.contains(0x5000_00FF));
    assert!(!ni.contains(0x5000_0100));
    assert!(!ni.can_read(0x5000_0000));
    assert!(!ni.can_write(0x5000_0000, 0));
}

#[test]
fn bridge_holds_the_vector_table() {
    let mut b = BridgeRegion::new(0x5000_0000);
    assert!(b.get_vector_table().is_null());
    assert!(b.can_write(0x5000_0000, 0x0800_0000));
    assert!(!b.can_write(0x5000_0004, 0));
    b.write(0x5000_0000, 0x1_0800_0000);
    assert_eq!(b.get_vector_table().as_ptr(), 0x1_0800_0000);
    assert_eq!(b.read(0x5000_0000), 0x0800_0000);
    assert!(b.contains(0x5000_0007));
    assert!(b.contains(0x5000_03FF));
    assert!(!b.contains(0x5000_0400));
}

const USART: usize = 0x4001_3800;

#[test]
fn uart_control_registers() {
    let mut u = UARTRegion::new(USART, 1);
    assert_eq!(u.read(USART), 0);
    assert!(u.can_write(USART, 0xD));
    assert!(!u.can_write(USART, 0x10));
    u.write(USART, 0xD);
    assert!(u._is_transmitter_enabled() && u._is_receiver_enabled() && u._is_driver_enabled());
    assert_eq!(u.read(USART), 0xD);
    u.write(USART + 0x0C, 0x45);
    assert_eq!(u.read(USART + 0x1C), 0x45);
    assert!(!u.can_read(USART + 0x0C));
    assert!(!u.can_write(USART + 0x28, 0x41));
}

#[test]
fn console_uart_transmit_and_receive() {
    let mut u = ConsoleUart::new(USART, 2, 7);
    assert!(u.can_write(USART + 0x28, 0x141));
    u.write(USART + 0x28, 0x141);
    u.write(USART + 0x28, 0x0A);
    u.write(USART + 0x0C, 0x22);
    assert_eq!(u.take_tx(), vec![0x41, 0x0A]);
    assert!(u.take_tx().is_empty());
    assert_eq!(u.read(USART + 0x1C), 0x22);
    assert_eq!(u.read(USART + 0x24), 0);
    u.push_rx(b"hi");
    u.push_rx(b"!");
    assert_eq!(u.read(USART + 0x24), u32::from(b'h'));
    assert_eq!(u.read(USART + 0x24), u32::from(b'i'));
    assert_eq!(u.read(USART + 0x24), u32::from(b'!'));
    assert_eq!(u.read(USART + 0x24), 0);

    let mut closed = ConsoleUart::new(USART, 3, 0);
    closed.write(USART + 0x28, 0x41);
    assert!(closed.take_tx().is_empty());
    assert!(!closed.can_write(USART, 0x20));
    assert!(closed.contains(USART + 0x2B));
}

const CAN: usize = 0x4000_6400;

#[test]
fn single_file_controller_filters_read_back_finit() {
    let mut c = BasicCan::new(CAN);
    assert_eq!(c.read(CAN), 0x0001_0002);
    assert_eq!(c.read(CAN + 0x200), 0x2A1C_0E00);
    c.write(CAN + 0x200, 0x2A1C_0E01);
    assert_eq!(c.read(CAN + 0x200), 0x2A1C_0E01);
    c.write(CAN + 0x240, 0x55);
    assert_eq!(c.read(CAN + 0x240), 0x55);
    assert!(!c.can_read(CAN + 0x008));
    assert!(c.can_write(CAN + 0x200, 0x1));
    assert!(!c.can_write(CAN + 0x20C, 0x4000));
    c.write(CAN, 0x1);
    assert_eq!(c.read(CAN + 0x004), 1);
}

#[test]
fn filter_bank_block() {
    let mut f = FilterBank::new();
    assert!(f.can_read(0x200));
    assert!(!f.can_read(0x2B0));
    assert!(!f.can_write(0x20C, 0x4000));
    assert!(f.can_write(0x20C, 0x3FFF));
    f.write(0x21C, 0x5);
    assert_eq!(f.read(0x21C), 0x5);
    f.write(0x200, 0x2A1C_0E01);
    assert_eq!(f.read(0x200), 0x2A1C_0E01);
    f.write(0x200, 0x0);
    assert_eq!(f.read(0x200), 0x2A1C_0E00);
    f.write(0x200, 0x1);
    assert_eq!(f.read(0x200), 0x2A1C_0E01);
}

#[test]
fn inline_controller_transmit_status() {
    let mut c = InlineCan::new(CAN);
    assert_eq!(c.read(CAN + 0x008), 0x1C00_0000);
    c.write(CAN + 0x188, 0x0403_0201);
    assert_eq!(c.read(CAN + 0x188), 0x0403_0201);
    c.write(CAN + 0x180, (0x123 << 21) | 0x1);
    assert_eq!(c.read(CAN + 0x180), (0x123 << 21) | 0x4);
    assert_eq!(c.read(CAN + 0x008), 0x1900_0020);
    c.write(CAN + 0x1A0, 0x5);
    assert_eq!(c.read(CAN + 0x008), 0x0900_0040);
    assert_eq!(c.read(CAN + 0x200), 0x2A1C_0E00);
}

#[test]
fn inline_mailbox_status_word() {
    let mut tx = [Mailbox::new(), Mailbox::new(), Mailbox::new()];
    tx[0].state = MailboxState::Pending(3);
    tx[1].state = MailboxState::Done;
    tx[2].state = MailboxState::Pending(1);
    assert_eq!(encode_tsr(&tx), 0x0800_0320 | 0x0100_0000);
    tx[1].state = MailboxState::DoneError;
    tx[2].state = MailboxState::Pending(3);
    assert_eq!(encode_tsr(&tx), 0x0900_0940);
    tx[1].abort();
    assert_eq!(tx[1].state, MailboxState::DoneError);
    tx[0].abort();
    assert_eq!(tx[0].state, MailboxState::Init);
}

#[test]
fn single_file_controllers_boxed() {
    let mut basic = BasicCan::new_boxed(CAN);
    assert_eq!(basic.start_addr, CAN);
    assert_eq!(basic.read(CAN + 0x200), 0x2A1C_0E00);
    let mut inline = InlineCan::new_boxed(CAN);
    assert_eq!(inline.start_addr, CAN);
    assert_eq!(inline.read(CAN + 0x008), 0x1C00_0000);
}

#[test]
fn pll_multiplier_code_round_trip() {
    let mut r = RCCRegion::new(0x4002_1000);
    assert_eq!(r.get_pll_multiplier_value(), 0);
    for code in 0u32..=15 {
        r.set_pll_multiplier_value(code);
        let expected = if code == 14 { 15 } else { code };
        assert_eq!(r.get_pll_multiplier_value(), expected);
    }
    assert_eq!(r.read(0x4002_1000), 0x0330_0083);
}
