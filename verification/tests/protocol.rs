use simulator::ipc_protocol::{
    Request, Response, CMD_READ, CMD_READY, CMD_WRITE, REQUEST_SIZE, RESPONSE_SIZE, RESP_DATA,
};
use simulator::ipc_protocol::{RESP_ERROR, RESP_INTERRUPT};
use simulator::parent::{serve_request, Handshake, ServeOutcome};
use simulator::protocol::{
    get_memory_size, send_read, send_ready, send_write, AccessSize, ResponseWait,
};
use simulator::regions::bxcan::BXCanRegion;
use simulator::regions::console_uart::UARTRegion;
use simulator::regions::flash_region::FlashRegion;
use simulator::regions::nvic_region::NVICRegion;
use simulator::regions::peripheral::Peripheral;
use simulator::simulator::Simulator;

#[test]
fn ready_request_is_all_zero_but_command() {
    let r = Request::new_ready();
    assert_eq!(r.cmd, CMD_READY);
    assert_eq!(r.size, 0);
    assert_eq!(r.seq, 0);
    assert_eq!(r._reserved, [0; 4]);
    assert_eq!(r.address, 0);
    assert_eq!(r.value, 0);
    assert_eq!(r.timestamp, 0);
}

#[test]
fn request_wire_layout_is_little_endian() {
    let r = Request {
        cmd: CMD_WRITE,
        size: 4,
        seq: 0x1234,
        _reserved: [9, 8, 7, 6],
        address: 0x4000_6400,
        value: 0x1122_3344_5566_7788,
        timestamp: 0x0102_0304_0506_0708,
    };
    let b = r.to_bytes();
    assert_eq!(b.len(), REQUEST_SIZE);
    assert_eq!(&b[0..8], &[CMD_WRITE, 4, 0x34, 0x12, 9, 8, 7, 6]);
    assert_eq!(&b[8..16], &[0x00, 0x64, 0x00, 0x40, 0, 0, 0, 0]);
    assert_eq!(&b[16..24], &[0x88, 0x77, 0x66, 0x55, 0x44, 0x33, 0x22, 0x11]);
    assert_eq!(&b[24..32], &[8, 7, 6, 5, 4, 3, 2, 1]);
}

#[test]
fn request_roundtrip() {
    let r = Request {
        cmd: CMD_READ,
        size: 2,
        seq: 0xBEEF,
        _reserved: [1, 2, 3, 4],
        address: u64::MAX,
        value: 0,
        timestamp: 42,
    };
    let back = Request::from_bytes(&r.to_bytes());
    assert_eq!(back.cmd, r.cmd);
    assert_eq!(back.size, r.size);
    assert_eq!(back.seq, r.seq);
    assert_eq!(back._reserved, r._reserved);
    assert_eq!(back.address, r.address);
    assert_eq!(back.value, r.value);
    assert_eq!(back.timestamp, r.timestamp);
}

#[test]
fn request_bytes_roundtrip() {
    let bytes: Vec<u8> = (0u8..32).map(|i| i.wrapping_mul(37)).collect();
    let r = Request::from_bytes(&bytes);
    assert_eq!(r.to_bytes(), bytes);
}

#[test]
fn request_from_longer_buffer_reads_prefix() {
    let mut bytes = Request::new_ready().to_bytes();
    bytes.extend_from_slice(&[0xAA; 5]);
    let r = Request::from_bytes(&bytes);
    assert_eq!(r.cmd, CMD_READY);
    assert_eq!(r.timestamp, 0);
}

#[test]
fn data_response_wire_layout() {
    let r = Response::new_data(0x0102, 0xDEAD_BEEF);
    assert_eq!(r.resp_type, RESP_DATA);
    assert_eq!(r.seq, 0x0102);
    assert_eq!(r._reserved, [0; 5]);
    let b = r.to_bytes();
    assert_eq!(b.len(), RESPONSE_SIZE);
    assert_eq!(b, vec![RESP_DATA, 0x02, 0x01, 0, 0, 0, 0, 0, 0xEF, 0xBE, 0xAD, 0xDE, 0, 0, 0, 0]);
}

#[test]
fn response_roundtrip_both_ways() {
    let r = Response { resp_type: 0x82, seq: 7, _reserved: [1, 2, 3, 4, 5], value: 36 };
    let back = Response::from_bytes(&r.to_bytes());
    assert_eq!(back.resp_type, 0x82);
    assert_eq!(back.seq, 7);
    assert_eq!(back._reserved, [1, 2, 3, 4, 5]);
    assert_eq!(back.value, 36);
    let bytes: Vec<u8> = (100u8..116).collect();
    assert_eq!(Response::from_bytes(&bytes).to_bytes(), bytes);
}

#[test]
fn memory_sizes() {
    assert_eq!(get_memory_size(AccessSize::UInt8), 1);
    assert_eq!(get_memory_size(AccessSize::Int8), 1);
    assert_eq!(get_memory_size(AccessSize::UInt16), 2);
    assert_eq!(get_memory_size(AccessSize::Int16), 2);
    assert_eq!(get_memory_size(AccessSize::UInt32), 4);
    assert_eq!(get_memory_size(AccessSize::Int32), 4);
    assert_eq!(get_memory_size(AccessSize::UInt64), 8);
    assert_eq!(get_memory_size(AccessSize::Int64), 8);
    assert_eq!(get_memory_size(AccessSize::Other), 4);
}

#[test]
fn sent_requests_are_appended() {
    let mut out = vec![0xEE];
    send_ready(&mut out);
    assert_eq!(out.len(), 1 + REQUEST_SIZE);
    assert_eq!(out[0], 0xEE);
    assert_eq!(out[1], CMD_READY);
    assert!(out[2..].iter().skip(1).all(|&b| b == 0));

    send_read(&mut out, 0x4800_0014, AccessSize::UInt16, 3);
    let read = Request::from_bytes(&out[1 + REQUEST_SIZE..]);
    assert_eq!(read.cmd, CMD_READ);
    assert_eq!(read.size, 2);
    assert_eq!(read.seq, 3);
    assert_eq!(read.address, 0x4800_0014);
    assert_eq!(read.value, 0);

    send_write(&mut out, 0x4000_1000, AccessSize::Int64, 0x55, 4);
    assert_eq!(out.len(), 1 + 3 * REQUEST_SIZE);
    let write = Request::from_bytes(&out[1 + 2 * REQUEST_SIZE..]);
    assert_eq!(write.cmd, CMD_WRITE);
    assert_eq!(write.size, 8);
    assert_eq!(write.seq, 4);
    assert_eq!(write.address, 0x4000_1000);
    assert_eq!(write.value, 0x55);
    assert_eq!(write.timestamp, 0);
}

fn request(cmd: u8, seq: u16, address: u64, value: u64) -> Request {
    Request { cmd, size: 4, seq, _reserved: [0; 4], address, value, timestamp: 0 }
}

fn response(out: ServeOutcome) -> Response {
    match out {
        ServeOutcome::Respond(r) => r,
        ServeOutcome::Fault => panic!("access refused"),
    }
}

#[test]
fn handshake_waits_for_ready() {
    let phase = Handshake::AwaitingReady;
    let (phase, answer) = phase.on_request(&request(CMD_READ, 1, 0x4002_2000, 0));
    assert_eq!(phase, Handshake::AwaitingReady);
    assert!(!answer);
    let (phase, answer) = phase.on_request(&Request::new_ready());
    assert_eq!(phase, Handshake::Serving);
    assert!(!answer);
    let (phase, answer) = phase.on_request(&request(CMD_READ, 2, 0x4002_2000, 0));
    assert_eq!(phase, Handshake::Serving);
    assert!(answer);
    let (phase, answer) = phase.on_request(&Request::new_ready());
    assert_eq!(phase, Handshake::Serving);
    assert!(answer);
}

#[test]
fn serving_reads_and_writes() {
    let mut sim = Simulator::new(vec![FlashRegion::new(0x4002_2000), FlashRegion::new(0x5000_0000)]);
    let r = response(serve_request(&mut sim, &request(CMD_READ, 10, 0x4002_2000, 0)));
    assert_eq!((r.resp_type, r.seq, r.value), (RESP_DATA, 10, 3));
    let w = response(serve_request(&mut sim, &request(CMD_WRITE, 11, 0x5000_0000, 0x12)));
    assert_eq!((w.resp_type, w.seq, w.value), (RESP_DATA, 11, 0));
    let r = response(serve_request(&mut sim, &request(CMD_READ, 12, 0x5000_0000, 0)));
    assert_eq!(r.value, 0x12);
    let r = response(serve_request(&mut sim, &request(CMD_READ, 13, 0x4002_2000, 0)));
    assert_eq!(r.value, 3);
}

#[test]
fn serving_errors_and_faults() {
    let mut sim = Simulator::new(vec![FlashRegion::new(0x4002_2000)]);
    let e = response(serve_request(&mut sim, &request(CMD_READ, 5, 0x1000, 0)));
    assert_eq!((e.resp_type, e.seq, e.value), (RESP_ERROR, 5, 0));
    let e = response(serve_request(&mut sim, &request(0x77, 6, 0x4002_2000, 0)));
    assert_eq!((e.resp_type, e.seq), (RESP_ERROR, 6));
    assert!(matches!(serve_request(&mut sim, &request(CMD_READ, 7, 0x4002_2008, 0)), ServeOutcome::Fault));
    assert!(matches!(serve_request(&mut sim, &request(CMD_WRITE, 8, 0x4002_2004, 1)), ServeOutcome::Fault));
}

#[test]
fn waiting_for_the_matching_answer() {
    let mut w = ResponseWait::new();
    assert!(!w.waiting);
    w.begin(41);
    assert!(w.waiting);
    let stale = Response { resp_type: RESP_DATA, seq: 40, _reserved: [0; 5], value: 99 };
    assert!(!w.accept(&stale));
    assert!(w.waiting);
    assert_eq!(w.value, 0);
    let irq = Response { resp_type: RESP_INTERRUPT, seq: 0, _reserved: [0; 5], value: 36 };
    assert!(!w.accept(&irq));
    let answer = Response::new_data(41, 7);
    assert!(w.accept(&answer));
    assert!(!w.waiting);
    assert_eq!(w.value, 7);
    assert!(!w.accept(&answer));
    assert_eq!(w.seq, 41);
}

#[test]
fn serving_a_bus_of_peripherals() {
    let mut sim = Simulator::new(vec![
        Peripheral::Flash(FlashRegion::new(0x4002_2000)),
        Peripheral::Uart(UARTRegion::new(0x4000_4400, 2, 9)),
        Peripheral::Can(BXCanRegion::new(0x4000_6400)),
        Peripheral::Nvic(NVICRegion::new(0xE000_E100)),
    ]);
    // a byte written to the USART's transmit register is queued for the console
    response(serve_request(&mut sim, &request(CMD_WRITE, 1, 0x4000_4428, 0x5A)));
    match &mut sim.handlers[1] {
        Peripheral::Uart(u) => {
            assert_eq!(u.take_tx(), vec![0x5A]);
            u.push_rx(b"k");
        }
        _ => unreachable!(),
    }
    // reading the receive register takes the byte
    let r = response(serve_request(&mut sim, &request(CMD_READ, 2, 0x4000_4424, 0)));
    assert_eq!(r.value, u64::from(b'k'));
    let r = response(serve_request(&mut sim, &request(CMD_READ, 3, 0x4000_4424, 0)));
    assert_eq!(r.value, 0);
    // a transmit request on the CAN controller queues the frame
    response(serve_request(&mut sim, &request(CMD_WRITE, 4, 0x4000_6580, (0x12 << 21) | 1)));
    match &mut sim.handlers[2] {
        Peripheral::Can(c) => {
            let frames = c.take_frames();
            assert_eq!(frames.len(), 1);
            assert_eq!(frames[0].get_id(), 0x12);
        }
        _ => unreachable!(),
    }
    // the interrupt controller answers on its own range
    response(serve_request(&mut sim, &request(CMD_WRITE, 5, 0xE000_E100, 0x4)));
    let r = response(serve_request(&mut sim, &request(CMD_READ, 6, 0xE000_E100, 0)));
    assert_eq!(r.value, 0x8);
    assert!(matches!(
        serve_request(&mut sim, &request(CMD_WRITE, 7, 0xE000_ED00, 0)),
        ServeOutcome::Respond(Response { resp_type: RESP_ERROR, seq: 7, .. })
    ));
}
