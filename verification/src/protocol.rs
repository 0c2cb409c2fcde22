//! The firmware side of the message exchange: the requests a trapped
//! access produces, appended to the outgoing byte stream.
use vstd::prelude::*;

use crate::ipc_protocol::{request_bytes, Request, Response, CMD_READ, CMD_READY, CMD_WRITE};

verus! {

/// The operand sizes an access can have.
#[derive(Clone, Copy, Debug, PartialEq, Eq, Structural)]
pub enum AccessSize {
    UInt8,
    Int8,
    UInt16,
    Int16,
    UInt32,
    Int32,
    UInt64,
    Int64,
    Other,
}

/// Bytes moved by an access; sizes the model does not know count as four.
pub open spec fn access_bytes(ms: AccessSize) -> u8 {
    match ms {
        AccessSize::UInt8 | AccessSize::Int8 => 1,
        AccessSize::UInt16 | AccessSize::Int16 => 2,
        AccessSize::UInt32 | AccessSize::Int32 => 4,
        AccessSize::UInt64 | AccessSize::Int64 => 8,
        AccessSize::Other => 4,
    }
}

pub fn get_memory_size(ms: AccessSize) -> (r: u8)
    ensures
        r == access_bytes(ms),
{
    match ms {
        AccessSize::UInt8 | AccessSize::Int8 => 1,
        AccessSize::UInt16 | AccessSize::Int16 => 2,
        AccessSize::UInt32 | AccessSize::Int32 => 4,
        AccessSize::UInt64 | AccessSize::Int64 => 8,
        _ => 4,
    }
}

/// The request for a read of `size` at `addr`.
pub open spec fn read_request(addr: u64, size: AccessSize, seq: u16) -> Request {
    Request {
        cmd: CMD_READ,
        size: access_bytes(size),
        seq,
        _reserved: [0u8, 0u8, 0u8, 0u8],
        address: addr,
        value: 0,
        timestamp: 0,
    }
}

/// The request for a write of `value` (of `size`) at `addr`.
pub open spec fn write_request(addr: u64, size: AccessSize, value: u64, seq: u16) -> Request {
    Request {
        cmd: CMD_WRITE,
        size: access_bytes(size),
        seq,
        _reserved: [0u8, 0u8, 0u8, 0u8],
        address: addr,
        value,
        timestamp: 0,
    }
}

/// The READY announcement.
pub open spec fn ready_request() -> Request {
    Request {
        cmd: CMD_READY,
        size: 0,
        seq: 0,
        _reserved: [0u8, 0u8, 0u8, 0u8],
        address: 0,
        value: 0,
        timestamp: 0,
    }
}

/// Appends the wire form of a request to the outgoing stream.
pub fn send_request(out: &mut Vec<u8>, request: &Request)
    ensures
        final(out)@ == old(out)@ + request_bytes(*request),
{
    let bytes = request.to_bytes();
    let mut i: usize = 0;
    while i < bytes.len()
        invariant
            i <= bytes@.len(),
            bytes@ == request_bytes(*request),
            out@ == old(out)@ + bytes@.subrange(0, i as int),
        decreases bytes@.len() - i,
    {
        out.push(bytes[i]);
        i = i + 1;
        assert(out@ == old(out)@ + bytes@.subrange(0, i as int));
    }
    assert(bytes@.subrange(0, bytes@.len() as int) == bytes@);
}

/// Announces that the firmware process is ready for responses.
pub fn send_ready(out: &mut Vec<u8>)
    ensures
        final(out)@ == old(out)@ + request_bytes(ready_request()),
{
    let ready = Request {
        cmd: CMD_READY,
        size: 0,
        seq: 0,
        _reserved: [0; 4],
        address: 0,
        value: 0,
        timestamp: 0,
    };
    assert(ready._reserved =~= ready_request()._reserved);
    send_request(out, &ready);
}

/// Requests a read of `size` at `addr`.
pub fn send_read(out: &mut Vec<u8>, addr: u64, size: AccessSize, seq: u16)
    ensures
        final(out)@ == old(out)@ + request_bytes(read_request(addr, size, seq)),
{
    let req = Request {
        cmd: CMD_READ,
        size: get_memory_size(size),
        seq,
        _reserved: [0; 4],
        address: addr,
        value: 0,
        timestamp: 0,
    };
    assert(req._reserved =~= read_request(addr, size, seq)._reserved);
    send_request(out, &req);
}

/// Requests a write of `value` (of `size`) at `addr`.
pub fn send_write(out: &mut Vec<u8>, addr: u64, size: AccessSize, value: u64, seq: u16)
    ensures
        final(out)@ == old(out)@ + request_bytes(write_request(addr, size, value, seq)),
{
    let req = Request {
        cmd: CMD_WRITE,
        size: get_memory_size(size),
        seq,
        _reserved: [0; 4],
        address: addr,
        value,
        timestamp: 0,
    };
    assert(req._reserved =~= write_request(addr, size, value, seq)._reserved);
    send_request(out, &req);
}

/// The firmware side's wait for the answer to its outstanding request.
#[derive(Clone, Copy, Debug)]
pub struct ResponseWait {
    /// Sequence number of the outstanding request.
    pub seq: u16,
    /// Whether the answer is still awaited.
    pub waiting: bool,
    /// The value of the last answer taken.
    pub value: u64,
}

/// The wait after request `seq` was sent.
pub open spec fn begun(w: ResponseWait, seq: u16) -> ResponseWait {
    ResponseWait { seq, waiting: true, ..w }
}

/// Whether a response answers the outstanding request.
pub open spec fn answers(w: ResponseWait, resp: Response) -> bool {
    w.waiting && resp.seq == w.seq
}

/// The wait after a response arrived: the answer to the outstanding request
/// ends the wait and delivers its value; any other response (a stale one
/// left in the pipe by an earlier request) changes nothing.
pub open spec fn accepted(w: ResponseWait, resp: Response) -> ResponseWait {
    if answers(w, resp) {
        ResponseWait { waiting: false, value: resp.value, ..w }
    } else {
        w
    }
}

impl ResponseWait {
    pub fn new() -> (w: Self)
        ensures
            w.seq == 0,
            !w.waiting,
            w.value == 0,
    {
        Self { seq: 0, waiting: false, value: 0 }
    }

    /// Starts waiting for the answer to request `seq`.
    pub fn begin(&mut self, seq: u16)
        ensures
            *final(self) == begun(*old(self), seq),
    {
        self.seq = seq;
        self.waiting = true;
    }

    /// Takes a response from the simulator; whether it answered the
    /// outstanding request.
    pub fn accept(&mut self, resp: &Response) -> (taken: bool)
        ensures
            taken == answers(*old(self), *resp),
            *final(self) == accepted(*old(self), *resp),
    {
        if self.waiting && resp.seq == self.seq {
            self.waiting = false;
            self.value = resp.value;
            true
        } else {
            false
        }
    }
}

/// After request `seq` is sent, a response with another sequence number
/// leaves the wait as it is, and the response with the same sequence number
/// ends it with that response's value.
pub proof fn law_only_matching_answer_ends_wait(w: ResponseWait, seq: u16, resp: Response)
    ensures
        resp.seq != seq ==> accepted(begun(w, seq), resp) == begun(w, seq),
        resp.seq == seq ==> !accepted(begun(w, seq), resp).waiting && accepted(
            begun(w, seq),
            resp,
        ).value == resp.value,
{
}

} // verus!
