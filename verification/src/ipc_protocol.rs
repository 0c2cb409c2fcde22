//! Messages between the firmware process and the simulator: a 32-byte
//! request for each trapped bus access and a 16-byte response, both packed
//! little-endian records.
use vstd::prelude::*;

use crate::bits::{
    bytes_le16, bytes_le64, dword_le, half_le, lemma_bytes_of_dword_le, lemma_dword_le_of_bytes,
    lemma_half_le_roundtrip, push_le64, read_le64,
};

verus! {

pub const CMD_READ: u8 = 1;

pub const CMD_WRITE: u8 = 2;

pub const CMD_TICK: u8 = 3;

pub const CMD_READY: u8 = 0xff;

pub const RESP_DATA: u8 = 0x81;

pub const RESP_INTERRUPT: u8 = 0x82;

pub const RESP_ERROR: u8 = 0x8F;

/// Size of an encoded request.
pub const REQUEST_SIZE: usize = 32;

/// Size of an encoded response.
pub const RESPONSE_SIZE: usize = 16;

/// A bus access, or the READY announcement, sent by the firmware process.
#[derive(Clone, Copy, Debug)]
pub struct Request {
    pub cmd: u8,
    pub size: u8,
    pub seq: u16,
    pub _reserved: [u8; 4],
    pub address: u64,
    pub value: u64,
    pub timestamp: u64,
}

/// The simulator's answer to a request.
#[derive(Clone, Copy, Debug)]
pub struct Response {
    pub resp_type: u8,
    pub seq: u16,
    pub _reserved: [u8; 5],
    pub value: u64,
}

/// The wire form of a request: command, size, sequence number, four
/// reserved bytes, address, value, timestamp.
pub open spec fn request_bytes(r: Request) -> Seq<u8> {
    seq![r.cmd, r.size] + bytes_le16(r.seq) + r._reserved@ + bytes_le64(r.address) + bytes_le64(
        r.value,
    ) + bytes_le64(r.timestamp)
}

/// The wire form of a response: type, sequence number, five reserved
/// bytes, value.
pub open spec fn response_bytes(r: Response) -> Seq<u8> {
    seq![r.resp_type] + bytes_le16(r.seq) + r._reserved@ + bytes_le64(r.value)
}

/// The request whose wire form starts `b`.
pub open spec fn request_of(b: Seq<u8>) -> Request {
    Request {
        cmd: b[0],
        size: b[1],
        seq: half_le(b[2], b[3]),
        _reserved: [b[4], b[5], b[6], b[7]],
        address: dword_le(b.subrange(8, 16)),
        value: dword_le(b.subrange(16, 24)),
        timestamp: dword_le(b.subrange(24, 32)),
    }
}

/// The response whose wire form starts `b`.
pub open spec fn response_of(b: Seq<u8>) -> Response {
    Response {
        resp_type: b[0],
        seq: half_le(b[1], b[2]),
        _reserved: [b[3], b[4], b[5], b[6], b[7]],
        value: dword_le(b.subrange(8, 16)),
    }
}

impl Request {
    /// The READY announcement: command 0xFF, everything else zero.
    pub fn new_ready() -> (r: Self)
        ensures
            r.cmd == CMD_READY,
            r.size == 0,
            r.seq == 0,
            r._reserved@ == seq![0u8, 0u8, 0u8, 0u8],
            r.address == 0,
            r.value == 0,
            r.timestamp == 0,
    {
        let r = Self {
            cmd: CMD_READY,
            size: 0,
            seq: 0,
            _reserved: [0; 4],
            address: 0,
            value: 0,
            timestamp: 0,
        };
        assert(r._reserved@ == seq![0u8, 0u8, 0u8, 0u8]);
        r
    }

    /// The wire form.
    pub fn to_bytes(&self) -> (v: Vec<u8>)
        ensures
            v@ == request_bytes(*self),
    {
        let mut v: Vec<u8> = Vec::new();
        v.push(self.cmd);
        v.push(self.size);
        v.push((self.seq & 0xFF) as u8);
        v.push(((self.seq >> 8) & 0xFF) as u8);
        v.push(self._reserved[0]);
        v.push(self._reserved[1]);
        v.push(self._reserved[2]);
        v.push(self._reserved[3]);
        push_le64(&mut v, self.address);
        push_le64(&mut v, self.value);
        push_le64(&mut v, self.timestamp);
        assert(v@ == request_bytes(*self));
        v
    }

    /// Reads a request from the first 32 bytes of `b`.
    pub fn from_bytes(b: &[u8]) -> (r: Self)
        requires
            b@.len() >= REQUEST_SIZE,
        ensures
            r == request_of(b@),
    {
        let r = Self {
            cmd: b[0],
            size: b[1],
            seq: (b[2] as u16) | ((b[3] as u16) << 8),
            _reserved: [b[4], b[5], b[6], b[7]],
            address: read_le64(b, 8),
            value: read_le64(b, 16),
            timestamp: read_le64(b, 24),
        };
        assert(r._reserved =~= request_of(b@)._reserved);
        r
    }
}

impl Response {
    /// A data response for request `seq`.
    pub fn new_data(seq: u16, value: u64) -> (r: Self)
        ensures
            r.resp_type == RESP_DATA,
            r.seq == seq,
            r._reserved@ == seq![0u8, 0u8, 0u8, 0u8, 0u8],
            r.value == value,
    {
        let r = Self { resp_type: RESP_DATA, seq, _reserved: [0; 5], value };
        assert(r._reserved@ == seq![0u8, 0u8, 0u8, 0u8, 0u8]);
        r
    }

    /// The wire form.
    pub fn to_bytes(&self) -> (v: Vec<u8>)
        ensures
            v@ == response_bytes(*self),
    {
        let mut v: Vec<u8> = Vec::new();
        v.push(self.resp_type);
        v.push((self.seq & 0xFF) as u8);
        v.push(((self.seq >> 8) & 0xFF) as u8);
        v.push(self._reserved[0]);
        v.push(self._reserved[1]);
        v.push(self._reserved[2]);
        v.push(self._reserved[3]);
        v.push(self._reserved[4]);
        push_le64(&mut v, self.value);
        assert(v@ == response_bytes(*self));
        v
    }

    /// Reads a response from the first 16 bytes of `b`.
    pub fn from_bytes(b: &[u8]) -> (r: Self)
        requires
            b@.len() >= RESPONSE_SIZE,
        ensures
            r == response_of(b@),
    {
        let r = Self {
            resp_type: b[0],
            seq: (b[1] as u16) | ((b[2] as u16) << 8),
            _reserved: [b[3], b[4], b[5], b[6], b[7]],
            value: read_le64(b, 8),
        };
        assert(r._reserved =~= response_of(b@)._reserved);
        r
    }
}

/// Decoding the wire form of a request gives the request back.
pub proof fn law_request_roundtrip(r: Request)
    ensures
        request_bytes(r).len() == REQUEST_SIZE,
        request_of(request_bytes(r)) == r,
{
    let b = request_bytes(r);
    lemma_half_le_roundtrip(r.seq, 0, 0);
    lemma_dword_le_of_bytes(r.address);
    lemma_dword_le_of_bytes(r.value);
    lemma_dword_le_of_bytes(r.timestamp);
    assert(b.subrange(8, 16) == bytes_le64(r.address));
    assert(b.subrange(16, 24) == bytes_le64(r.value));
    assert(b.subrange(24, 32) == bytes_le64(r.timestamp));
    assert(request_of(b)._reserved =~= r._reserved);
}

/// Encoding a request read from 32 bytes gives the bytes back.
pub proof fn law_request_bytes_roundtrip(b: Seq<u8>)
    requires
        b.len() == REQUEST_SIZE,
    ensures
        request_bytes(request_of(b)) == b,
{
    lemma_half_le_roundtrip(0, b[2], b[3]);
    lemma_bytes_of_dword_le(b.subrange(8, 16));
    lemma_bytes_of_dword_le(b.subrange(16, 24));
    lemma_bytes_of_dword_le(b.subrange(24, 32));
    assert(request_bytes(request_of(b)) =~= b);
}

/// Decoding the wire form of a response gives the response back.
pub proof fn law_response_roundtrip(r: Response)
    ensures
        response_bytes(r).len() == RESPONSE_SIZE,
        response_of(response_bytes(r)) == r,
{
    let b = response_bytes(r);
    lemma_half_le_roundtrip(r.seq, 0, 0);
    lemma_dword_le_of_bytes(r.value);
    assert(b.subrange(8, 16) == bytes_le64(r.value));
    assert(response_of(b)._reserved =~= r._reserved);
}

/// Encoding a response read from 16 bytes gives the bytes back.
pub proof fn law_response_bytes_roundtrip(b: Seq<u8>)
    requires
        b.len() == RESPONSE_SIZE,
    ensures
        response_bytes(response_of(b)) == b,
{
    lemma_half_le_roundtrip(0, b[1], b[2]);
    lemma_bytes_of_dword_le(b.subrange(8, 16));
    assert(response_bytes(response_of(b)) =~= b);
}

} // verus!
