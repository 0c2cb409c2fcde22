use vstd::prelude::*;

use crate::bits::{byte_of, bytes_le, lemma_bytes_of_word_le, lemma_word_le_of_bytes, pack_le, word_le};

verus! {

/// A CAN frame as it travels over the console channel: identifier, eight
/// payload bytes and the data length code.
#[derive(Clone, Copy, Debug)]
pub struct CANMessage {
    pub id: u32,
    pub data: [u8; 8],
    pub dlc: u8,
}

/// The 13-byte wire form of a frame: identifier (little endian), data
/// length code, then the eight payload bytes.
pub open spec fn message_bytes(id: u32, dlc: u8, data: Seq<u8>) -> Seq<u8> {
    bytes_le(id) + seq![dlc] + data
}

impl CANMessage {
    pub fn new(id: u32, data: [u8; 8], dlc: u8) -> (m: Self)
        ensures
            m.id == id,
            m.data == data,
            m.dlc == dlc,
    {
        Self { id, data, dlc }
    }

    pub fn get_id(&self) -> (id: u32)
        ensures
            id == self.id,
    {
        self.id
    }

    pub fn get_data(&self) -> (data: &[u8; 8])
        ensures
            *data == self.data,
    {
        &self.data
    }

    pub fn get_dlc(&self) -> (dlc: u8)
        ensures
            dlc == self.dlc,
    {
        self.dlc
    }

    /// The wire form of the frame.
    pub fn into_bytes(self) -> (v: Vec<u8>)
        ensures
            v@ == message_bytes(self.id, self.dlc, self.data@),
    {
        let mut v: Vec<u8> = Vec::new();
        let mut k: u32 = 0;
        while k < 4
            invariant
                k <= 4,
                v@ == bytes_le(self.id).subrange(0, k as int),
            decreases 4 - k,
        {
            v.push(crate::bits::byte_at(self.id, k));
            k = k + 1;
            assert(v@ == bytes_le(self.id).subrange(0, k as int));
        }
        v.push(self.dlc);
        let mut i: usize = 0;
        while i < 8
            invariant
                i <= 8,
                v@ == bytes_le(self.id) + seq![self.dlc] + self.data@.subrange(0, i as int),
            decreases 8 - i,
        {
            v.push(self.data[i]);
            i = i + 1;
            assert(v@ == bytes_le(self.id) + seq![self.dlc] + self.data@.subrange(0, i as int));
        }
        assert(self.data@.subrange(0, 8) == self.data@);
        v
    }

    /// Reads a frame from its wire form; bytes after the thirteenth are
    /// ignored.
    pub fn from_bytes(v: Vec<u8>) -> (m: Self)
        requires
            v.len() >= 13,
        ensures
            m.id == word_le(v@[0], v@[1], v@[2], v@[3]),
            m.dlc == v@[4],
            m.data@ == v@.subrange(5, 13),
    {
        let id = pack_le(v[0], v[1], v[2], v[3]);
        let dlc = v[4];
        let mut data = [0u8; 8];
        let mut i: usize = 0;
        while i < 8
            invariant
                i <= 8,
                v.len() >= 13,
                forall|j: int| 0 <= j < i ==> data@[j] == v@[5 + j],
            decreases 8 - i,
        {
            data[i] = v[5 + i];
            i = i + 1;
        }
        assert(data@ == v@.subrange(5, 13));
        Self { id, data, dlc }
    }
}

/// Decoding the wire form of a frame gives the frame back.
pub proof fn law_message_bytes_roundtrip(id: u32, dlc: u8, data: Seq<u8>)
    requires
        data.len() == 8,
    ensures
        ({
            let v = message_bytes(id, dlc, data);
            &&& v.len() == 13
            &&& word_le(v[0], v[1], v[2], v[3]) == id
            &&& v[4] == dlc
            &&& v.subrange(5, 13) == data
        }),
{
    let v = message_bytes(id, dlc, data);
    lemma_word_le_of_bytes(id);
    assert(v[0] == byte_of(id, 0) && v[1] == byte_of(id, 1) && v[2] == byte_of(id, 2) && v[3]
        == byte_of(id, 3));
    assert(v.subrange(5, 13) == data);
}

/// Encoding a frame read from 13 bytes gives the bytes back.
pub proof fn law_message_bytes_from_wire(v: Seq<u8>)
    requires
        v.len() == 13,
    ensures
        message_bytes(word_le(v[0], v[1], v[2], v[3]), v[4], v.subrange(5, 13)) == v,
{
    lemma_bytes_of_word_le(v[0], v[1], v[2], v[3]);
    assert(message_bytes(word_le(v[0], v[1], v[2], v[3]), v[4], v.subrange(5, 13)) =~= v);
}

} // verus!
