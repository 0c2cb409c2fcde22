use vstd::prelude::*;

use super::can_message::CANMessage;
use crate::bits::{lemma_bit_basics, byte_at, byte_of, lemma_word_le_of_bytes, pack_le, word_le};

verus! {

/// One bxCAN mailbox: identifier register (TIR/RIR), length register
/// (TDTR/RDTR) and the two data registers (TDLR/TDHR).
#[derive(Clone, Copy, Debug)]
pub struct Mailbox {
    pub id: u32,
    pub ide: bool,
    pub rtr: bool,
    pub dlc: u8,
    pub data: [u8; 8],
    pub after_sent: bool,
}

/// The value read from an identifier register: IDE always reads as set,
/// RTR as stored, TXRQ as clear, and the identifier in the standard
/// (bits 21..31) or extended (bits 3..31) position.
pub open spec fn tir_of(id: u32, ide: bool, rtr: bool) -> u32 {
    (if ide {
        ((id & 0x1FFFFFFF) << 3u32) | 0x4
    } else {
        ((id & 0x7FF) << 21u32) | 0x4
    }) | (if rtr {
        0x2u32
    } else {
        0
    })
}

/// A cleared mailbox.
pub open spec fn empty_mailbox() -> Mailbox {
    Mailbox {
        id: 0,
        ide: false,
        rtr: false,
        dlc: 0,
        data: [0u8, 0u8, 0u8, 0u8, 0u8, 0u8, 0u8, 0u8],
        after_sent: false,
    }
}

impl Mailbox {
    /// The identifier register as read.
    pub open spec fn tir(self) -> u32 {
        tir_of(self.id, self.ide, self.rtr)
    }

    /// The low data register as read.
    pub open spec fn tdlr(self) -> u32 {
        word_le(self.data[0], self.data[1], self.data[2], self.data[3])
    }

    /// The high data register as read.
    pub open spec fn tdhr(self) -> u32 {
        word_le(self.data[4], self.data[5], self.data[6], self.data[7])
    }

    /// The mailbox after `value` is written to its identifier register.
    pub open spec fn written_tir(self, value: u32) -> Mailbox {
        Mailbox {
            ide: value & 0x4 != 0,
            rtr: value & 0x2 != 0,
            id: if value & 0x4 != 0 {
                (value >> 3u32) & 0x1FFFFFFF
            } else {
                (value >> 21u32) & 0x7FF
            },
            after_sent: self.after_sent || value & 1 != 0,
            ..self
        }
    }

    /// The mailbox after `value` is written to its low data register.
    pub open spec fn written_tdlr(self, value: u32) -> Mailbox {
        Mailbox {
            data: [
                byte_of(value, 0),
                byte_of(value, 1),
                byte_of(value, 2),
                byte_of(value, 3),
                self.data[4],
                self.data[5],
                self.data[6],
                self.data[7],
            ],
            ..self
        }
    }

    /// The mailbox after `value` is written to its high data register.
    pub open spec fn written_tdhr(self, value: u32) -> Mailbox {
        Mailbox {
            data: [
                self.data[0],
                self.data[1],
                self.data[2],
                self.data[3],
                byte_of(value, 0),
                byte_of(value, 1),
                byte_of(value, 2),
                byte_of(value, 3),
            ],
            ..self
        }
    }

    /// The mailbox holding a received frame as an extended data frame.
    pub open spec fn stored(self, msg: CANMessage) -> Mailbox {
        Mailbox { id: msg.id, ide: true, rtr: false, dlc: msg.dlc, data: msg.data, ..self }
    }

    pub fn new() -> (m: Self)
        ensures
            m == empty_mailbox(),
    {
        let m = Self { id: 0, ide: false, rtr: false, dlc: 0, data: [0; 8], after_sent: false };
        assert(m.data =~= empty_mailbox().data);
        m
    }

    /// Reads the identifier register.
    pub fn encode_tir(&self) -> (r: u32)
        ensures
            r == self.tir(),
    {
        (if self.ide {
            (self.id & 0x1FFFFFFF) << 3 | 0x4
        } else {
            (self.id & 0x7FF) << 21 | 0x4
        }) | if self.rtr {
            0x2
        } else {
            0
        }
    }

    /// Reads the length register: the low four bits of the length code.
    pub fn encode_tdtr(&self) -> (r: u32)
        ensures
            r == (self.dlc & 0xF) as u32,
    {
        (self.dlc as u32) & 0xF
    }

    /// Reads the low data register: payload bytes 0..4, little endian.
    pub fn encode_tdlr(&self) -> (r: u32)
        ensures
            r == self.tdlr(),
    {
        pack_le(self.data[0], self.data[1], self.data[2], self.data[3])
    }

    /// Reads the high data register: payload bytes 4..8, little endian.
    pub fn encode_tdhr(&self) -> (r: u32)
        ensures
            r == self.tdhr(),
    {
        pack_le(self.data[4], self.data[5], self.data[6], self.data[7])
    }

    /// The mailbox's byte of the transmit status register: request
    /// completed and transmission OK once a request has been made.
    pub fn encode_tsr(&self) -> (r: u8)
        ensures
            r == (if self.after_sent {
                3u8
            } else {
                0u8
            }),
    {
        match self.after_sent {
            false => 0x00,
            true => 0x03,
        }
    }

    /// Abort request: the mailbox reports its request as completed.
    pub fn abort(&mut self)
        ensures
            *final(self) == (Mailbox { after_sent: true, ..*old(self) }),
        no_unwind
    {
        self.after_sent = true;
    }

    /// A mailbox always accepts a new frame.
    pub fn is_empty(&self) -> (r: bool)
        ensures
            r,
    {
        true
    }

    /// Writes the identifier register; a set TXRQ bit marks the frame as
    /// requested.
    pub fn write_tir(&mut self, value: u32)
        ensures
            *final(self) == old(self).written_tir(value),
        no_unwind
    {
        self.ide = (value & 0x4) != 0;
        self.rtr = (value & 0x2) != 0;
        if self.ide {
            self.id = (value >> 3) & 0x1FFFFFFF;
        } else {
            self.id = (value >> 21) & 0x7FF;
        }
        if value & 1 != 0 {
            self.after_sent = true;
        }
    }

    /// Writes the length register.
    pub fn write_tdtr(&mut self, value: u32)
        ensures
            *final(self) == (Mailbox { dlc: (value & 0xF) as u8, ..*old(self) }),
        no_unwind
    {
        proof {
            lemma_bit_basics();
            assert(value & 0xF <= 0xF);
        }
        self.dlc = (value & 0xF) as u8;
    }

    /// Writes the low data register.
    pub fn write_tdlr(&mut self, value: u32)
        ensures
            *final(self) == old(self).written_tdlr(value),
        no_unwind
    {
        self.data[0] = byte_at(value, 0);
        self.data[1] = byte_at(value, 1);
        self.data[2] = byte_at(value, 2);
        self.data[3] = byte_at(value, 3);
        assert(self.data =~= old(self).written_tdlr(value).data);
    }

    /// Writes the high data register.
    pub fn write_tdhr(&mut self, value: u32)
        ensures
            *final(self) == old(self).written_tdhr(value),
        no_unwind
    {
        self.data[4] = byte_at(value, 0);
        self.data[5] = byte_at(value, 1);
        self.data[6] = byte_at(value, 2);
        self.data[7] = byte_at(value, 3);
        assert(self.data =~= old(self).written_tdhr(value).data);
    }

    /// Places a received frame in the mailbox as an extended data frame.
    pub fn store_message(&mut self, msg: CANMessage)
        ensures
            *final(self) == old(self).stored(msg),
    {
        self.id = msg.get_id();
        self.ide = true;
        self.rtr = false;
        self.dlc = msg.get_dlc();
        let data = msg.get_data();
        let mut i: usize = 0;
        while i < 8
            invariant
                i <= 8,
                *data == msg.data,
                forall|j: int| 0 <= j < i ==> self.data[j] == msg.data[j],
                self.id == msg.id,
                self.ide,
                !self.rtr,
                self.dlc == msg.dlc,
                self.after_sent == old(self).after_sent,
            decreases 8 - i,
        {
            self.data[i] = if i < data.len() {
                data[i]
            } else {
                0
            };
            i = i + 1;
        }
        assert(self.data =~= msg.data);
    }

    /// The frame held by the mailbox.
    pub fn into_message(self) -> (m: CANMessage)
        ensures
            m.id == self.id,
            m.data == self.data,
            m.dlc == self.dlc,
    {
        CANMessage::new(self.id, self.data, self.dlc)
    }
}

/// Reading the identifier register after a write gives the written value
/// with TXRQ cleared and IDE set; a standard identifier also clears the
/// bits of the extended part.
pub proof fn law_tir_read_after_write(m: Mailbox, value: u32)
    ensures
        m.written_tir(value).tir() == (value & (if value & 0x4 != 0 {
            0xFFFF_FFFEu32
        } else {
            0xFFE0_0002u32
        })) | 0x4,
{
    lemma_tir_bits(value);
}

proof fn lemma_tir_bits(value: u32)
    by (bit_vector)
    ensures
        value & 4 != 0 && value & 2 != 0 ==> ((((value >> 3u32) & 0x1FFFFFFF) & 0x1FFFFFFF) << 3u32)
            | 0x4 | 0x2 == (value & 0xFFFF_FFFE) | 0x4,
        value & 4 != 0 && value & 2 == 0 ==> ((((value >> 3u32) & 0x1FFFFFFF) & 0x1FFFFFFF) << 3u32)
            | 0x4 | 0 == (value & 0xFFFF_FFFE) | 0x4,
        value & 2 != 0 ==> ((((value >> 21u32) & 0x7FF) & 0x7FF) << 21u32) | 0x4 | 0x2 == (value
            & 0xFFE0_0002) | 0x4,
        value & 2 == 0 ==> ((((value >> 21u32) & 0x7FF) & 0x7FF) << 21u32) | 0x4 | 0 == (value
            & 0xFFE0_0002) | 0x4,
{
}

/// Reading a data register after writing it gives the written word, and the
/// other data register keeps its value.
pub proof fn law_data_read_after_write(m: Mailbox, value: u32)
    ensures
        m.written_tdlr(value).tdlr() == value,
        m.written_tdlr(value).tdhr() == m.tdhr(),
        m.written_tdhr(value).tdhr() == value,
        m.written_tdhr(value).tdlr() == m.tdlr(),
{
    lemma_word_le_of_bytes(value);
}

} // verus!
