use vstd::prelude::*;

use super::can_message::CANMessage;
use super::mailbox::{empty_mailbox, Mailbox};
use crate::bits::bit;

verus! {

/// Number of transmit mailboxes.
pub const MAILBOX_COUNT: usize = 3;

/// The three transmit mailboxes and the transmit status register (CAN_TSR).
pub struct TXMailbox {
    mailboxes: [Mailbox; 3],
    last_send_mailbox: usize,
}

/// The status byte a mailbox contributes to CAN_TSR.
pub open spec fn status_byte(m: Mailbox) -> u32 {
    if m.after_sent {
        3
    } else {
        0
    }
}

/// Which register of a mailbox an offset (relative to the mailbox's TIR)
/// selects: 0 TIR, 4 TDTR, 8 TDLR, 12 TDHR.
pub open spec fn mailbox_register(m: Mailbox, reg: int) -> u32 {
    if reg == 0 {
        m.tir()
    } else if reg == 4 {
        (m.dlc & 0xF) as u32
    } else if reg == 8 {
        m.tdlr()
    } else {
        m.tdhr()
    }
}

/// A mailbox after `value` is written to one of its registers.
pub open spec fn mailbox_written(m: Mailbox, reg: int, value: u32) -> Mailbox {
    if reg == 0 {
        m.written_tir(value)
    } else if reg == 4 {
        Mailbox { dlc: (value & 0xF) as u8, ..m }
    } else if reg == 8 {
        m.written_tdlr(value)
    } else {
        m.written_tdhr(value)
    }
}

/// CAN_TSR for mailboxes `m0`, `m1`, `m2` when mailbox `last` was the last
/// used: the status byte of each mailbox, the lowest-priority flag of the
/// last used mailbox (bit 5 + last), the code of the next free mailbox
/// (bits 24..26) and the three "mailbox empty" flags (bits 26..29).
pub open spec fn tsr_word(m0: Mailbox, m1: Mailbox, m2: Mailbox, last: usize) -> u32 {
    (0x20u32 << (last as u32)) | ((((last + 1) % 3) as u32) << 24u32) | status_byte(m0) | (
    status_byte(m1) << 8u32) | (status_byte(m2) << 16u32) | 0x1C00_0000u32
}

/// CAN_TSR as the sum of its fields.
pub open spec fn tsr_sum(m0: Mailbox, m1: Mailbox, m2: Mailbox, last: usize) -> int {
    0x1C00_0000int + (if last == 0 {
        0x20int
    } else if last == 1 {
        0x40int
    } else {
        0x80int
    }) + ((last + 1) % 3) * 0x0100_0000 + status_byte(m0) + status_byte(m1) * 0x100
        + status_byte(m2) * 0x1_0000
}

/// CAN_TSR's fields do not overlap: the word is the sum of its fields.
pub proof fn law_tsr_fields(m0: Mailbox, m1: Mailbox, m2: Mailbox, last: usize)
    requires
        last < 3,
    ensures
        tsr_word(m0, m1, m2, last) == tsr_sum(m0, m1, m2, last),
{
    let s0: u32 = status_byte(m0);
    let s1: u32 = status_byte(m1);
    let s2: u32 = status_byte(m2);
    assert(s0 == 0 || s0 == 3);
    assert(s1 == 0 || s1 == 3);
    assert(s2 == 0 || s2 == 3);
    if last == 0 {
        assert((s0 == 0 || s0 == 3) && (s1 == 0 || s1 == 3) && (s2 == 0 || s2 == 3) ==> (0x20u32
            << 0u32) | (1u32 << 24u32) | s0 | (s1 << 8u32) | (s2 << 16u32) | 0x1C00_0000u32
            == 0x1C00_0000 + 0x20 + 0x0100_0000 + s0 + s1 * 0x100 + s2 * 0x1_0000)
            by (bit_vector);
    } else if last == 1 {
        assert((s0 == 0 || s0 == 3) && (s1 == 0 || s1 == 3) && (s2 == 0 || s2 == 3) ==> (0x20u32
            << 1u32) | (2u32 << 24u32) | s0 | (s1 << 8u32) | (s2 << 16u32) | 0x1C00_0000u32
            == 0x1C00_0000 + 0x40 + 0x0200_0000 + s0 + s1 * 0x100 + s2 * 0x1_0000)
            by (bit_vector);
    } else {
        assert((s0 == 0 || s0 == 3) && (s1 == 0 || s1 == 3) && (s2 == 0 || s2 == 3) ==> (0x20u32
            << 2u32) | (0u32 << 24u32) | s0 | (s1 << 8u32) | (s2 << 16u32) | 0x1C00_0000u32
            == 0x1C00_0000 + 0x80 + s0 + s1 * 0x100 + s2 * 0x1_0000) by (bit_vector);
    }
}

/// Offsets of the transmit mailbox registers: 0x180 + 0x10 * i + 4 * r.
pub open spec fn is_tx_register(offset: usize) -> bool {
    0x180 <= offset <= 0x1AC && offset % 4 == 0
}

impl TXMailbox {
    #[verifier::type_invariant]
    spec fn inv(self) -> bool {
        self.last_send_mailbox < 3
    }

    /// Mailbox `i`.
    pub closed spec fn mailbox(self, i: int) -> Mailbox {
        self.mailboxes[i]
    }

    /// The mailbox that was last used for a transmission.
    pub closed spec fn last_send(self) -> usize {
        self.last_send_mailbox
    }

    /// CAN_TSR, from the three mailboxes and the last used one.
    pub open spec fn tsr(self) -> u32 {
        tsr_word(self.mailbox(0), self.mailbox(1), self.mailbox(2), self.last_send())
    }

    /// The value a read at `offset` returns, or `None` when the offset is
    /// not a transmit register.
    pub open spec fn read_spec(self, offset: usize) -> Option<u32> {
        if offset == 0x008 {
            Some(self.tsr())
        } else if is_tx_register(offset) {
            Some(
                mailbox_register(
                    self.mailbox((offset - 0x180) / 16),
                    ((offset - 0x180) % 16) as int,
                ),
            )
        } else {
            None
        }
    }

    pub fn new() -> (r: Self)
        ensures
            r.last_send() == 0,
            forall|i: int| 0 <= i < 3 ==> r.mailbox(i) == empty_mailbox(),
            r.tsr() == 0x1D00_0020,
    {
        let r = Self {
            mailboxes: [Mailbox::new(), Mailbox::new(), Mailbox::new()],
            last_send_mailbox: 0,
        };
        proof {
            law_tsr_fields(r.mailbox(0), r.mailbox(1), r.mailbox(2), 0);
        }
        r
    }

    /// Mailbox `i` after `value` is written at `offset`: the three abort
    /// request bits of CAN_TSR (bit 23 for mailbox 0, bit 15 for mailbox 1,
    /// bit 7 for mailbox 2) mark a request as completed; a write to a
    /// mailbox register updates that register.
    pub open spec fn written_mailbox(self, i: int, offset: usize, value: u32) -> Mailbox {
        let m = self.mailbox(i);
        if offset == 0x008 {
            let abort = if i == 0 {
                value & 0x0080_0000 != 0
            } else if i == 1 {
                value & 0x0000_8000 != 0
            } else {
                value & 0x0000_0080 != 0
            };
            if abort {
                Mailbox { after_sent: true, ..m }
            } else {
                m
            }
        } else if is_tx_register(offset) && (offset - 0x180) / 16 == i {
            mailbox_written(m, ((offset - 0x180) % 16) as int, value)
        } else {
            m
        }
    }

    /// The frame a write hands over for transmission: a write to a TIR with
    /// TXRQ (bit 0) set sends the frame the mailbox then holds.
    pub open spec fn sent_spec(self, offset: usize, value: u32) -> Option<CANMessage> {
        if is_tx_register(offset) && (offset - 0x180) % 16 == 0 && value & 1 != 0 {
            let m = self.written_mailbox((offset - 0x180) / 16, offset, value);
            Some(CANMessage { id: m.id, data: m.data, dlc: m.dlc })
        } else {
            None
        }
    }

    /// Reads CAN_TSR.
    pub fn encode_tsr(&self) -> (tsr: u32)
        ensures
            tsr == self.tsr(),
            self.last_send() < 3,
            tsr == tsr_sum(self.mailbox(0), self.mailbox(1), self.mailbox(2), self.last_send()),
    {
        proof {
            use_type_invariant(self);
        }
        let mut tsr = 0u32;
        let lowest_priority_mailbox = self.last_send_mailbox;
        let next_free_mailbox = ((1 + self.last_send_mailbox) % MAILBOX_COUNT) as u32;
        let l = lowest_priority_mailbox as u32;
        tsr |= 0x20 << l;
        tsr |= next_free_mailbox << 24;
        let s0 = self.mailboxes[0].encode_tsr() as u32;
        tsr |= s0;
        tsr |= if self.mailboxes[0].is_empty() {
            1 << 26
        } else {
            0
        };
        let s1 = self.mailboxes[1].encode_tsr() as u32;
        tsr |= s1 << 8;
        tsr |= if self.mailboxes[1].is_empty() {
            1 << 27
        } else {
            0
        };
        let s2 = self.mailboxes[2].encode_tsr() as u32;
        tsr |= s2 << 16;
        tsr |= if self.mailboxes[2].is_empty() {
            1 << 28
        } else {
            0
        };
        proof {
            let n = next_free_mailbox;
            assert((((((((0u32 | (0x20u32 << l)) | (n << 24u32)) | s0) | (1u32 << 26u32)) | (s1
                << 8u32)) | (1u32 << 27u32)) | (s2 << 16u32)) | (1u32 << 28u32) == (0x20u32 << l)
                | (n << 24u32) | s0 | (s1 << 8u32) | (s2 << 16u32) | 0x1C00_0000u32)
                by (bit_vector);
            law_tsr_fields(self.mailbox(0), self.mailbox(1), self.mailbox(2), self.last_send());
        }
        tsr
    }

    /// Reads a transmit register; `None` for offsets that are not one.
    pub fn read(&self, offset: usize) -> (r: Option<u32>)
        ensures
            r == self.read_spec(offset),
    {
        if offset == 0x008 {
            return Some(self.encode_tsr());
        }
        if offset == 0x180 {
            return Some(self.mailboxes[0].encode_tir());
        }
        if offset == 0x184 {
            return Some(self.mailboxes[0].encode_tdtr());
        }
        if offset == 0x188 {
            return Some(self.mailboxes[0].encode_tdlr());
        }
        if offset == 0x18C {
            return Some(self.mailboxes[0].encode_tdhr());
        }
        if offset == 0x190 {
            return Some(self.mailboxes[1].encode_tir());
        }
        if offset == 0x194 {
            return Some(self.mailboxes[1].encode_tdtr());
        }
        if offset == 0x198 {
            return Some(self.mailboxes[1].encode_tdlr());
        }
        if offset == 0x19C {
            return Some(self.mailboxes[1].encode_tdhr());
        }
        if offset == 0x1A0 {
            return Some(self.mailboxes[2].encode_tir());
        }
        if offset == 0x1A4 {
            return Some(self.mailboxes[2].encode_tdtr());
        }
        if offset == 0x1A8 {
            return Some(self.mailboxes[2].encode_tdlr());
        }
        if offset == 0x1AC {
            return Some(self.mailboxes[2].encode_tdhr());
        }
        None
    }

    /// Writes a transmit register; returns the frame to transmit when the
    /// write requests a transmission.
    pub fn write(&mut self, offset: usize, value: u32) -> (sent: Option<CANMessage>)
        ensures
            forall|i: int|
                0 <= i < 3 ==> #[trigger] final(self).mailbox(i) == old(self).written_mailbox(
                    i,
                    offset,
                    value,
                ),
            final(self).last_send() == old(self).last_send(),
            final(self).last_send() < 3,
            sent == old(self).sent_spec(offset, value),
            !is_tx_register(offset) && offset != 0x008 ==> forall|o: usize|
                #[trigger] final(self).read_spec(o) == old(self).read_spec(o),
    {
        proof {
            use_type_invariant(&*self);
        }
        if offset == 0x008 {
            let abrq1 = (value & 0x00800000) != 0;
            let abrq2 = (value & 0x00008000) != 0;
            let abrq3 = (value & 0x00000080) != 0;
            if abrq1 {
                self.mailboxes[0].abort();
            }
            if abrq2 {
                self.mailboxes[1].abort();
            }
            if abrq3 {
                self.mailboxes[2].abort();
            }
        }
        if offset == 0x180 {
            self.mailboxes[0].write_tir(value);
            if value & 1 != 0 {
                return Some(self.mailboxes[0].into_message());
            }
        }
        if offset == 0x184 {
            self.mailboxes[0].write_tdtr(value);
        }
        if offset == 0x188 {
            self.mailboxes[0].write_tdlr(value);
        }
        if offset == 0x18C {
            self.mailboxes[0].write_tdhr(value);
        }
        if offset == 0x190 {
            self.mailboxes[1].write_tir(value);
            if value & 1 != 0 {
                return Some(self.mailboxes[1].into_message());
            }
        }
        if offset == 0x194 {
            self.mailboxes[1].write_tdtr(value);
        }
        if offset == 0x198 {
            self.mailboxes[1].write_tdlr(value);
        }
        if offset == 0x19C {
            self.mailboxes[1].write_tdhr(value);
        }
        if offset == 0x1A0 {
            self.mailboxes[2].write_tir(value);
            if value & 1 != 0 {
                return Some(self.mailboxes[2].into_message());
            }
        }
        if offset == 0x1A4 {
            self.mailboxes[2].write_tdtr(value);
        }
        if offset == 0x1A8 {
            self.mailboxes[2].write_tdlr(value);
        }
        if offset == 0x1AC {
            self.mailboxes[2].write_tdhr(value);
        }
        None
    }
}

/// A write of `value` to CAN_TSR requests aborts: a set bit 23 marks
/// mailbox 0 as completed (its status byte then reads 3), bit 15 mailbox 1
/// and bit 7 mailbox 2; a mailbox whose bit is clear keeps its contents.
/// `u` is the mailboxes after such a write to `t`, as
/// [`TXMailbox::write`] states it.
pub proof fn law_tsr_abort_requests(t: TXMailbox, u: TXMailbox, value: u32)
    requires
        forall|i: int| 0 <= i < 3 ==> #[trigger] u.mailbox(i) == t.written_mailbox(i, 0x008, value),
    ensures
        bit(value, 23) ==> status_byte(u.mailbox(0)) == 3 && u.mailbox(0) == (Mailbox {
            after_sent: true,
            ..t.mailbox(0)
        }),
        !bit(value, 23) ==> u.mailbox(0) == t.mailbox(0),
        bit(value, 15) ==> status_byte(u.mailbox(1)) == 3 && u.mailbox(1) == (Mailbox {
            after_sent: true,
            ..t.mailbox(1)
        }),
        !bit(value, 15) ==> u.mailbox(1) == t.mailbox(1),
        bit(value, 7) ==> status_byte(u.mailbox(2)) == 3 && u.mailbox(2) == (Mailbox {
            after_sent: true,
            ..t.mailbox(2)
        }),
        !bit(value, 7) ==> u.mailbox(2) == t.mailbox(2),
{
    assert(bit(value, 23) == (value & 0x0080_0000 != 0) && bit(value, 15) == (value & 0x0000_8000
        != 0) && bit(value, 7) == (value & 0x0000_0080 != 0)) by (bit_vector);
    assert(u.mailbox(0) == t.written_mailbox(0, 0x008, value));
    assert(u.mailbox(1) == t.written_mailbox(1, 0x008, value));
    assert(u.mailbox(2) == t.written_mailbox(2, 0x008, value));
}

} // verus!
