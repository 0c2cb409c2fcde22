//! A single-file bxCAN controller: transmit mailboxes that track a request
//! state, receive FIFO mailboxes written by the firmware, and the filter
//! block.  It does not transmit or receive frames.
use vstd::prelude::*;

use super::bxcan::bit_timing::{btr_mask, BitTiming};
use super::bxcan::can_state::CANState;
use super::bxcan::control::{
    encode_ier, encode_mcr, encode_msr, ier_word, mcr_next_state, mcr_word, mcr_write_ok, msr_word,
    write_mcr,
};
use super::bxcan::mailbox::tir_of;
use super::bxcan::mailboxes::is_tx_register;
use super::bxcan::is_rx_register;
use super::filter_bank::{in_filter_block, FilterBank};
use super::mmio_handler::MmioHandler;
use crate::bits::{byte_at, byte_of, lemma_bit_basics, pack_le, word_le};

verus! {

/// Size of the bxCAN register block.
pub const BXCAN_REGION_SIZE: usize = 0x2B0;

/// Progress of a transmit request.
#[derive(Clone, Copy, Debug, PartialEq, Eq, Structural)]
pub enum MailboxState {
    Init,
    Pending(usize),
    Working,
    Done,
    DoneError,
}

/// A mailbox with the state of its transmit request.
#[derive(Clone, Copy, Debug)]
pub struct Mailbox {
    pub id: u32,
    pub ide: bool,
    pub rtr: bool,
    pub dlc: u8,
    pub data: [u8; 8],
    pub state: MailboxState,
}

/// A mailbox that can take a new request: idle or finished.
pub open spec fn state_is_empty(s: MailboxState) -> bool {
    s == MailboxState::Init || s == MailboxState::Done || s == MailboxState::DoneError
}

/// The status byte of a mailbox in CAN_TSR: RQCP and TXOK once done, RQCP
/// and TERR after an error.
pub open spec fn state_status(s: MailboxState) -> u8 {
    match s {
        MailboxState::Done => 0x03,
        MailboxState::DoneError => 0x09,
        _ => 0x00,
    }
}

/// The state after an abort request: a pending or running request is
/// cancelled.
pub open spec fn aborted_state(s: MailboxState) -> MailboxState {
    match s {
        MailboxState::Pending(_) | MailboxState::Working => MailboxState::Init,
        _ => s,
    }
}

impl Mailbox {
    pub open spec fn tir(self) -> u32 {
        tir_of(self.id, self.ide, self.rtr)
    }

    pub open spec fn tdlr(self) -> u32 {
        word_le(self.data[0], self.data[1], self.data[2], self.data[3])
    }

    pub open spec fn tdhr(self) -> u32 {
        word_le(self.data[4], self.data[5], self.data[6], self.data[7])
    }

    /// The register at `reg` (0 TIR, 4 TDTR, 8 TDLR, 12 TDHR) as read.
    pub open spec fn register(self, reg: int) -> u32 {
        if reg == 0 {
            self.tir()
        } else if reg == 4 {
            (self.dlc & 0xF) as u32
        } else if reg == 8 {
            self.tdlr()
        } else {
            self.tdhr()
        }
    }

    /// The mailbox after `value` is written to the register at `reg`; a set
    /// TXRQ bit in TIR makes the request pending with priority 0.
    pub open spec fn written(self, reg: int, value: u32) -> Mailbox {
        if reg == 0 {
            Mailbox {
                ide: value & 0x4 != 0,
                rtr: value & 0x2 != 0,
                id: if value & 0x4 != 0 {
                    (value >> 3u32) & 0x1FFFFFFF
                } else {
                    (value >> 21u32) & 0x7FF
                },
                state: if value & 1 != 0 {
                    MailboxState::Pending(0)
                } else {
                    self.state
                },
                ..self
            }
        } else if reg == 4 {
            Mailbox { dlc: (value & 0xF) as u8, ..self }
        } else if reg == 8 {
            Mailbox {
                data: [
                    byte_of(value, 0),
                    byte_of(value, 1),
                    byte_of(value, 2),
                    byte_of(value, 3),
                    self.data[4],
                    self.data[5],
                    self.data[6],
                    self.data[7],
                ],
                ..self
            }
        } else {
            Mailbox {
                data: [
                    self.data[0],
                    self.data[1],
                    self.data[2],
                    self.data[3],
                    byte_of(value, 0),
                    byte_of(value, 1),
                    byte_of(value, 2),
                    byte_of(value, 3),
                ],
                ..self
            }
        }
    }

    pub fn new() -> (m: Self)
        ensures
            m.id == 0 && !m.ide && !m.rtr && m.dlc == 0 && m.state == MailboxState::Init,
            forall|i: int| 0 <= i < 8 ==> m.data[i] == 0,
    {
        Self { id: 0, ide: false, rtr: false, dlc: 0, data: [0; 8], state: MailboxState::Init }
    }

    pub fn encode_tir(&self) -> (r: u32)
        ensures
            r == self.tir(),
    {
        (if self.ide {
            (self.id & 0x1FFFFFFF) << 3 | 0x4
        } else {
            (self.id & 0x7FF) << 21 | 0x4
        }) | if self.rtr {
            0x2
        } else {
            0
        }
    }

    pub fn encode_tdtr(&self) -> (r: u32)
        ensures
            r == (self.dlc & 0xF) as u32,
    {
        (self.dlc as u32) & 0xF
    }

    pub fn encode_tdlr(&self) -> (r: u32)
        ensures
            r == self.tdlr(),
    {
        pack_le(self.data[0], self.data[1], self.data[2], self.data[3])
    }

    pub fn encode_tdhr(&self) -> (r: u32)
        ensures
            r == self.tdhr(),
    {
        pack_le(self.data[4], self.data[5], self.data[6], self.data[7])
    }

    pub fn encode_tsr(&self) -> (r: u8)
        ensures
            r == state_status(self.state),
    {
        match self.state {
            MailboxState::Init => 0x00,
            MailboxState::Pending(_) => 0x00,
            MailboxState::Working => 0x00,
            MailboxState::Done => 0x03,
            MailboxState::DoneError => 0x09,
        }
    }

    pub fn abort(&mut self)
        ensures
            *final(self) == (Mailbox { state: aborted_state(old(self).state), ..*old(self) }),
    {
        if let MailboxState::Pending(_) | MailboxState::Working = self.state {
            self.state = MailboxState::Init;
        }
    }

    pub fn is_empty(&self) -> (r: bool)
        ensures
            r == state_is_empty(self.state),
    {
        match self.state {
            MailboxState::Init => true,
            MailboxState::Done => true,
            MailboxState::DoneError => true,
            _ => false,
        }
    }

    pub fn write_tir(&mut self, value: u32)
        ensures
            *final(self) == old(self).written(0, value),
    {
        self.ide = (value & 0x4) != 0;
        self.rtr = (value & 0x2) != 0;
        if self.ide {
            self.id = (value >> 3) & 0x1FFFFFFF;
        } else {
            self.id = (value >> 21) & 0x7FF;
        }
        if value & 1 != 0 {
            self.state = MailboxState::Pending(0);
        }
    }

    pub fn write_tdtr(&mut self, value: u32)
        ensures
            *final(self) == old(self).written(4, value),
    {
        proof {
            lemma_bit_basics();
            assert(value & 0xF <= 0xF);
        }
        self.dlc = (value & 0xF) as u8;
    }

    pub fn write_tdlr(&mut self, value: u32)
        ensures
            *final(self) == old(self).written(8, value),
    {
        self.data[0] = byte_at(value, 0);
        self.data[1] = byte_at(value, 1);
        self.data[2] = byte_at(value, 2);
        self.data[3] = byte_at(value, 3);
        assert(self.data =~= old(self).written(8, value).data);
    }

    pub fn write_tdhr(&mut self, value: u32)
        ensures
            *final(self) == old(self).written(12, value),
    {
        self.data[4] = byte_at(value, 0);
        self.data[5] = byte_at(value, 1);
        self.data[6] = byte_at(value, 2);
        self.data[7] = byte_at(value, 3);
        assert(self.data =~= old(self).written(12, value).data);
    }
}

/// Priorities of the pending requests, in mailbox order.
pub open spec fn pending_priorities(s: Seq<Mailbox>) -> Seq<usize>
    decreases s.len(),
{
    if s.len() == 0 {
        Seq::empty()
    } else {
        let rest = pending_priorities(s.drop_last());
        match s.last().state {
            MailboxState::Pending(p) => rest.push(p),
            _ => rest,
        }
    }
}

/// Position of the last maximum of a list.
pub open spec fn last_max_index(p: Seq<usize>) -> Option<int>
    decreases p.len(),
{
    if p.len() == 0 {
        None
    } else {
        match last_max_index(p.drop_last()) {
            None => Some(p.len() - 1),
            Some(k) => if p.last() >= p[k] {
                Some(p.len() - 1)
            } else {
                Some(k)
            },
        }
    }
}

/// Index of the first mailbox from `k` on that can take a request.
pub open spec fn first_empty_from(s: Seq<Mailbox>, k: int) -> Option<int>
    decreases s.len() - k,
{
    if k < 0 || k >= s.len() {
        None
    } else if state_is_empty(s[k].state) {
        Some(k)
    } else {
        first_empty_from(s, k + 1)
    }
}

/// CAN_TSR: the lowest-priority flag at bit 5 + k, where k is the position,
/// among the pending requests, of the last one with the largest priority
/// value; the code of the first free mailbox at bits 24..26; the status byte
/// of each mailbox; and a "mailbox empty" flag at bit 26 + i.
pub open spec fn tsr_word(m: [Mailbox; 3]) -> u32 {
    let low = match last_max_index(pending_priorities(m@)) {
        Some(k) => 0x20u32 << (k as u32),
        None => 0,
    };
    let next = match first_empty_from(m@, 0) {
        Some(k) => (k as u32) << 24u32,
        None => 0,
    };
    let e0: u32 = if state_is_empty(m[0].state) {
        1u32 << 26u32
    } else {
        0
    };
    let e1: u32 = if state_is_empty(m[1].state) {
        1u32 << 27u32
    } else {
        0
    };
    let e2: u32 = if state_is_empty(m[2].state) {
        1u32 << 28u32
    } else {
        0
    };
    low | next | (state_status(m[0].state) as u32) | ((state_status(m[1].state) as u32) << 8u32)
        | ((state_status(m[2].state) as u32) << 16u32) | e0 | e1 | e2
}

proof fn lemma_pending_bound(s: Seq<Mailbox>)
    ensures
        pending_priorities(s).len() <= s.len(),
    decreases s.len(),
{
    if s.len() > 0 {
        lemma_pending_bound(s.drop_last());
    }
}

proof fn lemma_last_max_bound(p: Seq<usize>)
    ensures
        last_max_index(p) is Some ==> 0 <= last_max_index(p)->0 < p.len(),
        p.len() > 0 ==> last_max_index(p) is Some,
    decreases p.len(),
{
    if p.len() > 0 {
        lemma_last_max_bound(p.drop_last());
    }
}

/// CAN_TSR of three transmit mailboxes.
pub fn encode_tsr(tx: &[Mailbox; 3]) -> (tsr: u32)
    ensures
        tsr == tsr_word(*tx),
{
    let mut count: usize = 0;
    let mut best: Option<usize> = None;
    let mut best_prio: usize = 0;
    let mut i: usize = 0;
    while i < 3
        invariant
            i <= 3,
            count == pending_priorities(tx@.subrange(0, i as int)).len(),
            count <= i,
            match best {
                Some(k) => k < count && last_max_index(pending_priorities(tx@.subrange(0, i as int)))
                    == Some(k as int) && best_prio == pending_priorities(
                    tx@.subrange(0, i as int),
                )[k as int],
                None => last_max_index(pending_priorities(tx@.subrange(0, i as int))) is None,
            },
        decreases 3 - i,
    {
        proof {
            assert(tx@.subrange(0, i + 1).drop_last() == tx@.subrange(0, i as int));
            assert(tx@.subrange(0, i + 1).last() == tx[i as int]);
            lemma_last_max_bound(pending_priorities(tx@.subrange(0, i as int)));
        }
        let ghost rest = pending_priorities(tx@.subrange(0, i as int));
        if let MailboxState::Pending(p) = tx[i].state {
            proof {
                assert(pending_priorities(tx@.subrange(0, i + 1)) == rest.push(p));
                assert(rest.push(p).drop_last() == rest);
            }
            if best.is_none() || p >= best_prio {
                best = Some(count);
                best_prio = p;
            }
            count = count + 1;
        }
        i = i + 1;
    }
    assert(tx@.subrange(0, 3) == tx@);
    let mut next_free: Option<u32> = None;
    let mut j: usize = 3;
    while j > 0
        invariant
            j <= 3,
            match next_free {
                Some(k) => first_empty_from(tx@, j as int) == Some(k as int),
                None => first_empty_from(tx@, j as int) is None,
            },
        decreases j,
    {
        j = j - 1;
        if tx[j].is_empty() {
            next_free = Some(j as u32);
        }
    }
    let low: u32 = match best {
        Some(l) => {
            proof {
                lemma_pending_bound(tx@);
            }
            0x20u32 << (l as u32)
        },
        None => 0,
    };
    let next: u32 = match next_free {
        Some(n) => {
            n << 24
        },
        None => 0,
    };
    let s0 = tx[0].encode_tsr() as u32;
    let s1 = tx[1].encode_tsr() as u32;
    let s2 = tx[2].encode_tsr() as u32;
    let e0: u32 = if tx[0].is_empty() {
        1 << 26
    } else {
        0
    };
    let e1: u32 = if tx[1].is_empty() {
        1 << 27
    } else {
        0
    };
    let e2: u32 = if tx[2].is_empty() {
        1 << 28
    } else {
        0
    };
    let mut tsr: u32 = 0;
    tsr |= low;
    tsr |= next;
    tsr |= s0;
    tsr |= e0;
    tsr |= s1 << 8;
    tsr |= e1;
    tsr |= s2 << 16;
    tsr |= e2;
    proof {
        assert(((((((((0u32 | low) | next) | s0) | e0) | (s1 << 8u32)) | e1) | (s2 << 16u32)) | e2)
            == low | next | s0 | (s1 << 8u32) | (s2 << 16u32) | e0 | e1 | e2) by (bit_vector);
    }
    tsr
}

/// The single-file bxCAN controller.
pub struct BXCanRegion {
    pub start_addr: usize,
    pub state: CANState,
    pub bit_timing: BitTiming,
    pub filters: FilterBank,
    pub tx_mailboxes: [Mailbox; 3],
    pub rx_mailboxes: [Mailbox; 2],
    pub fifo0_pending_int_enable: bool,
    pub fifo1_pending_int_enable: bool,
}

/// Mailbox `i` of a bank after `value` is written at offset `off`, the
/// bank's registers starting at `base`.
pub open spec fn bank_written(m: Mailbox, i: int, base: int, off: int, value: u32) -> Mailbox {
    if base <= off < base + 0x40 && off % 4 == 0 && (off - base) / 16 == i {
        m.written((off - base) % 16, value)
    } else {
        m
    }
}

impl BXCanRegion {
    /// The offset of `address` within the block.
    pub open spec fn offset(&self, address: usize) -> usize {
        (address - self.start_addr) as usize
    }

    /// The value a read returns.
    pub open spec fn read_spec(&self, address: usize) -> u32 {
        let off = self.offset(address);
        if off == 0x000 {
            mcr_word(self.state)
        } else if off == 0x004 {
            msr_word(self.state)
        } else if off == 0x008 {
            tsr_word(self.tx_mailboxes)
        } else if off == 0x014 {
            ier_word(self.fifo0_pending_int_enable, self.fifo1_pending_int_enable)
        } else if off == 0x018 {
            0
        } else if off == 0x01C {
            self.bit_timing.btr()
        } else if is_tx_register(off) {
            self.tx_mailboxes[(off - 0x180) / 16].register(((off - 0x180) % 16) as int)
        } else if is_rx_register(off) {
            self.rx_mailboxes[(off - 0x1B0) / 16].register(((off - 0x1B0) % 16) as int)
        } else {
            self.filters.read_spec(off)
        }
    }

    pub fn new(start_addr: usize) -> (r: Self)
        ensures
            r.start_addr == start_addr,
            r.state == CANState::Sleep,
            r.bit_timing.btr() == 0x0023_0000,
            r.filters.filters.state == super::bxcan::can_filter::CANFilterState::Active,
            forall|i: int| 0 <= i < 3 ==> (#[trigger] r.tx_mailboxes[i]).state == MailboxState::Init,
            forall|i: int| 0 <= i < 2 ==> (#[trigger] r.rx_mailboxes[i]).state == MailboxState::Init,
            !r.fifo0_pending_int_enable,
            !r.fifo1_pending_int_enable,
    {
        Self {
            start_addr,
            state: CANState::Sleep,
            bit_timing: BitTiming::new(),
            filters: FilterBank::new(),
            tx_mailboxes: [Mailbox::new(), Mailbox::new(), Mailbox::new()],
            rx_mailboxes: [Mailbox::new(), Mailbox::new()],
            fifo0_pending_int_enable: false,
            fifo1_pending_int_enable: false,
        }
    }

    /// The controller, boxed for the bus.
    pub fn new_boxed(start_addr: usize) -> (r: Box<Self>)
        ensures
            r.start_addr == start_addr,
            r.state == CANState::Sleep,
            r.bit_timing.btr() == 0x0023_0000,
            r.filters.filters.state == super::bxcan::can_filter::CANFilterState::Active,
            forall|i: int| 0 <= i < 3 ==> (#[trigger] r.tx_mailboxes[i]).state == MailboxState::Init,
            forall|i: int| 0 <= i < 2 ==> (#[trigger] r.rx_mailboxes[i]).state == MailboxState::Init,
            !r.fifo0_pending_int_enable,
            !r.fifo1_pending_int_enable,
    {
        Box::new(Self::new(start_addr))
    }

    pub fn encode_mcr(&self) -> (r: u32)
        ensures
            r == mcr_word(self.state),
    {
        encode_mcr(self.state)
    }

    pub fn encode_msr(&self) -> (r: u32)
        ensures
            r == msr_word(self.state),
    {
        encode_msr(self.state)
    }

    pub fn encode_ier(&self) -> (r: u32)
        ensures
            r == ier_word(self.fifo0_pending_int_enable, self.fifo1_pending_int_enable),
    {
        encode_ier(self.fifo0_pending_int_enable, self.fifo1_pending_int_enable)
    }
}

impl MmioHandler for BXCanRegion {
    open spec fn read_ok(&self, address: usize) -> bool {
        let off = self.offset(address);
        &&& self.start_addr <= address
        &&& {
            ||| off == 0x000
            ||| off == 0x004
            ||| off == 0x008
            ||| off == 0x014
            ||| off == 0x018
            ||| off == 0x01C
            ||| is_tx_register(off)
            ||| is_rx_register(off)
            ||| self.filters.read_ok(off)
        }
    }

    open spec fn write_ok(&self, address: usize, value: u64) -> bool {
        let off = self.offset(address);
        let v = value as u32;
        &&& self.start_addr <= address
        &&& {
            ||| (off == 0x000 && mcr_write_ok(v))
            ||| off == 0x014
            ||| off == 0x01C
            ||| is_tx_register(off)
            ||| is_rx_register(off)
            ||| self.filters.write_ok(off, v)
        }
    }

    open spec fn covers(&self, address: usize) -> bool {
        self.start_addr <= address < self.start_addr + BXCAN_REGION_SIZE
    }

    open spec fn read_value(&self, address: usize) -> u32 {
        self.read_spec(address)
    }

    open spec fn read_done(&self, address: usize, next: &Self) -> bool {
        *next == *self
    }

    fn read(&mut self, address: usize) -> (r: u32) {
        let offset = address - self.start_addr;
        if offset == 0x000 {
            return self.encode_mcr();
        }
        if offset == 0x004 {
            return self.encode_msr();
        }
        if offset == 0x008 {
            return encode_tsr(&self.tx_mailboxes);
        }
        if offset == 0x014 {
            return self.encode_ier();
        }
        if offset == 0x018 {
            return 0;
        }
        if offset == 0x01C {
            return self.bit_timing.encode();
        }
        if offset == 0x180 {
            return self.tx_mailboxes[0].encode_tir();
        }
        if offset == 0x184 {
            return self.tx_mailboxes[0].encode_tdtr();
        }
        if offset == 0x188 {
            return self.tx_mailboxes[0].encode_tdlr();
        }
        if offset == 0x18C {
            return self.tx_mailboxes[0].encode_tdhr();
        }
        if offset == 0x190 {
            return self.tx_mailboxes[1].encode_tir();
        }
        if offset == 0x194 {
            return self.tx_mailboxes[1].encode_tdtr();
        }
        if offset == 0x198 {
            return self.tx_mailboxes[1].encode_tdlr();
        }
        if offset == 0x19C {
            return self.tx_mailboxes[1].encode_tdhr();
        }
        if offset == 0x1A0 {
            return self.tx_mailboxes[2].encode_tir();
        }
        if offset == 0x1A4 {
            return self.tx_mailboxes[2].encode_tdtr();
        }
        if offset == 0x1A8 {
            return self.tx_mailboxes[2].encode_tdlr();
        }
        if offset == 0x1AC {
            return self.tx_mailboxes[2].encode_tdhr();
        }
        if offset == 0x1B0 {
            return self.rx_mailboxes[0].encode_tir();
        }
        if offset == 0x1B4 {
            return self.rx_mailboxes[0].encode_tdtr();
        }
        if offset == 0x1B8 {
            return self.rx_mailboxes[0].encode_tdlr();
        }
        if offset == 0x1BC {
            return self.rx_mailboxes[0].encode_tdhr();
        }
        if offset == 0x1C0 {
            return self.rx_mailboxes[1].encode_tir();
        }
        if offset == 0x1C4 {
            return self.rx_mailboxes[1].encode_tdtr();
        }
        if offset == 0x1C8 {
            return self.rx_mailboxes[1].encode_tdlr();
        }
        if offset == 0x1CC {
            return self.rx_mailboxes[1].encode_tdhr();
        }
        self.filters.read(offset)
    }

    /// The controller after a write of the low 32 bits of `value`.
    open spec fn written(&self, address: usize, value: u64, next: &Self) -> bool {
        let off = self.offset(address);
        let v = value as u32;
        &&& next.state == (if off == 0 {
            mcr_next_state(self.state, v)
        } else {
            self.state
        })
        &&& next.fifo0_pending_int_enable == (if off == 0x014 {
            v & 0x02 != 0
        } else {
            self.fifo0_pending_int_enable
        })
        &&& next.fifo1_pending_int_enable == (if off == 0x014 {
            v & 0x10 != 0
        } else {
            self.fifo1_pending_int_enable
        })
        &&& next.bit_timing.btr() == (if off == 0x01C {
            v & btr_mask()
        } else {
            self.bit_timing.btr()
        })
        &&& forall|i: int|
            0 <= i < 3 ==> #[trigger] next.tx_mailboxes[i] == bank_written(
                self.tx_mailboxes[i],
                i,
                0x180,
                off as int,
                v,
            )
        &&& forall|i: int|
            0 <= i < 2 ==> #[trigger] next.rx_mailboxes[i] == bank_written(
                self.rx_mailboxes[i],
                i,
                0x1B0,
                off as int,
                v,
            )
        &&& if self.filters.write_ok(off, v) {
            self.filters.written(&next.filters, off, v)
        } else {
            next.filters == self.filters
        }
        &&& next.start_addr == self.start_addr
    }

    fn write(&mut self, address: usize, value: u64) {
        let value = value as u32;
        let offset = address - self.start_addr;
        if offset == 0x000 {
            self.state = write_mcr(self.state, value);
            return;
        }
        if offset == 0x014 {
            self.fifo0_pending_int_enable = value & 0x02 != 0;
            self.fifo1_pending_int_enable = value & 0x10 != 0;
            return;
        }
        if offset == 0x1C {
            self.bit_timing.write(value);
            return;
        }
        if offset == 0x180 {
            self.tx_mailboxes[0].write_tir(value);
            return;
        }
        if offset == 0x184 {
            self.tx_mailboxes[0].write_tdtr(value);
            return;
        }
        if offset == 0x188 {
            self.tx_mailboxes[0].write_tdlr(value);
            return;
        }
        if offset == 0x18C {
            self.tx_mailboxes[0].write_tdhr(value);
            return;
        }
        if offset == 0x190 {
            self.tx_mailboxes[1].write_tir(value);
            return;
        }
        if offset == 0x194 {
            self.tx_mailboxes[1].write_tdtr(value);
            return;
        }
        if offset == 0x198 {
            self.tx_mailboxes[1].write_tdlr(value);
            return;
        }
        if offset == 0x19C {
            self.tx_mailboxes[1].write_tdhr(value);
            return;
        }
        if offset == 0x1A0 {
            self.tx_mailboxes[2].write_tir(value);
            return;
        }
        if offset == 0x1A4 {
            self.tx_mailboxes[2].write_tdtr(value);
            return;
        }
        if offset == 0x1A8 {
            self.tx_mailboxes[2].write_tdlr(value);
            return;
        }
        if offset == 0x1AC {
            self.tx_mailboxes[2].write_tdhr(value);
            return;
        }
        if offset == 0x1B0 {
            self.rx_mailboxes[0].write_tir(value);
            return;
        }
        if offset == 0x1B4 {
            self.rx_mailboxes[0].write_tdtr(value);
            return;
        }
        if offset == 0x1B8 {
            self.rx_mailboxes[0].write_tdlr(value);
            return;
        }
        if offset == 0x1BC {
            self.rx_mailboxes[0].write_tdhr(value);
            return;
        }
        if offset == 0x1C0 {
            self.rx_mailboxes[1].write_tir(value);
            return;
        }
        if offset == 0x1C4 {
            self.rx_mailboxes[1].write_tdtr(value);
            return;
        }
        if offset == 0x1C8 {
            self.rx_mailboxes[1].write_tdlr(value);
            return;
        }
        if offset == 0x1CC {
            self.rx_mailboxes[1].write_tdhr(value);
            return;
        }
        self.filters.write(offset, value);
    }

    fn contains(&self, address: usize) -> (r: bool) {
        address >= self.start_addr && address - self.start_addr < BXCAN_REGION_SIZE
    }

    fn can_read(&self, address: usize) -> (r: bool) {
        if address < self.start_addr {
            return false;
        }
        let off = address - self.start_addr;
        off == 0x000 || off == 0x004 || off == 0x008 || off == 0x014 || off == 0x018 || off
            == 0x01C || (0x180 <= off && off <= 0x1AC && off % 4 == 0) || (0x1B0 <= off && off
            <= 0x1CC && off % 4 == 0) || self.filters.can_read(off)
    }

    fn can_write(&self, address: usize, value: u64) -> (r: bool) {
        if address < self.start_addr {
            return false;
        }
        let off = address - self.start_addr;
        let v = value as u32;
        (off == 0x000 && v & 0xFC == 0) || off == 0x014 || off == 0x01C || (0x180 <= off && off
            <= 0x1AC && off % 4 == 0) || (0x1B0 <= off && off <= 0x1CC && off % 4 == 0)
            || self.filters.can_write(off, v)
    }
}

} // verus!
