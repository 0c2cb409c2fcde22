//! The bxCAN controller built from its parts: bit timing, transmit and
//! receive mailboxes and the acceptance filters.
pub mod bit_timing;
pub mod can_mode;
pub mod can_state;
pub mod control;
pub mod fifo_index;
pub mod filter_scale;
pub mod can_message;
pub mod mailbox;
pub mod mailboxes;
pub mod can_filter;

use vstd::prelude::*;

use bit_timing::{btr_mask, BitTiming};
use can_filter::{
    filter_read_ok, filter_write_ok, is_filter_register, route_from, written_filter,
    written_state, CANFilters,
};
use can_message::CANMessage;
use can_state::CANState;
use control::{
    encode_ier, encode_mcr, encode_msr, ier_word, mcr_next_state, mcr_word, msr_word,
    mcr_write_ok, write_mcr,
};
use fifo_index::FIFOIndex;
use mailbox::Mailbox;
use mailboxes::{is_tx_register, mailbox_register, mailbox_written, TXMailbox};

use super::mmio_handler::MmioHandler;

verus! {

/// Size of the bxCAN register block.
pub const BXCAN_REGION_SIZE: usize = 0x2B0;

/// Offsets of the receive FIFO mailbox registers: 0x1B0 + 0x10 * i + 4 * r.
pub open spec fn is_rx_register(offset: usize) -> bool {
    0x1B0 <= offset <= 0x1CC && offset % 4 == 0
}

/// The bxCAN controller: control and status, bit timing, three transmit
/// mailboxes, two receive FIFO mailboxes and the acceptance filters.
/// Frames whose transmission is requested are queued in `tx_frames` for
/// sending on the bus; received frames enter through
/// [`BXCanRegion::receive`].
pub struct BXCanRegion {
    pub start_addr: usize,
    pub state: CANState,
    pub bit_timing: BitTiming,
    pub filters: CANFilters,
    pub tx_mailboxes: TXMailbox,
    pub rx_mailboxes: [Mailbox; 2],
    pub fifo0_pending_int_enable: bool,
    pub fifo1_pending_int_enable: bool,
    pub tx_frames: Vec<CANMessage>,
}

impl BXCanRegion {
    /// The value a read returns.
    pub open spec fn read_spec(&self, address: usize) -> u32 {
        let off = (address - self.start_addr) as usize;
        if off == 0x000 {
            mcr_word(self.state)
        } else if off == 0x004 {
            msr_word(self.state)
        } else if off == 0x00C {
            0
        } else if self.tx_mailboxes.read_spec(off) is Some {
            self.tx_mailboxes.read_spec(off)->0
        } else if off == 0x014 {
            ier_word(self.fifo0_pending_int_enable, self.fifo1_pending_int_enable)
        } else if off == 0x018 {
            0
        } else if off == 0x01C {
            self.bit_timing.btr()
        } else if is_rx_register(off) {
            mailbox_register(self.rx_mailboxes[(off - 0x1B0) / 16], ((off - 0x1B0) % 16) as int)
        } else {
            self.filters.read_spec((off - 0x200) as usize)->0
        }
    }

    /// Receive mailbox `j` after `value` is written at offset `off`.
    pub open spec fn written_rx(&self, j: int, off: usize, value: u32) -> Mailbox {
        if is_rx_register(off) && off != 0x1B0 && (off - 0x1B0) / 16 == j {
            mailbox_written(self.rx_mailboxes[j], ((off - 0x1B0) % 16) as int, value)
        } else {
            self.rx_mailboxes[j]
        }
    }

    pub fn new(start_addr: usize) -> (r: Self)
        ensures
            r.start_addr == start_addr,
            r.state == CANState::Sleep,
            r.bit_timing.btr() == 0x0023_0000,
            r.filters.state == can_filter::CANFilterState::Init,
            forall|i: int| 0 <= i < 14 ==> #[trigger] r.filters.filters[i] == can_filter::reset_filter(),
            forall|i: int| 0 <= i < 3 ==> #[trigger] r.tx_mailboxes.mailbox(i) == mailbox::empty_mailbox(),
            r.tx_mailboxes.last_send() == 0,
            r.rx_mailboxes[0] == mailbox::empty_mailbox(),
            r.rx_mailboxes[1] == mailbox::empty_mailbox(),
            !r.fifo0_pending_int_enable,
            !r.fifo1_pending_int_enable,
            r.tx_frames@ == Seq::<CANMessage>::empty(),
    {
        Self {
            start_addr,
            state: CANState::Sleep,
            bit_timing: BitTiming::new(),
            filters: CANFilters::new(),
            tx_mailboxes: TXMailbox::new(),
            rx_mailboxes: [Mailbox::new(), Mailbox::new()],
            fifo0_pending_int_enable: false,
            fifo1_pending_int_enable: false,
            tx_frames: Vec::new(),
        }
    }

    /// The controller, boxed for the bus.
    pub fn new_boxed(start_addr: usize) -> (r: Box<Self>)
        ensures
            r.start_addr == start_addr,
            r.state == CANState::Sleep,
            r.bit_timing.btr() == 0x0023_0000,
            r.filters.state == can_filter::CANFilterState::Init,
            forall|i: int| 0 <= i < 14 ==> #[trigger] r.filters.filters[i] == can_filter::reset_filter(),
            forall|i: int| 0 <= i < 3 ==> #[trigger] r.tx_mailboxes.mailbox(i) == mailbox::empty_mailbox(),
            r.tx_mailboxes.last_send() == 0,
            r.rx_mailboxes[0] == mailbox::empty_mailbox(),
            r.rx_mailboxes[1] == mailbox::empty_mailbox(),
            !r.fifo0_pending_int_enable,
            !r.fifo1_pending_int_enable,
            r.tx_frames@ == Seq::<CANMessage>::empty(),
    {
        Box::new(Self::new(start_addr))
    }

    pub fn encode_mcr(&self) -> (r: u32)
        ensures
            r == mcr_word(self.state),
    {
        encode_mcr(self.state)
    }

    pub fn encode_msr(&self) -> (r: u32)
        ensures
            r == msr_word(self.state),
    {
        encode_msr(self.state)
    }

    pub fn encode_ier(&self) -> (r: u32)
        ensures
            r == ier_word(self.fifo0_pending_int_enable, self.fifo1_pending_int_enable),
    {
        encode_ier(self.fifo0_pending_int_enable, self.fifo1_pending_int_enable)
    }

    /// Writes the register at `address` (the low 32 bits of `value`);
    /// returns the frame a transmit request hands over for sending.
    fn write_register(&mut self, address: usize, value: u64) -> (sent: Option<CANMessage>)
        requires
            old(self).write_ok(address, value),
        ensures
            ({
                let off = (address - old(self).start_addr) as usize;
                let v = value as u32;
                &&& sent == old(self).tx_mailboxes.sent_spec(off, v)
                &&& forall|i: int|
                    0 <= i < 3 ==> #[trigger] final(self).tx_mailboxes.mailbox(i)
                        == old(self).tx_mailboxes.written_mailbox(i, off, v)
                &&& final(self).tx_mailboxes.last_send() == old(self).tx_mailboxes.last_send()
                &&& final(self).state == (if off == 0 {
                    mcr_next_state(old(self).state, v)
                } else {
                    old(self).state
                })
                &&& final(self).fifo0_pending_int_enable == (if off == 0x014 {
                    v & 0x02 != 0
                } else {
                    old(self).fifo0_pending_int_enable
                })
                &&& final(self).fifo1_pending_int_enable == (if off == 0x014 {
                    v & 0x10 != 0
                } else {
                    old(self).fifo1_pending_int_enable
                })
                &&& final(self).bit_timing.btr() == (if off == 0x01C {
                    v & btr_mask()
                } else {
                    old(self).bit_timing.btr()
                })
                &&& final(self).rx_mailboxes[0] == old(self).written_rx(0, off, v)
                &&& final(self).rx_mailboxes[1] == old(self).written_rx(1, off, v)
                &&& forall|i: int|
                    0 <= i < 14 ==> #[trigger] final(self).filters.filters[i] == (if 0x200 <= off
                        <= 0x2B0 {
                        written_filter(old(self).filters.filters[i], i, (off - 0x200) as usize, v)
                    } else {
                        old(self).filters.filters[i]
                    })
                &&& final(self).filters.state == (if 0x200 <= off <= 0x2B0 {
                    written_state(old(self).filters.state, (off - 0x200) as usize, v)
                } else {
                    old(self).filters.state
                })
                &&& final(self).start_addr == old(self).start_addr
                &&& final(self).tx_frames@ == old(self).tx_frames@
            }),
    {
        let value = value as u32;
        let offset = address - self.start_addr;
        let sent = self.tx_mailboxes.write(offset, value);
        if 0x180 <= offset && offset <= 0x1B0 {
            return sent;
        }
        if offset == 0x000 {
            self.state = write_mcr(self.state, value);
            return sent;
        }
        if offset == 0x00C {
            return sent;
        }
        if offset == 0x014 {
            self.fifo0_pending_int_enable = value & 0x02 != 0;
            self.fifo1_pending_int_enable = value & 0x10 != 0;
            return sent;
        }
        if offset == 0x1C {
            self.bit_timing.write(value);
            return sent;
        }
        if offset == 0x1B4 {
            self.rx_mailboxes[0].write_tdtr(value);
            return sent;
        }
        if offset == 0x1B8 {
            self.rx_mailboxes[0].write_tdlr(value);
            return sent;
        }
        if offset == 0x1BC {
            self.rx_mailboxes[0].write_tdhr(value);
            return sent;
        }
        if offset == 0x1C0 {
            self.rx_mailboxes[1].write_tir(value);
            return sent;
        }
        if offset == 0x1C4 {
            self.rx_mailboxes[1].write_tdtr(value);
            return sent;
        }
        if offset == 0x1C8 {
            self.rx_mailboxes[1].write_tdlr(value);
            return sent;
        }
        if offset == 0x1CC {
            self.rx_mailboxes[1].write_tdhr(value);
            return sent;
        }
        self.filters.handle_write(offset - 0x200, value);
        sent
    }

    /// Hands over the frames whose transmission was requested, oldest
    /// first.
    pub fn take_frames(&mut self) -> (frames: Vec<CANMessage>)
        ensures
            frames@ == old(self).tx_frames@,
            final(self).tx_frames@ == Seq::<CANMessage>::empty(),
            final(self).start_addr == old(self).start_addr,
            final(self).state == old(self).state,
            final(self).bit_timing == old(self).bit_timing,
            final(self).filters == old(self).filters,
            final(self).tx_mailboxes == old(self).tx_mailboxes,
            final(self).rx_mailboxes == old(self).rx_mailboxes,
            final(self).fifo0_pending_int_enable == old(self).fifo0_pending_int_enable,
            final(self).fifo1_pending_int_enable == old(self).fifo1_pending_int_enable,
    {
        let mut frames: Vec<CANMessage> = Vec::new();
        std::mem::swap(&mut frames, &mut self.tx_frames);
        frames
    }

    /// A frame arrives from the bus: the filters pick the receive FIFO, the
    /// frame is stored in that FIFO's mailbox, and the interrupt number to
    /// raise (exception 36 for FIFO 0, 37 for FIFO 1) is returned.  A frame
    /// that no filter accepts is dropped.
    pub fn receive(&mut self, msg: CANMessage) -> (irq: Option<u32>)
        ensures
            ({
                let fifo = route_from(old(self).filters.filters, msg.id, true, 0);
                &&& irq == (match fifo {
                    Some(FIFOIndex::FIFO0) => Some(36u32),
                    Some(FIFOIndex::FIFO1) => Some(37u32),
                    None => None,
                })
                &&& final(self).rx_mailboxes[0] == (if fifo == Some(FIFOIndex::FIFO0) {
                    old(self).rx_mailboxes[0].stored(msg)
                } else {
                    old(self).rx_mailboxes[0]
                })
                &&& final(self).rx_mailboxes[1] == (if fifo == Some(FIFOIndex::FIFO1) {
                    old(self).rx_mailboxes[1].stored(msg)
                } else {
                    old(self).rx_mailboxes[1]
                })
            }),
            final(self).filters.filters == old(self).filters.filters,
            final(self).filters.state == old(self).filters.state,
            final(self).tx_mailboxes == old(self).tx_mailboxes,
            final(self).state == old(self).state,
            final(self).start_addr == old(self).start_addr,
            final(self).bit_timing == old(self).bit_timing,
            final(self).fifo0_pending_int_enable == old(self).fifo0_pending_int_enable,
            final(self).fifo1_pending_int_enable == old(self).fifo1_pending_int_enable,
            final(self).tx_frames@ == old(self).tx_frames@,
    {
        let fifo = self.filters.route_message(msg.get_id(), true);
        if let Some(fifo) = fifo {
            let irqn: u32 = match fifo {
                FIFOIndex::FIFO0 => 20,
                FIFOIndex::FIFO1 => 21,
            };
            if fifo == FIFOIndex::FIFO0 {
                self.rx_mailboxes[0].store_message(msg);
            } else {
                self.rx_mailboxes[1].store_message(msg);
            }
            Some(16 + irqn)
        } else {
            None
        }
    }
}

impl MmioHandler for BXCanRegion {
    /// Accesses that do not panic: the known control, status, mailbox and
    /// filter registers.
    open spec fn read_ok(&self, address: usize) -> bool {
        let off = (address - self.start_addr) as usize;
        &&& self.start_addr <= address
        &&& {
            ||| off == 0x000
            ||| off == 0x004
            ||| off == 0x008
            ||| off == 0x00C
            ||| is_tx_register(off)
            ||| off == 0x014
            ||| off == 0x018
            ||| off == 0x01C
            ||| is_rx_register(off)
            ||| (0x200 <= off <= 0x2B0 && is_filter_register((off - 0x200) as usize)
                && filter_read_ok((off - 0x200) as usize))
        }
    }

    /// Writes that do not panic.  The whole transmit mailbox block
    /// (0x180..=0x1B0) is accepted, which also swallows writes to the first
    /// receive identifier register; a write to CAN_TSR is not.
    open spec fn write_ok(&self, address: usize, value: u64) -> bool {
        let off = (address - self.start_addr) as usize;
        let v = value as u32;
        &&& self.start_addr <= address
        &&& {
            ||| 0x180 <= off <= 0x1B0
            ||| (off == 0x000 && mcr_write_ok(v))
            ||| off == 0x00C
            ||| off == 0x014
            ||| off == 0x01C
            ||| is_rx_register(off)
            ||| (0x200 <= off <= 0x2B0 && filter_write_ok((off - 0x200) as usize, v))
        }
    }

    open spec fn covers(&self, address: usize) -> bool {
        self.start_addr <= address < self.start_addr + BXCAN_REGION_SIZE
    }

    open spec fn read_value(&self, address: usize) -> u32 {
        self.read_spec(address)
    }

    open spec fn read_done(&self, address: usize, next: &Self) -> bool {
        *next == *self
    }

    /// The controller after a write of the low 32 bits of `value`; a frame
    /// whose transmission the write requests joins `tx_frames`.
    open spec fn written(&self, address: usize, value: u64, next: &Self) -> bool {
        let off = (address - self.start_addr) as usize;
        let v = value as u32;
        &&& next.tx_frames@ == (match self.tx_mailboxes.sent_spec(off, v) {
            Some(m) => self.tx_frames@.push(m),
            None => self.tx_frames@,
        })
        &&& forall|i: int|
            0 <= i < 3 ==> #[trigger] next.tx_mailboxes.mailbox(i)
                == self.tx_mailboxes.written_mailbox(i, off, v)
        &&& next.tx_mailboxes.last_send() == self.tx_mailboxes.last_send()
        &&& next.state == (if off == 0 {
            mcr_next_state(self.state, v)
        } else {
            self.state
        })
        &&& next.fifo0_pending_int_enable == (if off == 0x014 {
            v & 0x02 != 0
        } else {
            self.fifo0_pending_int_enable
        })
        &&& next.fifo1_pending_int_enable == (if off == 0x014 {
            v & 0x10 != 0
        } else {
            self.fifo1_pending_int_enable
        })
        &&& next.bit_timing.btr() == (if off == 0x01C {
            v & btr_mask()
        } else {
            self.bit_timing.btr()
        })
        &&& next.rx_mailboxes[0] == self.written_rx(0, off, v)
        &&& next.rx_mailboxes[1] == self.written_rx(1, off, v)
        &&& forall|i: int|
            0 <= i < 14 ==> #[trigger] next.filters.filters[i] == (if 0x200 <= off
                <= 0x2B0 {
                written_filter(self.filters.filters[i], i, (off - 0x200) as usize, v)
            } else {
                self.filters.filters[i]
            })
        &&& next.filters.state == (if 0x200 <= off <= 0x2B0 {
            written_state(self.filters.state, (off - 0x200) as usize, v)
        } else {
            self.filters.state
        })
        &&& next.start_addr == self.start_addr
    }

    fn read(&mut self, address: usize) -> (r: u32) {
        let offset = address - self.start_addr;
        if offset == 0x000 {
            return self.encode_mcr();
        }
        if offset == 0x004 {
            return self.encode_msr();
        }
        if offset == 0x00C {
            return 0;
        }
        if let Some(value) = self.tx_mailboxes.read(offset) {
            return value;
        }
        if offset == 0x014 {
            return self.encode_ier();
        }
        if offset == 0x018 {
            return 0;
        }
        if offset == 0x01C {
            return self.bit_timing.encode();
        }
        if offset == 0x1B0 {
            return self.rx_mailboxes[0].encode_tir();
        }
        if offset == 0x1B4 {
            return self.rx_mailboxes[0].encode_tdtr();
        }
        if offset == 0x1B8 {
            return self.rx_mailboxes[0].encode_tdlr();
        }
        if offset == 0x1BC {
            return self.rx_mailboxes[0].encode_tdhr();
        }
        if offset == 0x1C0 {
            return self.rx_mailboxes[1].encode_tir();
        }
        if offset == 0x1C4 {
            return self.rx_mailboxes[1].encode_tdtr();
        }
        if offset == 0x1C8 {
            return self.rx_mailboxes[1].encode_tdlr();
        }
        if offset == 0x1CC {
            return self.rx_mailboxes[1].encode_tdhr();
        }
        let r = self.filters.handle_read(offset - 0x200);
        r.unwrap()
    }


    fn write(&mut self, address: usize, value: u64) {
        let sent = self.write_register(address, value);
        if let Some(frame) = sent {
            self.tx_frames.push(frame);
        }
    }

    fn contains(&self, address: usize) -> (r: bool) {
        address >= self.start_addr && address - self.start_addr < BXCAN_REGION_SIZE
    }

    fn can_read(&self, address: usize) -> (r: bool) {
        if address < self.start_addr {
            return false;
        }
        let off = address - self.start_addr;
        off == 0x000 || off == 0x004 || off == 0x008 || off == 0x00C || (0x180 <= off && off
            <= 0x1AC && off % 4 == 0) || off == 0x014 || off == 0x018 || off == 0x01C || (0x1B0
            <= off && off <= 0x1CC && off % 4 == 0) || (0x200 <= off && off <= 0x2B0
            && can_filter::is_filter_offset(off - 0x200) && can_filter::filter_read_accepted(
            off - 0x200,
        ))
    }

    fn can_write(&self, address: usize, value: u64) -> (r: bool) {
        if address < self.start_addr {
            return false;
        }
        let off = address - self.start_addr;
        let v = value as u32;
        (0x180 <= off && off <= 0x1B0) || (off == 0x000 && v & 0xFC == 0) || off == 0x00C || off
            == 0x014 || off == 0x01C || (0x1B0 <= off && off <= 0x1CC && off % 4 == 0) || (0x200
            <= off && off <= 0x2B0 && can_filter::filter_write_accepted(off - 0x200, v))
    }
}

} // verus!
