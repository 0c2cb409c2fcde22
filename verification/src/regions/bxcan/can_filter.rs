use vstd::prelude::*;

use super::fifo_index::FIFOIndex;
use super::filter_scale::FilterScale;
use crate::bits::{bit, flag_word, lemma_bit_basics, lemma_bit_ext, lemma_low_masks, lemma_flag_word_low_bits, lemma_flag_word_push, low_bits, set_bit_if};

verus! {

/// Filter initialisation mode bit (FINIT) of the filter master register.
#[derive(Clone, Copy, Debug, PartialEq, Eq, Structural)]
pub enum CANFilterState {
    Init,
    Active,
}

/// Whether a filter bank holds an identifier and a mask or a list of
/// identifiers.
#[derive(Clone, Copy, Debug, PartialEq, Eq, Structural)]
pub enum CANFilterType {
    Mask,
    List,
}

/// One acceptance filter bank.
#[derive(Clone, Copy, Debug)]
pub struct CANFilter {
    pub activated: bool,
    pub fifo_assignment: FIFOIndex,
    pub scale: FilterScale,
    pub bank0: u32,
    pub bank1: u32,
    pub filter_type: CANFilterType,
}

/// Number of filter banks of the STM32F303x8 (banks 0..13).
pub const FILTER_BANKS: usize = 14;

/// The filter registers, at offsets relative to the filter block.
pub struct CANFilters {
    pub filters: [CANFilter; 14],
    pub state: CANFilterState,
}

/// The reset filter bank.
pub open spec fn reset_filter() -> CANFilter {
    CANFilter {
        activated: false,
        fifo_assignment: FIFOIndex::FIFO0,
        scale: FilterScale::Scale16Bit,
        bank0: 0,
        bank1: 0,
        filter_type: CANFilterType::Mask,
    }
}

/// Filter master register: fixed start-bank fields, FINIT set while the
/// filters are in initialisation.
pub open spec fn master_word(state: CANFilterState) -> u32 {
    0x2A1C0E00u32 | (if state == CANFilterState::Init {
        1u32
    } else {
        0u32
    })
}

pub open spec fn list_flags(filters: [CANFilter; 14]) -> Seq<bool> {
    Seq::new(14, |i: int| filters[i].filter_type == CANFilterType::List)
}

pub open spec fn scale32_flags(filters: [CANFilter; 14]) -> Seq<bool> {
    Seq::new(14, |i: int| filters[i].scale == FilterScale::Scale32Bit)
}

pub open spec fn fifo1_flags(filters: [CANFilter; 14]) -> Seq<bool> {
    Seq::new(14, |i: int| filters[i].fifo_assignment == FIFOIndex::FIFO1)
}

pub open spec fn active_flags(filters: [CANFilter; 14]) -> Seq<bool> {
    Seq::new(14, |i: int| filters[i].activated)
}

/// Offsets answered by the filter block.
pub open spec fn is_filter_register(offset: usize) -> bool {
    offset == 0x00 || offset == 0x04 || offset == 0x0C || offset == 0x14 || offset == 0x1C || (
    0x40 <= offset <= 0xAC)
}

/// The bank a bank register at `offset` (0x40..0xAC) belongs to: each bank
/// has two 32-bit registers, 8 bytes apart from the next bank.
pub open spec fn bank_of(offset: usize) -> int {
    (offset - 0x40) / 8
}

/// Whether the bank register at `offset` is the first of its bank's two.
pub open spec fn is_first_word(offset: usize) -> bool {
    (offset - 0x40) % 8 < 4
}

/// A write the filter block accepts: the scale, assignment and activation
/// registers keep the bits above the 14 banks clear.  The master register
/// takes any value (firmware writes FINIT without the reset pattern), and
/// every bank register of the 14 banks takes any value.
pub open spec fn filter_write_ok(offset: usize, value: u32) -> bool {
    &&& offset == 0x0C ==> value & 0xFFFFC000 == 0
    &&& offset == 0x14 ==> value & 0xFFFFC000 == 0
    &&& offset == 0x1C ==> value & 0xFFFFC000 == 0
}

/// A read the filter block accepts: every filter register can be read.
pub open spec fn filter_read_ok(offset: usize) -> bool {
    0x40 <= offset <= 0xAC ==> bank_of(offset) < 14
}

/// The bank register at `offset`: the first or second word of its bank.
pub open spec fn bank_word(f: CANFilter, offset: usize) -> u32 {
    if is_first_word(offset) {
        f.bank0
    } else {
        f.bank1
    }
}

/// Filter bank `i` after `value` is written at `offset`.
pub open spec fn written_filter(f: CANFilter, i: int, offset: usize, value: u32) -> CANFilter {
    let b = bit(value, i as u32);
    if offset == 0x04 {
        CANFilter {
            filter_type: if b {
                CANFilterType::List
            } else {
                CANFilterType::Mask
            },
            ..f
        }
    } else if offset == 0x0C {
        CANFilter {
            scale: if b {
                FilterScale::Scale32Bit
            } else {
                FilterScale::Scale16Bit
            },
            ..f
        }
    } else if offset == 0x14 {
        CANFilter {
            fifo_assignment: if b {
                FIFOIndex::FIFO1
            } else {
                FIFOIndex::FIFO0
            },
            ..f
        }
    } else if offset == 0x1C {
        CANFilter { activated: b, ..f }
    } else if 0x40 <= offset <= 0xAC && i == bank_of(offset) {
        if is_first_word(offset) {
            CANFilter { bank0: value, ..f }
        } else {
            CANFilter { bank1: value, ..f }
        }
    } else {
        f
    }
}

/// The filter state after `value` is written at `offset`: a master
/// register write with FINIT set puts the filters in initialisation, one
/// with FINIT clear activates them.
pub open spec fn written_state(state: CANFilterState, offset: usize, value: u32) -> CANFilterState {
    if offset == 0x00 {
        if value & 1 != 0 {
            CANFilterState::Init
        } else {
            CANFilterState::Active
        }
    } else {
        state
    }
}

/// The identifier bits compared for a standard or extended frame.
pub open spec fn id_bits(is_extended_id: bool) -> u32 {
    if is_extended_id {
        0x1FFFFFFF
    } else {
        0x7FF
    }
}

/// The FIFO of the first bank from `k` on that accepts the frame.
pub open spec fn route_from(filters: [CANFilter; 14], id: u32, is_extended_id: bool, k: int) -> Option<
    FIFOIndex,
>
    decreases 14 - k,
{
    if k < 0 || k >= 14 {
        None
    } else if accepts(filters[k], id, is_extended_id) {
        Some(filters[k].fifo_assignment)
    } else {
        route_from(filters, id, is_extended_id, k + 1)
    }
}

/// Whether an active filter bank accepts a frame: in mask mode the
/// identifier must agree with `bank0` on the bits set in `bank1`; in list
/// mode it must equal `bank0` on all identifier bits.
pub open spec fn accepts(f: CANFilter, id: u32, is_extended_id: bool) -> bool {
    let idm = id_bits(is_extended_id);
    let mask = if f.filter_type == CANFilterType::Mask {
        f.bank1 & idm
    } else {
        idm
    };
    f.activated && ((id & idm) ^ (f.bank0 & idm)) & mask == 0
}

/// Whether `offset` is a filter register.
pub fn is_filter_offset(offset: usize) -> (r: bool)
    ensures
        r == is_filter_register(offset),
{
    offset == 0x00 || offset == 0x04 || offset == 0x0C || offset == 0x14 || offset == 0x1C || (0x40
        <= offset && offset <= 0xAC)
}

/// Whether the filter block accepts a read at `offset`.
pub fn filter_read_accepted(offset: usize) -> (r: bool)
    ensures
        r == filter_read_ok(offset),
{
    !(0x40 <= offset && offset <= 0xAC) || (offset - 0x40) / 8 < 14
}

/// Whether the filter block accepts a write of `value` at `offset`.
pub fn filter_write_accepted(offset: usize, value: u32) -> (r: bool)
    ensures
        r == filter_write_ok(offset, value),
{
    if offset == 0x0C || offset == 0x14 || offset == 0x1C {
        value & 0xFFFFC000 == 0
    } else {
        true
    }
}

impl CANFilter {
    pub fn new() -> (f: Self)
        ensures
            f == reset_filter(),
    {
        Self {
            activated: false,
            fifo_assignment: FIFOIndex::FIFO0,
            scale: FilterScale::Scale16Bit,
            bank0: 0,
            bank1: 0,
            filter_type: CANFilterType::Mask,
        }
    }
}

impl CANFilters {
    pub fn new() -> (r: Self)
        ensures
            forall|i: int| 0 <= i < 14 ==> #[trigger] r.filters[i] == reset_filter(),
            r.state == CANFilterState::Init,
    {
        Self { filters: [CANFilter::new();14], state: CANFilterState::Init }
    }

    /// Reads the filter master register.
    fn encode_master_register(&self) -> (r: u32)
        ensures
            r == master_word(self.state),
    {
        0x2A1C0E00 | match self.state {
            CANFilterState::Init => 1,
            CANFilterState::Active => 0,
        }
    }

    /// Writes the filter master register: FINIT set enters initialisation,
    /// FINIT clear activates the filters; the other bits are not kept.
    fn write_master_register(&mut self, value: u32)
        ensures
            final(self).state == written_state(old(self).state, 0, value),
            final(self).filters == old(self).filters,
    {
        if value & 0x1 != 0 {
            self.state = CANFilterState::Init;
        } else {
            self.state = CANFilterState::Active;
        }
    }

    /// Reads the filter mode register: bit i set for a bank in list mode.
    fn encode_mode_register(&self) -> (r: u32)
        ensures
            r == flag_word(list_flags(self.filters)),
    {
        let mut value: u32 = 0;
        let mut i: usize = 0;
        while i < 14
            invariant
                i <= 14,
                value == flag_word(list_flags(self.filters).subrange(0, i as int)),
            decreases 14 - i,
        {
            let c = matches!(self.filters[i].filter_type, CANFilterType::List);
            proof {
                lemma_flag_word_push(list_flags(self.filters).subrange(0, i as int), c);
                assert(list_flags(self.filters).subrange(0, i as int).push(c) == list_flags(
                    self.filters,
                ).subrange(0, i + 1));
            }
            let ghost old_value = value;
            value = set_bit_if(value, i as u32, c);
            proof {
                let sub = list_flags(self.filters).subrange(0, i as int);
                assert(sub.len() == i);
                assert(flag_word(sub.push(c)) == old_value | (if c {
                    1u32 << (i as u32)
                } else {
                    0
                }));
                lemma_bit_basics();
                assert(old_value | 0u32 == old_value);
            }
            i = i + 1;
        }
        assert(list_flags(self.filters).subrange(0, 14) == list_flags(self.filters));
        value
    }

    /// Writes the filter mode register.
    fn write_mode_register(&mut self, value: u32)
        ensures
            forall|i: int|
                0 <= i < 14 ==> #[trigger] final(self).filters[i] == (CANFilter {
                        filter_type: if bit(value, i as u32) {
                            CANFilterType::List
                        } else {
                            CANFilterType::Mask
                        },
                        ..old(self).filters[i]
                    }),
            final(self).state == old(self).state,
    {
        let mut i: usize = 0;
        while i < 14
            invariant
                i <= 14,
                self.state == old(self).state,
                forall|j: int|
                    0 <= j < 14 ==> #[trigger] self.filters[j] == (if j < i {
                        CANFilter {
                            filter_type: if bit(value, j as u32) {
                                CANFilterType::List
                            } else {
                                CANFilterType::Mask
                            },
                            ..old(self).filters[j]
                        }
                    } else {
                        old(self).filters[j]
                    }),
            decreases 14 - i,
        {
            let filter_id = i as u32;
            proof {
                lemma_bit_test(value, filter_id);
            }
            self.filters[i].filter_type = if value & (1u32 << filter_id) != 0 {
                CANFilterType::List
            } else {
                CANFilterType::Mask
            };
            i = i + 1;
        }
    }

    /// Reads the filter scale register: bit i set for a 32-bit bank.
    fn encode_scale_register(&self) -> (r: u32)
        ensures
            r == flag_word(scale32_flags(self.filters)),
    {
        let mut value: u32 = 0;
        let mut i: usize = 0;
        while i < 14
            invariant
                i <= 14,
                value == flag_word(scale32_flags(self.filters).subrange(0, i as int)),
            decreases 14 - i,
        {
            let c = matches!(self.filters[i].scale, FilterScale::Scale32Bit);
            proof {
                lemma_flag_word_push(scale32_flags(self.filters).subrange(0, i as int), c);
                assert(scale32_flags(self.filters).subrange(0, i as int).push(c) == scale32_flags(
                    self.filters,
                ).subrange(0, i + 1));
            }
            let ghost old_value = value;
            value = set_bit_if(value, i as u32, c);
            proof {
                let sub = scale32_flags(self.filters).subrange(0, i as int);
                assert(sub.len() == i);
                assert(flag_word(sub.push(c)) == old_value | (if c {
                    1u32 << (i as u32)
                } else {
                    0
                }));
                lemma_bit_basics();
                assert(old_value | 0u32 == old_value);
            }
            i = i + 1;
        }
        assert(scale32_flags(self.filters).subrange(0, 14) == scale32_flags(self.filters));
        value
    }

    /// Writes the filter scale register.
    fn write_scale_register(&mut self, value: u32)
        requires
            value & 0xFFFFC000 == 0,
        ensures
            forall|i: int|
                0 <= i < 14 ==> #[trigger] final(self).filters[i] == (CANFilter {
                        scale: if bit(value, i as u32) {
                            FilterScale::Scale32Bit
                        } else {
                            FilterScale::Scale16Bit
                        },
                        ..old(self).filters[i]
                    }),
            final(self).state == old(self).state,
    {
        let mut i: usize = 0;
        while i < 14
            invariant
                i <= 14,
                self.state == old(self).state,
                forall|j: int|
                    0 <= j < 14 ==> #[trigger] self.filters[j] == (if j < i {
                        CANFilter {
                            scale: if bit(value, j as u32) {
                                FilterScale::Scale32Bit
                            } else {
                                FilterScale::Scale16Bit
                            },
                            ..old(self).filters[j]
                        }
                    } else {
                        old(self).filters[j]
                    }),
            decreases 14 - i,
        {
            let filter_id = i as u32;
            proof {
                lemma_bit_test(value, filter_id);
            }
            self.filters[i].scale = if value & (1u32 << filter_id) != 0 {
                FilterScale::Scale32Bit
            } else {
                FilterScale::Scale16Bit
            };
            i = i + 1;
        }
    }

    /// Reads the FIFO assignment register: bit i set for a bank feeding FIFO 1.
    fn encode_filter_assignment_register(&self) -> (r: u32)
        ensures
            r == flag_word(fifo1_flags(self.filters)),
    {
        let mut value: u32 = 0;
        let mut i: usize = 0;
        while i < 14
            invariant
                i <= 14,
                value == flag_word(fifo1_flags(self.filters).subrange(0, i as int)),
            decreases 14 - i,
        {
            let c = matches!(self.filters[i].fifo_assignment, FIFOIndex::FIFO1);
            proof {
                lemma_flag_word_push(fifo1_flags(self.filters).subrange(0, i as int), c);
                assert(fifo1_flags(self.filters).subrange(0, i as int).push(c) == fifo1_flags(
                    self.filters,
                ).subrange(0, i + 1));
            }
            let ghost old_value = value;
            value = set_bit_if(value, i as u32, c);
            proof {
                let sub = fifo1_flags(self.filters).subrange(0, i as int);
                assert(sub.len() == i);
                assert(flag_word(sub.push(c)) == old_value | (if c {
                    1u32 << (i as u32)
                } else {
                    0
                }));
                lemma_bit_basics();
                assert(old_value | 0u32 == old_value);
            }
            i = i + 1;
        }
        assert(fifo1_flags(self.filters).subrange(0, 14) == fifo1_flags(self.filters));
        value
    }

    /// Writes the FIFO assignment register.
    fn write_filter_assignment_register(&mut self, value: u32)
        requires
            value & 0xFFFFC000 == 0,
        ensures
            forall|i: int|
                0 <= i < 14 ==> #[trigger] final(self).filters[i] == (CANFilter {
                        fifo_assignment: if bit(value, i as u32) {
                            FIFOIndex::FIFO1
                        } else {
                            FIFOIndex::FIFO0
                        },
                        ..old(self).filters[i]
                    }),
            final(self).state == old(self).state,
    {
        let mut i: usize = 0;
        while i < 14
            invariant
                i <= 14,
                self.state == old(self).state,
                forall|j: int|
                    0 <= j < 14 ==> #[trigger] self.filters[j] == (if j < i {
                        CANFilter {
                            fifo_assignment: if bit(value, j as u32) {
                                FIFOIndex::FIFO1
                            } else {
                                FIFOIndex::FIFO0
                            },
                            ..old(self).filters[j]
                        }
                    } else {
                        old(self).filters[j]
                    }),
            decreases 14 - i,
        {
            let filter_id = i as u32;
            proof {
                lemma_bit_test(value, filter_id);
            }
            self.filters[i].fifo_assignment = if value & (1u32 << filter_id) != 0 {
                FIFOIndex::FIFO1
            } else {
                FIFOIndex::FIFO0
            };
            i = i + 1;
        }
    }

    /// Reads the filter activation register: bit i set for an active bank.
    fn encode_activation_register(&self) -> (r: u32)
        ensures
            r == flag_word(active_flags(self.filters)),
    {
        let mut value: u32 = 0;
        let mut i: usize = 0;
        while i < 14
            invariant
                i <= 14,
                value == flag_word(active_flags(self.filters).subrange(0, i as int)),
            decreases 14 - i,
        {
            let c = self.filters[i].activated;
            proof {
                lemma_flag_word_push(active_flags(self.filters).subrange(0, i as int), c);
                assert(active_flags(self.filters).subrange(0, i as int).push(c) == active_flags(
                    self.filters,
                ).subrange(0, i + 1));
            }
            let ghost old_value = value;
            value = set_bit_if(value, i as u32, c);
            proof {
                let sub = active_flags(self.filters).subrange(0, i as int);
                assert(sub.len() == i);
                assert(flag_word(sub.push(c)) == old_value | (if c {
                    1u32 << (i as u32)
                } else {
                    0
                }));
                lemma_bit_basics();
                assert(old_value | 0u32 == old_value);
            }
            i = i + 1;
        }
        assert(active_flags(self.filters).subrange(0, 14) == active_flags(self.filters));
        value
    }

    /// Writes the filter activation register.
    fn write_activation_register(&mut self, value: u32)
        requires
            value & 0xFFFFC000 == 0,
        ensures
            forall|i: int|
                0 <= i < 14 ==> #[trigger] final(self).filters[i] == (CANFilter {
                        activated: if bit(value, i as u32) {
                            true
                        } else {
                            false
                        },
                        ..old(self).filters[i]
                    }),
            final(self).state == old(self).state,
    {
        let mut i: usize = 0;
        while i < 14
            invariant
                i <= 14,
                self.state == old(self).state,
                forall|j: int|
                    0 <= j < 14 ==> #[trigger] self.filters[j] == (if j < i {
                        CANFilter {
                            activated: if bit(value, j as u32) {
                                true
                            } else {
                                false
                            },
                            ..old(self).filters[j]
                        }
                    } else {
                        old(self).filters[j]
                    }),
            decreases 14 - i,
        {
            let filter_id = i as u32;
            proof {
                lemma_bit_test(value, filter_id);
            }
            self.filters[i].activated = if value & (1u32 << filter_id) != 0 {
                true
            } else {
                false
            };
            i = i + 1;
        }
    }

    /// What a read at `offset` returns, `None` when the offset is not a
    /// filter register.
    pub open spec fn read_spec(&self, offset: usize) -> Option<u32> {
        if offset == 0x00 {
            Some(master_word(self.state))
        } else if offset == 0x04 {
            Some(flag_word(list_flags(self.filters)))
        } else if offset == 0x0C {
            Some(flag_word(scale32_flags(self.filters)))
        } else if offset == 0x14 {
            Some(flag_word(fifo1_flags(self.filters)))
        } else if offset == 0x1C {
            Some(flag_word(active_flags(self.filters)))
        } else if 0x40 <= offset <= 0xAC {
            Some(bank_word(self.filters[bank_of(offset)], offset))
        } else {
            None
        }
    }

    /// Reads a filter bank register.
    fn encode_bank_register(&self, offset: usize) -> (r: u32)
        requires
            0x40 <= offset <= 0xAC,
        ensures
            r == bank_word(self.filters[bank_of(offset)], offset),
    {
        let sub_offset = offset - 0x40;
        let filter_id = sub_offset / 8;
        let bank_part = sub_offset % 8;
        let filter = self.filters[filter_id];
        if bank_part < 4 {
            filter.bank0
        } else {
            filter.bank1
        }
    }

    /// Writes a filter bank register.
    fn write_bank_register(&mut self, offset: usize, value: u32)
        requires
            0x40 <= offset <= 0xAC,
        ensures
            forall|i: int|
                0 <= i < 14 ==> #[trigger] final(self).filters[i] == written_filter(
                    old(self).filters[i],
                    i,
                    offset,
                    value,
                ),
            final(self).state == old(self).state,
    {
        let sub_offset = offset - 0x40;
        let filter_id = sub_offset / 8;
        let bank_part = sub_offset % 8;
        if bank_part < 4 {
            self.filters[filter_id].bank0 = value;
        } else {
            self.filters[filter_id].bank1 = value;
        }
    }

    /// Handles a write at `offset` within the filter block; `false` when the
    /// offset is not a filter register (nothing changes then).
    pub fn handle_write(&mut self, offset: usize, value: u32) -> (handled: bool)
        requires
            filter_write_ok(offset, value),
        ensures
            handled == is_filter_register(offset),
            forall|i: int|
                0 <= i < 14 ==> #[trigger] final(self).filters[i] == written_filter(
                    old(self).filters[i],
                    i,
                    offset,
                    value,
                ),
            final(self).state == written_state(old(self).state, offset, value),
    {
        if offset == 0x00 {
            self.write_master_register(value);
            return true;
        }
        if offset == 0x04 {
            self.write_mode_register(value);
            return true;
        }
        if offset == 0x0C {
            self.write_scale_register(value);
            return true;
        }
        if offset == 0x14 {
            self.write_filter_assignment_register(value);
            return true;
        }
        if offset == 0x1C {
            self.write_activation_register(value);
            return true;
        }
        if 0x40 <= offset && offset <= 0xAC {
            self.write_bank_register(offset, value);
            return true;
        }
        false
    }

    /// Handles a read at `offset` within the filter block.
    pub fn handle_read(&self, offset: usize) -> (r: Option<u32>)
        requires
            filter_read_ok(offset),
        ensures
            r == self.read_spec(offset),
    {
        if offset == 0x00 {
            return Some(self.encode_master_register());
        }
        if offset == 0x04 {
            return Some(self.encode_mode_register());
        }
        if offset == 0x0C {
            return Some(self.encode_scale_register());
        }
        if offset == 0x14 {
            return Some(self.encode_filter_assignment_register());
        }
        if offset == 0x1C {
            return Some(self.encode_activation_register());
        }
        if 0x40 <= offset && offset <= 0xAC {
            return Some(self.encode_bank_register(offset));
        }
        None
    }

    /// The FIFO of the first bank (in bank order) that accepts the frame,
    /// or `None` when no active bank accepts it.
    pub fn route_message(&self, id: u32, is_extended_id: bool) -> (r: Option<FIFOIndex>)
        ensures
            r == route_from(self.filters, id, is_extended_id, 0),
            match r {
                Some(fifo) => exists|k: int|
                    0 <= k < 14 && #[trigger] accepts(self.filters[k], id, is_extended_id)
                        && self.filters[k].fifo_assignment == fifo && forall|j: int|
                        0 <= j < k ==> !accepts(#[trigger] self.filters[j], id, is_extended_id),
                None => forall|k: int|
                    0 <= k < 14 ==> !accepts(#[trigger] self.filters[k], id, is_extended_id),
            },
    {
        let mut i: usize = 0;
        while i < 14
            invariant
                i <= 14,
                forall|j: int| 0 <= j < i ==> !accepts(#[trigger] self.filters[j], id, is_extended_id),
                route_from(self.filters, id, is_extended_id, 0) == route_from(
                    self.filters,
                    id,
                    is_extended_id,
                    i as int,
                ),
            decreases 14 - i,
        {
            let filter = self.filters[i];
            if filter.activated {
                let id_masked = if is_extended_id {
                    id & 0x1FFFFFFF
                } else {
                    id & 0x7FF
                };
                let filter_id_masked = if is_extended_id {
                    filter.bank0 & 0x1FFFFFFF
                } else {
                    filter.bank0 & 0x7FF
                };
                let mask = if is_extended_id {
                    if let CANFilterType::Mask = filter.filter_type {
                        filter.bank1 & 0x1FFFFFFF
                    } else {
                        0x1FFFFFFF
                    }
                } else if let CANFilterType::Mask = filter.filter_type {
                    filter.bank1 & 0x7FF
                } else {
                    0x7FF
                };
                if (id_masked ^ filter_id_masked) & mask == 0 {
                    assert(accepts(self.filters[i as int], id, is_extended_id));
                    return Some(filter.fifo_assignment);
                }
            }
            i = i + 1;
        }
        None
    }
}

proof fn lemma_bit_test(value: u32, i: u32)
    requires
        i < 14,
    ensures
        (value & (1u32 << i) != 0) == bit(value, i),
{
    lemma_bit_basics();
    assert((value & (1u32 << i) != 0) == ((value >> i) & 1 == 1));
}

/// What reading a filter register returns right after `value` was written
/// to it.
pub open spec fn filter_readback(offset: usize, value: u32) -> u32 {
    if offset == 0x00 {
        0x2A1C0E00 | (value & 1)
    } else if offset == 0x04 || offset == 0x1C {
        value & 0x3FFF
    } else {
        value
    }
}

proof fn lemma_readback_bits(value: u32)
    by (bit_vector)
    ensures
        value & 1 != 0 ==> 0x2A1C0E00u32 | 1u32 == 0x2A1C0E00u32 | (value & 1),
        value & 1 == 0 ==> 0x2A1C0E00u32 | 0u32 == 0x2A1C0E00u32 | (value & 1),
        value & 0xFFFFC000 == 0 ==> value & 0x3FFF == value,
{
}

/// Read after write: a filter register reads back what was written to it,
/// restricted to the 14 banks; the master register reads its fixed
/// pattern with FINIT as written.
pub proof fn law_filter_read_after_write(f: CANFilters, g: CANFilters, offset: usize, value: u32)
    requires
        filter_write_ok(offset, value),
        is_filter_register(offset),
        forall|i: int|
            0 <= i < 14 ==> #[trigger] g.filters[i] == written_filter(f.filters[i], i, offset, value),
        g.state == written_state(f.state, offset, value),
    ensures
        g.read_spec(offset) == Some(filter_readback(offset, value)),
{
    if offset == 0x00 {
        lemma_readback_bits(value);
    } else if offset == 0x04 || offset == 0x0C || offset == 0x14 || offset == 0x1C {
        lemma_low_masks();
        lemma_readback_bits(value);
        lemma_flag_word_low_bits(value, 14, 0x3FFF);
        if offset == 0x04 {
            assert(list_flags(g.filters) == low_bits(value, 14));
        } else if offset == 0x0C {
            assert(scale32_flags(g.filters) == low_bits(value, 14));
        } else if offset == 0x14 {
            assert(fifo1_flags(g.filters) == low_bits(value, 14));
        } else {
            assert(active_flags(g.filters) == low_bits(value, 14));
        }
    } else {
        let k = bank_of(offset);
        assert(g.filters[k] == written_filter(f.filters[k], k, offset, value));
    }
}

/// Writing one filter register leaves every other register as it was; of
/// the bank registers, each 32-bit word is a register of its own.
pub proof fn law_filter_write_is_local(
    f: CANFilters,
    g: CANFilters,
    offset: usize,
    value: u32,
    other: usize,
)
    requires
        filter_write_ok(offset, value),
        filter_read_ok(other),
        forall|i: int|
            0 <= i < 14 ==> #[trigger] g.filters[i] == written_filter(f.filters[i], i, offset, value),
        g.state == written_state(f.state, offset, value),
        other != offset,
        0x40 <= other <= 0xAC && 0x40 <= offset <= 0xAC ==> (other - 0x40) / 4 != (offset - 0x40)
            / 4,
    ensures
        g.read_spec(other) == f.read_spec(other),
{
    assert(list_flags(g.filters) =~= list_flags(f.filters) || offset == 0x04);
    assert(scale32_flags(g.filters) =~= scale32_flags(f.filters) || offset == 0x0C);
    assert(fifo1_flags(g.filters) =~= fifo1_flags(f.filters) || offset == 0x14);
    assert(active_flags(g.filters) =~= active_flags(f.filters) || offset == 0x1C);
    if 0x40 <= other <= 0xAC {
        let k = bank_of(other);
        assert(g.filters[k] == written_filter(f.filters[k], k, offset, value));
    }
}

proof fn lemma_accept_bit(id: u32, b0: u32, b1: u32, b: u32, ext: bool, list: bool)
    by (bit_vector)
    requires
        b < 32,
    ensures
        ((((((id & (if ext { 0x1FFFFFFFu32 } else { 0x7FFu32 })) ^ (b0 & (if ext {
            0x1FFFFFFFu32
        } else {
            0x7FFu32
        }))) & (if list {
            if ext {
                0x1FFFFFFFu32
            } else {
                0x7FFu32
            }
        } else {
            b1 & (if ext {
                0x1FFFFFFFu32
            } else {
                0x7FFu32
            })
        })) >> b) & 1) == 1) == ((if ext {
            b < 29
        } else {
            b < 11
        }) && (list || (b1 >> b) & 1 == 1) && (((id >> b) & 1 == 1) != ((b0 >> b) & 1 == 1))),
{
}

/// What a filter bank accepts, bit by bit: an active bank accepts a frame
/// exactly when, on each of the identifier's bits (29 for an extended
/// frame, 11 for a standard one) that it compares, the identifier agrees
/// with `bank0`.  In mask mode the bits compared are those set in `bank1`;
/// in list mode all of them.
pub proof fn law_filter_accepts_bitwise(f: CANFilter, id: u32, is_extended_id: bool)
    ensures
        accepts(f, id, is_extended_id) == (f.activated && forall|b: u32|
            b < (if is_extended_id {
                29u32
            } else {
                11u32
            }) && (f.filter_type == CANFilterType::List || bit(f.bank1, b)) ==> #[trigger] bit(id, b)
                == bit(f.bank0, b)),
{
    let idm = id_bits(is_extended_id);
    let list = f.filter_type == CANFilterType::List;
    let mask = if !list {
        f.bank1 & idm
    } else {
        idm
    };
    let w = ((id & idm) ^ (f.bank0 & idm)) & mask;
    let width: u32 = if is_extended_id {
        29
    } else {
        11
    };
    assert forall|b: u32| b < 32 implies #[trigger] bit(w, b) == (b < width && (list || bit(
        f.bank1,
        b,
    )) && bit(id, b) != bit(f.bank0, b)) by {
        lemma_accept_bit(id, f.bank0, f.bank1, b, is_extended_id, list);
    }
    lemma_bit_basics();
    let all_agree = forall|b: u32|
        b < width && (list || bit(f.bank1, b)) ==> #[trigger] bit(id, b) == bit(f.bank0, b);
    if all_agree {
        assert forall|j: u32| j < 32 implies #[trigger] bit(w, j) == bit(0u32, j) by {
            assert((0u32 >> j) == 0);
            assert(0u32 & 1 == 0) by (bit_vector);
            if j < width && (list || bit(f.bank1, j)) {
                assert(bit(id, j) == bit(f.bank0, j));
            }
        }
        lemma_bit_ext(w, 0);
    }
    if w == 0 {
        assert forall|b: u32| b < width && (list || bit(f.bank1, b)) implies #[trigger] bit(id, b)
            == bit(f.bank0, b) by {
            assert((0u32 >> b) == 0);
            assert(0u32 & 1 == 0) by (bit_vector);
            assert(!bit(w, b));
        }
    }
}

} // verus!
