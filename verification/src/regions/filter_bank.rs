//! The filter registers as the single-file bxCAN models lay them out: at
//! offsets 0x200..0x2AC of the controller; FINIT reads clear after reset.
use vstd::prelude::*;

use super::bxcan::can_filter::{
    filter_read_accepted, filter_read_ok, filter_write_accepted, filter_write_ok,
    is_filter_offset, is_filter_register, written_filter, written_state, CANFilterState,
    CANFilters,
};

verus! {

/// Offsets of the filter block inside the controller.
pub open spec fn in_filter_block(offset: usize) -> bool {
    0x200 <= offset <= 0x2AC && is_filter_register((offset - 0x200) as usize)
}

/// The filter block of the single-file controllers.  The configuration
/// registers reach all 14 banks of the controller.
pub struct FilterBank {
    pub filters: CANFilters,
}

impl FilterBank {
    /// A read the block answers without panicking.
    pub open spec fn read_ok(&self, offset: usize) -> bool {
        in_filter_block(offset) && filter_read_ok((offset - 0x200) as usize)
    }

    /// A write the block accepts without panicking.
    pub open spec fn write_ok(&self, offset: usize, value: u32) -> bool {
        in_filter_block(offset) && filter_write_ok((offset - 0x200) as usize, value)
    }

    /// What a read at `offset` returns.
    pub open spec fn read_spec(&self, offset: usize) -> u32 {
        self.filters.read_spec((offset - 0x200) as usize)->0
    }

    /// The bank after a write: the same effect as on the filter block of
    /// the modular controller.
    pub open spec fn written(&self, other: &FilterBank, offset: usize, value: u32) -> bool {
        &&& forall|i: int|
            0 <= i < 14 ==> #[trigger] other.filters.filters[i] == written_filter(
                self.filters.filters[i],
                i,
                (offset - 0x200) as usize,
                value,
            )
        &&& other.filters.state == written_state(
            self.filters.state,
            (offset - 0x200) as usize,
            value,
        )
    }

    /// The reset block: unlike the modular controller's, its FINIT bit
    /// reads clear.
    pub fn new() -> (r: Self)
        ensures
            r.filters.state == CANFilterState::Active,
            forall|i: int|
                0 <= i < 14 ==> #[trigger] r.filters.filters[i]
                    == super::bxcan::can_filter::reset_filter(),
    {
        let mut filters = CANFilters::new();
        filters.state = CANFilterState::Active;
        Self { filters }
    }

    pub fn can_read(&self, offset: usize) -> (r: bool)
        ensures
            r == self.read_ok(offset),
    {
        0x200 <= offset && offset <= 0x2AC && is_filter_offset(offset - 0x200)
            && filter_read_accepted(offset - 0x200)
    }

    pub fn can_write(&self, offset: usize, value: u32) -> (r: bool)
        ensures
            r == self.write_ok(offset, value),
    {
        0x200 <= offset && offset <= 0x2AC && is_filter_offset(offset - 0x200)
            && filter_write_accepted(offset - 0x200, value)
    }

    pub fn read(&self, offset: usize) -> (r: u32)
        requires
            self.read_ok(offset),
        ensures
            r == self.read_spec(offset),
    {
        self.filters.handle_read(offset - 0x200).unwrap()
    }

    pub fn write(&mut self, offset: usize, value: u32)
        requires
            old(self).write_ok(offset, value),
        ensures
            old(self).written(&*final(self), offset, value),
    {
        self.filters.handle_write(offset - 0x200, value);
    }
}

/// Read after write on the filter block: every register reads back what
/// was written (restricted to the 14 banks for the mode and activation
/// registers); the master register reads its fixed pattern with the FINIT
/// bit as written.
pub proof fn law_filter_bank_read_after_write(f: FilterBank, g: FilterBank, offset: usize, value: u32)
    requires
        f.write_ok(offset, value),
        f.written(&g, offset, value),
    ensures
        g.read_spec(offset) == (if offset == 0x200 {
            0x2A1C0E00 | (value & 1)
        } else if offset == 0x204 || offset == 0x21C {
            value & 0x3FFF
        } else {
            value
        }),
{
    super::bxcan::can_filter::law_filter_read_after_write(
        f.filters,
        g.filters,
        (offset - 0x200) as usize,
        value,
    );
}

} // verus!
