//! The firmware's interrupt vector table, named by its address.
use vstd::prelude::*;

verus! {

/// Number of entries of the vector table (0x200 bytes of 32-bit vectors).
pub const VECTOR_TABLE_ENTRIES: usize = 0x200 / 4;

/// The address of the firmware's vector table; 0 when none is set.
#[derive(Clone, Copy, Debug)]
pub struct VectorTablePtr(pub u64);

impl VectorTablePtr {
    pub fn new(ptr: u64) -> (r: Self)
        ensures
            r.0 == ptr,
    {
        Self(ptr)
    }

    pub fn new_null() -> (r: Self)
        ensures
            r.0 == 0,
    {
        Self(0)
    }

    pub fn as_ptr(&self) -> (r: u64)
        ensures
            r == self.0,
    {
        self.0
    }

    pub fn is_null(&self) -> (r: bool)
        ensures
            r == (self.0 == 0),
    {
        self.0 == 0
    }

    /// The handler stored at `index` of the table, whose entries are
    /// `entries`: none when no table is set, the index is past the end, or
    /// the entry is null.
    pub fn try_get_handler(&self, index: usize, entries: &[u64]) -> (r: Option<u64>)
        ensures
            r == (if self.0 == 0 || index >= entries@.len() || entries@[index as int] == 0 {
                None
            } else {
                Some(entries@[index as int])
            }),
    {
        if self.0 == 0 {
            return None;
        }
        if index >= entries.len() {
            return None;
        }
        let entry = entries[index];
        if entry == 0 {
            None
        } else {
            Some(entry)
        }
    }
}

} // verus!
