//! Placement arithmetic of the firmware side's bump allocator.
use vstd::prelude::*;

verus! {

/// `align` is a power of two.
pub open spec fn is_power_of_two(align: usize) -> bool {
    align != 0 && align & ((align - 1) as usize) == 0
}

/// `pos` rounded up to a multiple of the power of two `align`.
pub open spec fn align_up(pos: usize, align: usize) -> usize {
    ((pos + align - 1) as usize) & !((align - 1) as usize)
}

/// The block a reservation of `size` bytes aligned to `align` takes at or
/// after `pos` in a heap of `capacity` bytes, as (start, end): it starts at
/// `pos` rounded up to the alignment; `None` when it does not fit.
pub open spec fn reserved(pos: usize, align: usize, size: usize, capacity: usize) -> Option<
    (usize, usize),
> {
    if align_up(pos, align) + size > capacity {
        None
    } else {
        Some((align_up(pos, align), (align_up(pos, align) + size) as usize))
    }
}

/// Rounding up moves `pos` forward by less than `align`, to a multiple of
/// `align`.
pub proof fn lemma_align_up(pos: usize, align: usize)
    requires
        is_power_of_two(align),
        pos + align - 1 <= usize::MAX,
    ensures
        pos <= align_up(pos, align) < pos + align,
        align_up(pos, align) & ((align - 1) as usize) == 0,
{
    let mask: usize = (align - 1) as usize;
    let m: usize = (pos + mask) as usize;
    assert(pos <= (m & !mask) && (m & !mask) <= m && (m & !mask) & mask == 0) by (bit_vector)
        requires
            align != 0,
            align & mask == 0,
            mask == align - 1,
            m == pos + mask,
    ;
}

/// Reserves `size` bytes aligned to `align` at or after `pos` in a heap of
/// `capacity` bytes: the reserved block starts at `pos` rounded up to the
/// alignment; `None` when it does not fit.
pub fn bump_reserve(pos: usize, align: usize, size: usize, capacity: usize) -> (r: Option<
    (usize, usize),
>)
    requires
        is_power_of_two(align),
        pos + align - 1 + size <= usize::MAX,
    ensures
        pos <= align_up(pos, align) < pos + align,
        align_up(pos, align) & ((align - 1) as usize) == 0,
        r == reserved(pos, align, size, capacity),
{
    let mask: usize = align - 1;
    let m: usize = pos + mask;
    let start = m & !mask;
    proof {
        lemma_align_up(pos, align);
    }
    let end = start + size;
    if end > capacity {
        None
    } else {
        Some((start, end))
    }
}

/// Blocks reserved one after another never overlap.  The allocator moves
/// its position to the end of each block it hands out and never back, so a
/// later reservation is made at a position at or after the end of every
/// earlier block; such a reservation starts at or after that end.  Each
/// block lies inside the heap, starts at or after the position it was
/// reserved at, is aligned and is exactly `size` bytes long.
pub proof fn law_bump_blocks_disjoint(
    pos1: usize,
    align1: usize,
    size1: usize,
    pos2: usize,
    align2: usize,
    size2: usize,
    capacity: usize,
)
    requires
        is_power_of_two(align1),
        is_power_of_two(align2),
        pos1 + align1 - 1 + size1 <= usize::MAX,
        pos2 + align2 - 1 + size2 <= usize::MAX,
        reserved(pos1, align1, size1, capacity) is Some,
        reserved(pos2, align2, size2, capacity) is Some,
        pos2 >= (reserved(pos1, align1, size1, capacity)->0).1,
    ensures
        ({
            let (start1, end1) = reserved(pos1, align1, size1, capacity)->0;
            let (start2, end2) = reserved(pos2, align2, size2, capacity)->0;
            &&& pos1 <= start1 && end1 == start1 + size1 && end1 <= capacity
            &&& pos2 <= start2 && end2 == start2 + size2 && end2 <= capacity
            &&& start1 & ((align1 - 1) as usize) == 0
            &&& start2 & ((align2 - 1) as usize) == 0
            &&& end1 <= start2
        }),
{
    lemma_align_up(pos1, align1);
    lemma_align_up(pos2, align2);
}

} // verus!
