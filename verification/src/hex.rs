//! Fixed-width hexadecimal rendering of 64-bit values for diagnostics.
use vstd::prelude::*;
use crate::bits::lemma_bit_basics;

verus! {

/// Nibble `k` (0 = least significant) of a value.
pub open spec fn nibble(val: u64, k: int) -> u64 {
    (val >> ((4 * k) as u64)) & 0xf
}

/// The lowercase hexadecimal digit of a nibble.
pub open spec fn hex_digit(n: u64) -> u8 {
    if n < 10 {
        (0x30 + n) as u8
    } else {
        (0x61 + n - 10) as u8
    }
}

/// `0x` followed by the sixteen hexadecimal digits of `val`, most
/// significant first.
pub fn hex_digits(val: u64) -> (buf: [u8; 18])
    ensures
        buf[0] == 0x30,
        buf[1] == 0x78,
        forall|i: int| 0 <= i < 16 ==> #[trigger] buf[i + 2] == hex_digit(nibble(val, 15 - i)),
{
    let mut buf = [0u8; 18];
    buf[0] = 0x30;
    buf[1] = 0x78;
    let mut i: u64 = 0;
    while i < 16
        invariant
            i <= 16,
            buf[0] == 0x30,
            buf[1] == 0x78,
            forall|j: int| 0 <= j < i ==> #[trigger] buf[j + 2] == hex_digit(nibble(val, 15 - j)),
        decreases 16 - i,
    {
        let shift: u64 = (15 - i) * 4;
        let nibble = (val >> shift) & 0xf;
        proof {
            assert(shift == (4 * (15 - i)) as u64);
            lemma_bit_basics();
            assert(nibble <= 0xf);
        }
        buf[(i + 2) as usize] = if nibble < 10 {
            0x30 + nibble as u8
        } else {
            0x61 + (nibble - 10) as u8
        };
        i = i + 1;
    }
    buf
}

/// The value a lowercase hexadecimal digit stands for.
pub open spec fn digit_value(c: u8) -> int {
    if 0x30 <= c <= 0x39 {
        c - 0x30
    } else if 0x61 <= c <= 0x66 {
        c - 0x61 + 10
    } else {
        -1
    }
}

/// The sixteen digits after `0x` are lowercase hexadecimal digits, and
/// they give `val` back: the digit at position `i` stands for the value of
/// bits `4 * (15 - i)` to `4 * (15 - i) + 3`, and the sixteen nibbles put
/// together are `val`.
pub proof fn law_hex_digits_round_trip(val: u64)
    ensures
        forall|k: int|
            0 <= k < 16 ==> digit_value(#[trigger] hex_digit(nibble(val, k))) == nibble(val, k),
        forall|k: int| 0 <= k < 16 ==> #[trigger] nibble(val, k) < 16,
        val == nibble(val, 0) | (nibble(val, 1) << 4u64) | (nibble(val, 2) << 8u64) | (nibble(
            val,
            3,
        ) << 12u64) | (nibble(val, 4) << 16u64) | (nibble(val, 5) << 20u64) | (nibble(val, 6)
            << 24u64) | (nibble(val, 7) << 28u64) | (nibble(val, 8) << 32u64) | (nibble(val, 9)
            << 36u64) | (nibble(val, 10) << 40u64) | (nibble(val, 11) << 44u64) | (nibble(val, 12)
            << 48u64) | (nibble(val, 13) << 52u64) | (nibble(val, 14) << 56u64) | (nibble(val, 15)
            << 60u64),
{
    assert forall|k: int| 0 <= k < 16 implies #[trigger] nibble(val, k) < 16 by {
        let s = (4 * k) as u64;
        assert((val >> s) & 0xf < 16) by (bit_vector);
    }
    assert(val == ((val >> 0u64) & 0xf) | (((val >> 4u64) & 0xf) << 4u64) | (((val >> 8u64) & 0xf)
        << 8u64) | (((val >> 12u64) & 0xf) << 12u64) | (((val >> 16u64) & 0xf) << 16u64) | (((val
        >> 20u64) & 0xf) << 20u64) | (((val >> 24u64) & 0xf) << 24u64) | (((val >> 28u64) & 0xf)
        << 28u64) | (((val >> 32u64) & 0xf) << 32u64) | (((val >> 36u64) & 0xf) << 36u64) | (((val
        >> 40u64) & 0xf) << 40u64) | (((val >> 44u64) & 0xf) << 44u64) | (((val >> 48u64) & 0xf)
        << 48u64) | (((val >> 52u64) & 0xf) << 52u64) | (((val >> 56u64) & 0xf) << 56u64) | (((val
        >> 60u64) & 0xf) << 60u64)) by (bit_vector);
}

} // verus!
