//! Bit-level vocabulary shared by the register models.
use vstd::prelude::*;

verus! {

/// Bit `i` of `v` is set.
pub open spec fn bit(v: u32, i: u32) -> bool {
    (v >> i) & 1 == 1
}

/// Facts about zero, masks and single bits that the register models use.
pub proof fn lemma_bit_basics()
    ensures
        forall|x: u32| #[trigger] (x | 0u32) == x,
        forall|x: u32| #[trigger] (0u32 | x) == x,
        forall|m: u32| #[trigger] (0u32 & m) == 0,
        forall|j: u32| #[trigger] (0u32 >> j) == 0,
        forall|x: u32, m: u32| #[trigger] (x & m) <= m,
        forall|x: u64, m: u64| #[trigger] (x & m) <= m,
        forall|x: usize, m: usize| #[trigger] (x & m) <= m,
        forall|x: u32, i: u32|
            i < 32 ==> ((#[trigger] (x & (1u32 << i)) != 0) == ((x >> i) & 1 == 1)),
        forall|v: u32, m: u32, j: u32|
            #[trigger] (((v & m) >> j) & 1) == 1 <==> ((v >> j) & 1 == 1 && (m >> j) & 1 == 1),
{
    assert((forall|x: u32| #[trigger] (x | 0u32) == x) && (forall|x: u32| #[trigger] (0u32 | x) == x)
        && (forall|m: u32| #[trigger] (0u32 & m) == 0) && (forall|j: u32| #[trigger] (0u32 >> j)
        == 0) && (forall|x: u32, m: u32| #[trigger] (x & m) <= m) && (forall|x: u64, m: u64|
        #[trigger] (x & m) <= m) && (forall|x: usize, m: usize| #[trigger] (x & m) <= m) && (
    forall|x: u32, i: u32|
        i < 32 ==> ((#[trigger] (x & (1u32 << i)) != 0) == ((x >> i) & 1 == 1))) && (forall|
        v: u32,
        m: u32,
        j: u32,
    | #[trigger] (((v & m) >> j) & 1) == 1 <==> ((v >> j) & 1 == 1 && (m >> j) & 1 == 1)))
        by (bit_vector);
}

/// The bits of the low masks used by the register models.
pub proof fn lemma_low_masks()
    ensures
        forall|j: u32| j < 32 ==> #[trigger] bit(0xFFFFu32, j) == (j < 16),
        forall|j: u32| j < 32 ==> #[trigger] bit(0x3FFFu32, j) == (j < 14),
{
    assert((forall|j: u32| j < 32 ==> (((0xFFFFu32 >> j) & 1 == 1) == (j < 16))) && (forall|j: u32|
        j < 32 ==> (((0x3FFFu32 >> j) & 1 == 1) == (j < 14)))) by (bit_vector);
}

/// Two words that agree on every bit are equal.
pub proof fn lemma_bit_ext(a: u32, b: u32)
    requires
        forall|j: u32| j < 32 ==> #[trigger] bit(a, j) == bit(b, j),
    ensures
        a == b,
{
    assert(bit(a, 0) == bit(b, 0));
    assert(bit(a, 1) == bit(b, 1));
    assert(bit(a, 2) == bit(b, 2));
    assert(bit(a, 3) == bit(b, 3));
    assert(bit(a, 4) == bit(b, 4));
    assert(bit(a, 5) == bit(b, 5));
    assert(bit(a, 6) == bit(b, 6));
    assert(bit(a, 7) == bit(b, 7));
    assert(bit(a, 8) == bit(b, 8));
    assert(bit(a, 9) == bit(b, 9));
    assert(bit(a, 10) == bit(b, 10));
    assert(bit(a, 11) == bit(b, 11));
    assert(bit(a, 12) == bit(b, 12));
    assert(bit(a, 13) == bit(b, 13));
    assert(bit(a, 14) == bit(b, 14));
    assert(bit(a, 15) == bit(b, 15));
    assert(bit(a, 16) == bit(b, 16));
    assert(bit(a, 17) == bit(b, 17));
    assert(bit(a, 18) == bit(b, 18));
    assert(bit(a, 19) == bit(b, 19));
    assert(bit(a, 20) == bit(b, 20));
    assert(bit(a, 21) == bit(b, 21));
    assert(bit(a, 22) == bit(b, 22));
    assert(bit(a, 23) == bit(b, 23));
    assert(bit(a, 24) == bit(b, 24));
    assert(bit(a, 25) == bit(b, 25));
    assert(bit(a, 26) == bit(b, 26));
    assert(bit(a, 27) == bit(b, 27));
    assert(bit(a, 28) == bit(b, 28));
    assert(bit(a, 29) == bit(b, 29));
    assert(bit(a, 30) == bit(b, 30));
    assert(bit(a, 31) == bit(b, 31));
    lemma_bit_ext_unrolled(a, b);
}

proof fn lemma_bit_ext_unrolled(a: u32, b: u32)
    by (bit_vector)
    requires
        ((a >> 0u32) & 1 == 1) == ((b >> 0u32) & 1 == 1),
        ((a >> 1u32) & 1 == 1) == ((b >> 1u32) & 1 == 1),
        ((a >> 2u32) & 1 == 1) == ((b >> 2u32) & 1 == 1),
        ((a >> 3u32) & 1 == 1) == ((b >> 3u32) & 1 == 1),
        ((a >> 4u32) & 1 == 1) == ((b >> 4u32) & 1 == 1),
        ((a >> 5u32) & 1 == 1) == ((b >> 5u32) & 1 == 1),
        ((a >> 6u32) & 1 == 1) == ((b >> 6u32) & 1 == 1),
        ((a >> 7u32) & 1 == 1) == ((b >> 7u32) & 1 == 1),
        ((a >> 8u32) & 1 == 1) == ((b >> 8u32) & 1 == 1),
        ((a >> 9u32) & 1 == 1) == ((b >> 9u32) & 1 == 1),
        ((a >> 10u32) & 1 == 1) == ((b >> 10u32) & 1 == 1),
        ((a >> 11u32) & 1 == 1) == ((b >> 11u32) & 1 == 1),
        ((a >> 12u32) & 1 == 1) == ((b >> 12u32) & 1 == 1),
        ((a >> 13u32) & 1 == 1) == ((b >> 13u32) & 1 == 1),
        ((a >> 14u32) & 1 == 1) == ((b >> 14u32) & 1 == 1),
        ((a >> 15u32) & 1 == 1) == ((b >> 15u32) & 1 == 1),
        ((a >> 16u32) & 1 == 1) == ((b >> 16u32) & 1 == 1),
        ((a >> 17u32) & 1 == 1) == ((b >> 17u32) & 1 == 1),
        ((a >> 18u32) & 1 == 1) == ((b >> 18u32) & 1 == 1),
        ((a >> 19u32) & 1 == 1) == ((b >> 19u32) & 1 == 1),
        ((a >> 20u32) & 1 == 1) == ((b >> 20u32) & 1 == 1),
        ((a >> 21u32) & 1 == 1) == ((b >> 21u32) & 1 == 1),
        ((a >> 22u32) & 1 == 1) == ((b >> 22u32) & 1 == 1),
        ((a >> 23u32) & 1 == 1) == ((b >> 23u32) & 1 == 1),
        ((a >> 24u32) & 1 == 1) == ((b >> 24u32) & 1 == 1),
        ((a >> 25u32) & 1 == 1) == ((b >> 25u32) & 1 == 1),
        ((a >> 26u32) & 1 == 1) == ((b >> 26u32) & 1 == 1),
        ((a >> 27u32) & 1 == 1) == ((b >> 27u32) & 1 == 1),
        ((a >> 28u32) & 1 == 1) == ((b >> 28u32) & 1 == 1),
        ((a >> 29u32) & 1 == 1) == ((b >> 29u32) & 1 == 1),
        ((a >> 30u32) & 1 == 1) == ((b >> 30u32) & 1 == 1),
        ((a >> 31u32) & 1 == 1) == ((b >> 31u32) & 1 == 1),
    ensures
        a == b,
{
}

/// `v` with bit `i` additionally set when `cond` holds.
pub fn set_bit_if(v: u32, i: u32, cond: bool) -> (r: u32)
    requires
        i < 32,
    ensures
        r == (if cond {
            v | (1u32 << i)
        } else {
            v
        }),
        forall|j: u32| j < 32 ==> #[trigger] bit(r, j) == (if j == i { cond || bit(v, j) } else { bit(v, j) }),
{
    if cond {
        let r = v | (1u32 << i);
        assert forall|j: u32| j < 32 implies #[trigger] bit(r, j) == (if j == i { true } else { bit(v, j) }) by {
            lemma_or_single_bit(v, i, j);
        }
        r
    } else {
        v
    }
}

proof fn lemma_or_single_bit(v: u32, i: u32, j: u32)
    requires
        i < 32,
        j < 32,
    ensures
        ((v | (1u32 << i)) >> j) & 1 == (if j == i { 1u32 } else { (v >> j) & 1 }),
{
    lemma_or_fields(v, 0, i, j);
}

/// Or-ing a value into a bit or a field touches only that bit or field.
proof fn lemma_or_fields(v: u32, c: u32, i: u32, k: u32)
    by (bit_vector)
    ensures
        i < 32 && k < 32 ==> ((v | (1u32 << i)) >> k) & 1 == (if k == i {
            1u32
        } else {
            (v >> k) & 1
        }),
        i < 16 && k < 16 && c < 4 ==> ((v | (c << (2 * i))) >> (2 * k)) & 3 == (if k == i {
            ((v >> (2 * k)) & 3) | c
        } else {
            (v >> (2 * k)) & 3
        }),
        i < 8 && k < 8 && c < 16 ==> ((v | (c << (4 * i))) >> (4 * k)) & 0xF == (if k == i {
            ((v >> (4 * k)) & 0xF) | c
        } else {
            (v >> (4 * k)) & 0xF
        }),
{
}

/// The little-endian word made of four bytes.
pub open spec fn word_le(b0: u8, b1: u8, b2: u8, b3: u8) -> u32 {
    (b0 as u32) | ((b1 as u32) << 8u32) | ((b2 as u32) << 16u32) | ((b3 as u32) << 24u32)
}

/// Byte `k` (0 = least significant, at most 3) of a word.
pub open spec fn byte_of(x: u32, k: u32) -> u8 {
    if k == 0 {
        (x & 0xFF) as u8
    } else if k == 1 {
        ((x >> 8u32) & 0xFF) as u8
    } else if k == 2 {
        ((x >> 16u32) & 0xFF) as u8
    } else {
        ((x >> 24u32) & 0xFF) as u8
    }
}

/// The four bytes of a word, least significant first.
pub open spec fn bytes_le(x: u32) -> Seq<u8> {
    seq![byte_of(x, 0), byte_of(x, 1), byte_of(x, 2), byte_of(x, 3)]
}

/// Reading back the bytes of a word gives the word.
pub proof fn lemma_word_le_of_bytes(x: u32)
    ensures
        word_le(byte_of(x, 0), byte_of(x, 1), byte_of(x, 2), byte_of(x, 3)) == x,
{
    lemma_word_bytes(x, 0, 0, 0, 0);
}

/// Splitting a word made of four bytes gives the bytes back.
pub proof fn lemma_bytes_of_word_le(b0: u8, b1: u8, b2: u8, b3: u8)
    ensures
        byte_of(word_le(b0, b1, b2, b3), 0) == b0,
        byte_of(word_le(b0, b1, b2, b3), 1) == b1,
        byte_of(word_le(b0, b1, b2, b3), 2) == b2,
        byte_of(word_le(b0, b1, b2, b3), 3) == b3,
{
    lemma_word_bytes(0, b0, b1, b2, b3);
}

proof fn lemma_word_bytes(x: u32, b0: u8, b1: u8, b2: u8, b3: u8)
    by (bit_vector)
    ensures
        ((x & 0xFF) as u8 as u32) | ((((x >> 8u32) & 0xFF) as u8 as u32) << 8u32) | ((((x
            >> 16u32) & 0xFF) as u8 as u32) << 16u32) | ((((x >> 24u32) & 0xFF) as u8 as u32)
            << 24u32) == x,
        ((((b0 as u32) | ((b1 as u32) << 8u32) | ((b2 as u32) << 16u32) | ((b3 as u32) << 24u32))
            & 0xFF) as u8) == b0,
        (((((b0 as u32) | ((b1 as u32) << 8u32) | ((b2 as u32) << 16u32) | ((b3 as u32) << 24u32))
            >> 8u32) & 0xFF) as u8) == b1,
        (((((b0 as u32) | ((b1 as u32) << 8u32) | ((b2 as u32) << 16u32) | ((b3 as u32) << 24u32))
            >> 16u32) & 0xFF) as u8) == b2,
        (((((b0 as u32) | ((b1 as u32) << 8u32) | ((b2 as u32) << 16u32) | ((b3 as u32) << 24u32))
            >> 24u32) & 0xFF) as u8) == b3,
{
}

/// Packs four bytes into a little-endian word.
pub fn pack_le(b0: u8, b1: u8, b2: u8, b3: u8) -> (w: u32)
    ensures
        w == word_le(b0, b1, b2, b3),
{
    (b0 as u32) | ((b1 as u32) << 8) | ((b2 as u32) << 16) | ((b3 as u32) << 24)
}

/// Byte `k` of a word.
pub fn byte_at(x: u32, k: u32) -> (b: u8)
    requires
        k < 4,
    ensures
        b == byte_of(x, k),
    no_unwind
{
    if k == 0 {
        (x & 0xFF) as u8
    } else if k == 1 {
        ((x >> 8) & 0xFF) as u8
    } else if k == 2 {
        ((x >> 16) & 0xFF) as u8
    } else {
        ((x >> 24) & 0xFF) as u8
    }
}

/// The word whose bit `i` is `flags[i]` (for at most 32 flags).
pub open spec fn flag_word(flags: Seq<bool>) -> u32
    decreases flags.len(),
{
    if flags.len() == 0 {
        0
    } else {
        flag_word(flags.drop_last()) | (if flags.last() {
            1u32 << ((flags.len() - 1) as u32)
        } else {
            0
        })
    }
}

/// The bits of [`flag_word`] are the flags, and the bits above them are clear.
pub proof fn lemma_flag_word_bits(flags: Seq<bool>)
    requires
        flags.len() <= 32,
    ensures
        forall|j: u32| j < 32 ==> #[trigger] bit(flag_word(flags), j) == (j < flags.len() && flags[j as int]),
    decreases flags.len(),
{
    if flags.len() == 0 {
        assert forall|j: u32| j < 32 implies #[trigger] bit(0u32, j) == false by {
            lemma_bit_basics();
            assert(0u32 >> j == 0);
            assert(0u32 & 1 == 0);
        }
    } else {
        let rest = flags.drop_last();
        lemma_flag_word_bits(rest);
        let n = (flags.len() - 1) as u32;
        let w = flag_word(rest);
        assert(flag_word(flags) == w | (if flags.last() {
            1u32 << n
        } else {
            0
        }));
        assert forall|j: u32| j < 32 implies #[trigger] bit(flag_word(flags), j) == (j < flags.len()
            && flags[j as int]) by {
            assert(bit(w, j) == (j < rest.len() && rest[j as int]));
            if j < n {
                assert(rest[j as int] == flags[j as int]);
            }
            if flags.last() {
                lemma_or_single_bit(w, n, j);
            } else {
                lemma_bit_basics();
                assert(w | 0u32 == w);
            }
        }
    }
}

/// Adding a flag to the end of the list.
pub proof fn lemma_flag_word_push(flags: Seq<bool>, f: bool)
    ensures
        flag_word(flags.push(f)) == flag_word(flags) | (if f {
            1u32 << (flags.len() as u32)
        } else {
            0
        }),
{
    assert(flags.push(f).drop_last() == flags);
}

/// Bits 0..n of a word as flags.
pub open spec fn low_bits(v: u32, n: nat) -> Seq<bool> {
    Seq::new(n, |i: int| bit(v, i as u32))
}

/// Packing the low `n` bits of a word gives the word with the other bits
/// cleared.
pub proof fn lemma_flag_word_low_bits(v: u32, n: nat, mask: u32)
    requires
        n <= 32,
        forall|j: u32| j < 32 ==> #[trigger] bit(mask, j) == (j < n),
    ensures
        flag_word(low_bits(v, n)) == v & mask,
{
    lemma_flag_word_bits(low_bits(v, n));
    assert forall|j: u32| j < 32 implies #[trigger] bit(flag_word(low_bits(v, n)), j) == bit(v
        & mask, j) by {
        lemma_bit_basics();
        assert(bit(v & mask, j) == (bit(v, j) && bit(mask, j)));
    }
    lemma_bit_ext(flag_word(low_bits(v, n)), v & mask);
}

/// The two-bit field `i` (bits 2i, 2i+1) of `v`.
pub open spec fn field2(v: u32, i: u32) -> u32 {
    (v >> (2 * i)) & 3
}

/// The four-bit field `i` (bits 4i..4i+3) of `v`.
pub open spec fn field4(v: u32, i: u32) -> u32 {
    (v >> (4 * i)) & 0xF
}

/// Or-ing a value into two-bit field `i` touches only that field.
pub proof fn lemma_or_field2(acc: u32, c: u32, i: u32, k: u32)
    requires
        i < 16,
        k < 16,
        c < 4,
    ensures
        field2(acc | (c << (2 * i)), k) == (if k == i {
            field2(acc, k) | c
        } else {
            field2(acc, k)
        }),
{
    lemma_or_fields(acc, c, i, k);
}

/// Or-ing a value into four-bit field `i` touches only that field.
pub proof fn lemma_or_field4(acc: u32, c: u32, i: u32, k: u32)
    requires
        i < 8,
        k < 8,
        c < 16,
    ensures
        field4(acc | (c << (4 * i)), k) == (if k == i {
            field4(acc, k) | c
        } else {
            field4(acc, k)
        }),
{
    lemma_or_fields(acc, c, i, k);
}

/// A bit of a word is a bit of the two-bit and of the four-bit field that
/// holds it.
proof fn lemma_bit_in_field(a: u32, j: u32)
    by (bit_vector)
    requires
        j < 32,
    ensures
        ((a >> j) & 1) == (((a >> (2 * (j / 2))) & 3) >> (j % 2)) & 1,
        ((a >> j) & 1) == (((a >> (4 * (j / 4))) & 0xF) >> (j % 4)) & 1,
{
}

/// Two words that agree on all sixteen two-bit fields are equal.
pub proof fn lemma_field2_ext(a: u32, b: u32)
    requires
        forall|i: u32| i < 16 ==> #[trigger] field2(a, i) == field2(b, i),
    ensures
        a == b,
{
    assert forall|j: u32| j < 32 implies #[trigger] bit(a, j) == bit(b, j) by {
        let i = j / 2;
        assert(field2(a, i) == field2(b, i));
        lemma_bit_in_field(a, j);
        lemma_bit_in_field(b, j);
    }
    lemma_bit_ext(a, b);
}

/// Two words that agree on all eight four-bit fields are equal.
pub proof fn lemma_field4_ext(a: u32, b: u32)
    requires
        forall|i: u32| i < 8 ==> #[trigger] field4(a, i) == field4(b, i),
    ensures
        a == b,
{
    assert forall|j: u32| j < 32 implies #[trigger] bit(a, j) == bit(b, j) by {
        let i = j / 4;
        assert(field4(a, i) == field4(b, i));
        lemma_bit_in_field(a, j);
        lemma_bit_in_field(b, j);
    }
    lemma_bit_ext(a, b);
}

/// The word whose two-bit field `i` is `codes[i]`.
pub open spec fn pack2(codes: Seq<u32>) -> u32
    decreases codes.len(),
{
    if codes.len() == 0 {
        0
    } else {
        pack2(codes.drop_last()) | (codes.last() << (2 * (codes.len() - 1) as u32))
    }
}

/// The word whose four-bit field `i` is `codes[i]`.
pub open spec fn pack4(codes: Seq<u32>) -> u32
    decreases codes.len(),
{
    if codes.len() == 0 {
        0
    } else {
        pack4(codes.drop_last()) | (codes.last() << (4 * (codes.len() - 1) as u32))
    }
}

/// The fields of [`pack2`] are the codes; the fields above them are clear.
pub proof fn lemma_pack2_fields(codes: Seq<u32>)
    requires
        codes.len() <= 16,
        forall|i: int| 0 <= i < codes.len() ==> #[trigger] codes[i] < 4,
    ensures
        forall|k: u32| k < 16 ==> #[trigger] field2(pack2(codes), k) == (if k < codes.len() {
            codes[k as int]
        } else {
            0
        }),
    decreases codes.len(),
{
    if codes.len() == 0 {
        assert forall|k: u32| k < 16 implies #[trigger] field2(0, k) == 0 by {
            lemma_bit_basics();
            assert(0u32 >> (2 * k) == 0);
            assert(0u32 & 3 == 0);
        }
    } else {
        let rest = codes.drop_last();
        lemma_pack2_fields(rest);
        let n = (codes.len() - 1) as u32;
        assert forall|k: u32| k < 16 implies #[trigger] field2(pack2(codes), k) == (if k
            < codes.len() {
            codes[k as int]
        } else {
            0
        }) by {
            lemma_or_field2(pack2(rest), codes.last(), n, k);
            if k < n {
                assert(rest[k as int] == codes[k as int]);
            }
            if k == n {
                assert(0u32 | codes.last() == codes.last()) by {
                    let c = codes.last();
                    lemma_bit_basics();
                    assert(0u32 | c == c);
                }
            }
        }
    }
}

/// The fields of [`pack4`] are the codes; the fields above them are clear.
pub proof fn lemma_pack4_fields(codes: Seq<u32>)
    requires
        codes.len() <= 8,
        forall|i: int| 0 <= i < codes.len() ==> #[trigger] codes[i] < 16,
    ensures
        forall|k: u32| k < 8 ==> #[trigger] field4(pack4(codes), k) == (if k < codes.len() {
            codes[k as int]
        } else {
            0
        }),
    decreases codes.len(),
{
    if codes.len() == 0 {
        assert forall|k: u32| k < 8 implies #[trigger] field4(0, k) == 0 by {
            lemma_bit_basics();
            assert(0u32 >> (4 * k) == 0);
            assert(0u32 & 0xF == 0);
        }
    } else {
        let rest = codes.drop_last();
        lemma_pack4_fields(rest);
        let n = (codes.len() - 1) as u32;
        assert forall|k: u32| k < 8 implies #[trigger] field4(pack4(codes), k) == (if k
            < codes.len() {
            codes[k as int]
        } else {
            0
        }) by {
            lemma_or_field4(pack4(rest), codes.last(), n, k);
            if k < n {
                assert(rest[k as int] == codes[k as int]);
            }
            if k == n {
                let c = codes.last();
                lemma_bit_basics();
                assert(0u32 | c == c);
            }
        }
    }
}

/// The two bytes of a 16-bit value, least significant first.
pub open spec fn bytes_le16(x: u16) -> Seq<u8> {
    seq![(x & 0xFF) as u8, ((x >> 8u16) & 0xFF) as u8]
}

/// The 16-bit little-endian value of two bytes.
pub open spec fn half_le(b0: u8, b1: u8) -> u16 {
    (b0 as u16) | ((b1 as u16) << 8u16)
}

/// Byte `k` (at most 7) of a 64-bit value.
pub open spec fn byte64_of(x: u64, k: int) -> u8 {
    if k == 0 {
        (x & 0xFF) as u8
    } else if k == 1 {
        ((x >> 8u64) & 0xFF) as u8
    } else if k == 2 {
        ((x >> 16u64) & 0xFF) as u8
    } else if k == 3 {
        ((x >> 24u64) & 0xFF) as u8
    } else if k == 4 {
        ((x >> 32u64) & 0xFF) as u8
    } else if k == 5 {
        ((x >> 40u64) & 0xFF) as u8
    } else if k == 6 {
        ((x >> 48u64) & 0xFF) as u8
    } else {
        ((x >> 56u64) & 0xFF) as u8
    }
}

/// Byte `k` (at most 7) of a 64-bit value.
pub fn byte64_at(x: u64, k: u64) -> (b: u8)
    requires
        k < 8,
    ensures
        b == byte64_of(x, k as int),
{
    if k == 0 {
        (x & 0xFF) as u8
    } else if k == 1 {
        ((x >> 8) & 0xFF) as u8
    } else if k == 2 {
        ((x >> 16) & 0xFF) as u8
    } else if k == 3 {
        ((x >> 24) & 0xFF) as u8
    } else if k == 4 {
        ((x >> 32) & 0xFF) as u8
    } else if k == 5 {
        ((x >> 40) & 0xFF) as u8
    } else if k == 6 {
        ((x >> 48) & 0xFF) as u8
    } else {
        ((x >> 56) & 0xFF) as u8
    }
}

/// The eight bytes of a 64-bit value, least significant first.
pub open spec fn bytes_le64(x: u64) -> Seq<u8> {
    Seq::new(8, |k: int| byte64_of(x, k))
}

/// The 64-bit little-endian value of eight bytes.
pub open spec fn dword_le(b: Seq<u8>) -> u64 {
    (b[0] as u64) | ((b[1] as u64) << 8u64) | ((b[2] as u64) << 16u64) | ((b[3] as u64) << 24u64)
        | ((b[4] as u64) << 32u64) | ((b[5] as u64) << 40u64) | ((b[6] as u64) << 48u64) | ((
    b[7] as u64) << 56u64)
}

pub proof fn lemma_half_le_roundtrip(x: u16, b0: u8, b1: u8)
    ensures
        half_le(bytes_le16(x)[0], bytes_le16(x)[1]) == x,
        bytes_le16(half_le(b0, b1)) == seq![b0, b1],
{
    lemma_half_bytes(x, b0, b1);
    assert(bytes_le16(half_le(b0, b1)) =~= seq![b0, b1]);
}

proof fn lemma_half_bytes(x: u16, b0: u8, b1: u8)
    by (bit_vector)
    ensures
        ((x & 0xFF) as u8 as u16) | ((((x >> 8u16) & 0xFF) as u8 as u16) << 8u16) == x,
        ((((b0 as u16) | ((b1 as u16) << 8u16)) & 0xFF) as u8) == b0,
        (((((b0 as u16) | ((b1 as u16) << 8u16)) >> 8u16) & 0xFF) as u8) == b1,
{
}

pub proof fn lemma_dword_le_of_bytes(x: u64)
    ensures
        dword_le(bytes_le64(x)) == x,
{
    let b = bytes_le64(x);
    assert(b[0] == (x & 0xFF) as u8);
    assert(b[1] == ((x >> 8u64) & 0xFF) as u8);
    assert(b[2] == ((x >> 16u64) & 0xFF) as u8);
    assert(b[3] == ((x >> 24u64) & 0xFF) as u8);
    assert(b[4] == ((x >> 32u64) & 0xFF) as u8);
    assert(b[5] == ((x >> 40u64) & 0xFF) as u8);
    assert(b[6] == ((x >> 48u64) & 0xFF) as u8);
    assert(b[7] == ((x >> 56u64) & 0xFF) as u8);
    lemma_dword_bytes(x, 0, 0, 0, 0, 0, 0, 0, 0);
}

pub proof fn lemma_bytes_of_dword_le(b: Seq<u8>)
    requires
        b.len() == 8,
    ensures
        bytes_le64(dword_le(b)) == b,
{
    let x = dword_le(b);
    lemma_dword_bytes(0, b[0], b[1], b[2], b[3], b[4], b[5], b[6], b[7]);
    assert(bytes_le64(x) =~= b);
}

proof fn lemma_dword_bytes(x: u64, b0: u8, b1: u8, b2: u8, b3: u8, b4: u8, b5: u8, b6: u8, b7: u8)
    by (bit_vector)
    ensures
        ((x & 0xFF) as u8 as u64) | ((((x >> 8u64) & 0xFF) as u8 as u64) << 8u64) | ((((x
            >> 16u64) & 0xFF) as u8 as u64) << 16u64) | ((((x >> 24u64) & 0xFF) as u8 as u64)
            << 24u64) | ((((x >> 32u64) & 0xFF) as u8 as u64) << 32u64) | ((((x >> 40u64) & 0xFF)
            as u8 as u64) << 40u64) | ((((x >> 48u64) & 0xFF) as u8 as u64) << 48u64) | ((((x
            >> 56u64) & 0xFF) as u8 as u64) << 56u64) == x,
        ({
            let y = (b0 as u64) | ((b1 as u64) << 8u64) | ((b2 as u64) << 16u64) | ((b3 as u64)
                << 24u64) | ((b4 as u64) << 32u64) | ((b5 as u64) << 40u64) | ((b6 as u64)
                << 48u64) | ((b7 as u64) << 56u64);
            (y & 0xFF) as u8 == b0 && ((y >> 8u64) & 0xFF) as u8 == b1 && ((y >> 16u64) & 0xFF)
                as u8 == b2 && ((y >> 24u64) & 0xFF) as u8 == b3 && ((y >> 32u64) & 0xFF) as u8
                == b4 && ((y >> 40u64) & 0xFF) as u8 == b5 && ((y >> 48u64) & 0xFF) as u8 == b6
                && ((y >> 56u64) & 0xFF) as u8 == b7
        }),
{
}

/// Appends the little-endian bytes of a 64-bit value.
pub fn push_le64(out: &mut Vec<u8>, x: u64)
    ensures
        final(out)@ == old(out)@ + bytes_le64(x),
{
    let mut k: u64 = 0;
    while k < 8
        invariant
            k <= 8,
            out@ == old(out)@ + bytes_le64(x).subrange(0, k as int),
        decreases 8 - k,
    {
        out.push(byte64_at(x, k));
        k = k + 1;
        assert(out@ == old(out)@ + bytes_le64(x).subrange(0, k as int));
    }
    assert(bytes_le64(x).subrange(0, 8) == bytes_le64(x));
}

/// The little-endian 64-bit value of the eight bytes at `start`.
pub fn read_le64(b: &[u8], start: usize) -> (x: u64)
    requires
        start + 8 <= b@.len(),
    ensures
        x == dword_le(b@.subrange(start as int, start + 8)),
{
    (b[start] as u64) | ((b[start + 1] as u64) << 8) | ((b[start + 2] as u64) << 16) | ((b[start
        + 3] as u64) << 24) | ((b[start + 4] as u64) << 32) | ((b[start + 5] as u64) << 40) | ((
    b[start + 6] as u64) << 48) | ((b[start + 7] as u64) << 56)
}

} // verus!
