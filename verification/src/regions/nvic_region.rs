//! The nested vectored interrupt controller: enable state, pending state
//! and priority of each of the 240 interrupts.
use vstd::prelude::*;

use super::mmio_handler::MmioHandler;
use crate::bits::{
    bit, byte_at, byte_of, flag_word, lemma_bit_basics, lemma_bit_ext, lemma_flag_word_bits,
};

verus! {

/// Size of the NVIC register block.
pub const NVIC_REGION_SIZE: usize = 0x400;

/// Number of interrupts.
pub const NVIC_INTERRUPTS: usize = 240;

/// Configuration of one interrupt.
#[derive(Clone, Copy, Debug)]
pub struct InterruptionConfig {
    pub priority: u8,
    pub enabled: bool,
    pub pending: bool,
}

pub struct NVICRegion {
    pub start_addr: usize,
    pub interrupts: [InterruptionConfig; 240],
    pub active_interrupt: Option<u8>,
}

/// The enable (set-enable/clear-enable) register index an offset selects.
pub open spec fn enable_reg(off: usize) -> int {
    ((off & 0x7F) / 4) as int
}

/// The priority register index an offset selects.
pub open spec fn priority_reg(off: usize) -> int {
    ((off & 0xFF) / 4) as int
}

/// Interrupt `k` after `value` is written at offset `off`: a set bit of a
/// set-enable register (offsets up to 0x80) enables the interrupt, a set
/// bit of a clear-enable register (0x81..=0x100) disables it, and a
/// non-zero byte of a priority register (0x300..=0x400) becomes its
/// priority.
pub open spec fn written_irq(c: InterruptionConfig, k: int, off: usize, value: u32) -> InterruptionConfig {
    if off <= 0x80 {
        let base = enable_reg(off) * 32;
        if base <= k < base + 32 && bit(value, (k - base) as u32) {
            InterruptionConfig { enabled: true, ..c }
        } else {
            c
        }
    } else if off <= 0x100 {
        let base = enable_reg(off) * 32;
        if base <= k < base + 32 && bit(value, (k - base) as u32) {
            InterruptionConfig { enabled: false, ..c }
        } else {
            c
        }
    } else if 0x300 <= off <= 0x400 {
        let base = priority_reg(off) * 4;
        if base <= k < base + 4 && byte_of(value, (k - base) as u32) != 0 {
            InterruptionConfig { priority: byte_of(value, (k - base) as u32), ..c }
        } else {
            c
        }
    } else {
        c
    }
}

/// Bit `j` of the word read at an enable offset with register index `reg`:
/// the pending flag of interrupt 32 * reg + j, or'ed with the enable flag
/// of interrupt 32 * reg + j - 1 (each interrupt shows as the two-bit value
/// enabled:pending shifted to its position).
pub open spec fn nvic_read_bit(ints: [InterruptionConfig; 240], reg: int, j: int) -> bool {
    let k = reg * 32 + j;
    (k < 240 && ints[k].pending) || (j >= 1 && k - 1 < 240 && ints[k - 1].enabled)
}

/// The word read at an enable offset with register index `reg`: bit `j` is
/// [`nvic_read_bit`].
pub open spec fn nvic_word(ints: [InterruptionConfig; 240], reg: int) -> u32 {
    flag_word(Seq::new(32, |j: int| nvic_read_bit(ints, reg, j)))
}

impl NVICRegion {
    pub fn new(start_addr: usize) -> (r: Self)
        ensures
            r.start_addr == start_addr,
            r.active_interrupt is None,
            forall|k: int|
                0 <= k < 240 ==> #[trigger] r.interrupts[k] == (InterruptionConfig {
                    priority: 0,
                    enabled: false,
                    pending: false,
                }),
    {
        Self {
            start_addr,
            interrupts: [InterruptionConfig { priority: 0, enabled: false, pending: false };240],
            active_interrupt: None,
        }
    }

    pub fn new_boxed(start_addr: usize) -> (r: Box<Self>)
        ensures
            r.start_addr == start_addr,
            r.active_interrupt is None,
            forall|k: int|
                0 <= k < 240 ==> #[trigger] r.interrupts[k] == (InterruptionConfig {
                    priority: 0,
                    enabled: false,
                    pending: false,
                }),
    {
        Box::new(Self::new(start_addr))
    }

    pub open spec fn offset(&self, address: usize) -> usize {
        (address - self.start_addr) as usize
    }
}

proof fn lemma_or_pair(v: u32, e: u32, p: u32, i: u32, j: u32)
    requires
        e <= 1,
        p <= 1,
        i < 32,
        j < 32,
    ensures
        bit(v | (((e << 1u32) | p) << i), j) == (bit(v, j) || (j == i && p == 1) || (j == i + 1
            && e == 1)),
{
    assert(((((v | (((e << 1u32) | p) << i)) >> j) & 1) == 1) == (((v >> j) & 1) == 1 || (j == i
        && p == 1) || (j == i + 1 && e == 1))) by (bit_vector)
        requires
            e <= 1,
            p <= 1,
            i < 32,
            j < 32,
    ;
}

/// A write the controller serves: every set bit, or non-zero priority
/// byte, names one of the 240 interrupts.
pub open spec fn nvic_write_ok(off: usize, value: u32) -> bool {
    if off <= 0x100 {
        forall|i: u32| i < 32 && #[trigger] bit(value, i) ==> enable_reg(off) * 32 + i < 240
    } else if 0x300 <= off <= 0x400 {
        forall|i: u32| i < 4 && #[trigger] byte_of(value, i) != 0 ==> priority_reg(off) * 4 + i < 240
    } else {
        false
    }
}

impl NVICRegion {
    fn read_enables(&self, offset: usize) -> (r: u32)
        ensures
            forall|j: u32|
                j < 32 ==> #[trigger] bit(r, j) == nvic_read_bit(
                    self.interrupts,
                    enable_reg(offset),
                    j as int,
                ),
    {
        let reg_index = (offset & 0x7F) / 4;
        proof {
            lemma_bit_basics();
            assert(offset & 0x7F <= 0x7F);
        }
        let mut value: u32 = 0;
        proof {
            assert forall|j: u32| j < 32 implies #[trigger] bit(0u32, j) == false by {
                lemma_bit_basics();
                assert(0u32 >> j == 0);
                assert(0u32 & 1 == 0);
            }
        }
        let mut i: usize = 0;
        while i < 32
            invariant
                i <= 32,
                reg_index == enable_reg(offset),
                reg_index < 32,
                forall|j: u32|
                    j < 32 ==> #[trigger] bit(value, j) == ((j < i && reg_index * 32 + j < 240
                        && self.interrupts[reg_index * 32 + j].pending) || (1 <= j <= i
                        && reg_index * 32 + j - 1 < 240
                        && self.interrupts[reg_index * 32 + j - 1].enabled)),
            decreases 32 - i,
        {
            let int_index = reg_index * 32 + i;
            if int_index < 240 {
                let config = self.interrupts[int_index];
                let e: u32 = if config.enabled {
                    1
                } else {
                    0
                };
                let p: u32 = if config.pending {
                    1
                } else {
                    0
                };
                let bits = (e << 1) | p;
                let ghost before = value;
                value |= bits << (i as u32);
                proof {
                    assert forall|j: u32| j < 32 implies #[trigger] bit(value, j) == ((j < i + 1
                        && reg_index * 32 + j < 240 && self.interrupts[reg_index * 32 + j].pending)
                        || (1 <= j <= i + 1 && reg_index * 32 + j - 1 < 240
                        && self.interrupts[reg_index * 32 + j - 1].enabled)) by {
                        lemma_or_pair(before, e, p, i as u32, j);
                    }
                }
            }
            i = i + 1;
        }
        value
    }

    fn write_enables(&mut self, offset: usize, value: u32, enable: bool)
        requires
            offset <= 0x100,
            enable == (offset <= 0x80),
            nvic_write_ok(offset, value),
        ensures
            forall|k: int|
                0 <= k < 240 ==> #[trigger] final(self).interrupts[k] == written_irq(
                    old(self).interrupts[k],
                    k,
                    offset,
                    value,
                ),
            final(self).start_addr == old(self).start_addr,
            final(self).active_interrupt == old(self).active_interrupt,
    {
        let reg_index = (offset & 0x7F) / 4;
        proof {
            lemma_bit_basics();
            assert(offset & 0x7F <= 0x7F);
        }
        let mut i: usize = 0;
        while i < 32
            invariant
                i <= 32,
                reg_index == enable_reg(offset),
                reg_index < 32,
                offset <= 0x100,
                enable == (offset <= 0x80),
                nvic_write_ok(offset, value),
                self.start_addr == old(self).start_addr,
                self.active_interrupt == old(self).active_interrupt,
                forall|k: int|
                    0 <= k < 240 ==> #[trigger] self.interrupts[k] == (if k < reg_index * 32 + i {
                        written_irq(old(self).interrupts[k], k, offset, value)
                    } else {
                        old(self).interrupts[k]
                    }),
            decreases 32 - i,
        {
            let int_index = reg_index * 32 + i;
            let b = (value >> (i as u32)) & 1;
            proof {
                lemma_bit_basics();
                assert(b <= 1);
                assert((b == 1) == bit(value, i as u32));
                assert((b == 0) == !bit(value, i as u32));
            }
            if b != 0 {
                assert(bit(value, i as u32));
                self.interrupts[int_index].enabled = enable;
            }
            i = i + 1;
        }
    }

    fn write_priorities(&mut self, offset: usize, value: u32)
        requires
            0x300 <= offset <= 0x400,
            nvic_write_ok(offset, value),
        ensures
            forall|k: int|
                0 <= k < 240 ==> #[trigger] final(self).interrupts[k] == written_irq(
                    old(self).interrupts[k],
                    k,
                    offset,
                    value,
                ),
            final(self).start_addr == old(self).start_addr,
            final(self).active_interrupt == old(self).active_interrupt,
    {
        let reg_index = (offset & 0xFF) / 4;
        proof {
            lemma_bit_basics();
            assert(offset & 0xFF <= 0xFF);
        }
        let mut i: usize = 0;
        while i < 4
            invariant
                i <= 4,
                reg_index == priority_reg(offset),
                reg_index < 64,
                0x300 <= offset <= 0x400,
                nvic_write_ok(offset, value),
                self.start_addr == old(self).start_addr,
                self.active_interrupt == old(self).active_interrupt,
                forall|k: int|
                    0 <= k < 240 ==> #[trigger] self.interrupts[k] == (if k < reg_index * 4 + i {
                        written_irq(old(self).interrupts[k], k, offset, value)
                    } else {
                        old(self).interrupts[k]
                    }),
            decreases 4 - i,
        {
            let int_index = reg_index * 4 + i;
            let val = byte_at(value, i as u32);
            if val != 0 {
                assert(byte_of(value, i as u32) != 0);
                self.interrupts[int_index].priority = val;
            }
            i = i + 1;
        }
    }
}

impl MmioHandler for NVICRegion {
    open spec fn read_ok(&self, address: usize) -> bool {
        self.start_addr <= address && self.offset(address) <= 0x100
    }

    open spec fn write_ok(&self, address: usize, value: u64) -> bool {
        self.start_addr <= address && nvic_write_ok(self.offset(address), value as u32)
    }

    open spec fn covers(&self, address: usize) -> bool {
        self.start_addr <= address < self.start_addr + NVIC_REGION_SIZE
    }

    open spec fn read_value(&self, address: usize) -> u32 {
        nvic_word(self.interrupts, enable_reg(self.offset(address)))
    }

    open spec fn read_done(&self, address: usize, next: &Self) -> bool {
        *next == *self
    }

    fn read(&mut self, address: usize) -> (r: u32)
        ensures
            forall|j: u32|
                j < 32 ==> #[trigger] bit(r, j) == nvic_read_bit(
                    old(self).interrupts,
                    enable_reg(old(self).offset(address)),
                    j as int,
                ),
    {
        let offset = address - self.start_addr;
        let r = self.read_enables(offset);
        proof {
            let reg = enable_reg(self.offset(address));
            let flags = Seq::new(32, |j: int| nvic_read_bit(self.interrupts, reg, j));
            lemma_flag_word_bits(flags);
            assert forall|j: u32| j < 32 implies #[trigger] bit(r, j) == bit(flag_word(flags), j) by {
                assert(flags[j as int] == nvic_read_bit(self.interrupts, reg, j as int));
            }
            lemma_bit_ext(r, flag_word(flags));
        }
        r
    }

    /// The controller after a write of the low 32 bits of `value`.
    open spec fn written(&self, address: usize, value: u64, next: &Self) -> bool {
        &&& forall|k: int|
            0 <= k < 240 ==> #[trigger] next.interrupts[k] == written_irq(
                self.interrupts[k],
                k,
                self.offset(address),
                value as u32,
            )
        &&& next.start_addr == self.start_addr
        &&& next.active_interrupt == self.active_interrupt
    }

    fn write(&mut self, address: usize, value: u64) {
        let value = value as u32;
        let offset = address - self.start_addr;
        if offset <= 0x80 {
            self.write_enables(offset, value, true);
        } else if offset <= 0x100 {
            self.write_enables(offset, value, false);
        } else {
            self.write_priorities(offset, value);
        }
    }

    fn contains(&self, address: usize) -> (r: bool) {
        address >= self.start_addr && address - self.start_addr < NVIC_REGION_SIZE
    }

    fn can_read(&self, address: usize) -> (r: bool) {
        address >= self.start_addr && address - self.start_addr <= 0x100
    }

    fn can_write(&self, address: usize, value: u64) -> (r: bool) {
        if address < self.start_addr {
            return false;
        }
        let off = address - self.start_addr;
        let v = value as u32;
        if off <= 0x100 {
            let reg_index = (off & 0x7F) / 4;
            proof {
                lemma_bit_basics();
            assert(off & 0x7F <= 0x7F);
            }
            let mut i: u32 = 0;
            while i < 32
                invariant
                    i <= 32,
                    reg_index < 32,
                    off == self.offset(address),
                    self.start_addr <= address,
                    v == value as u32,
                    off <= 0x100,
                    reg_index == enable_reg(off),
                    forall|k: u32|
                        k < i && #[trigger] bit(v, k) ==> enable_reg(off) * 32 + k < 240,
                decreases 32 - i,
            {
                if (v >> i) & 1 == 1 && reg_index * 32 + (i as usize) >= 240 {
                    assert(bit(v, i));
                    assert(!(enable_reg(off) * 32 + i < 240));
                    assert(!nvic_write_ok(off, v));
                    return false;
                }
                i = i + 1;
            }
            true
        } else if 0x300 <= off && off <= 0x400 {
            let reg_index = (off & 0xFF) / 4;
            proof {
                lemma_bit_basics();
            assert(off & 0xFF <= 0xFF);
            }
            let mut i: u32 = 0;
            while i < 4
                invariant
                    i <= 4,
                    reg_index < 64,
                    off == self.offset(address),
                    self.start_addr <= address,
                    v == value as u32,
                    0x300 <= off <= 0x400,
                    reg_index == priority_reg(off),
                    forall|k: u32|
                        k < i && #[trigger] byte_of(v, k) != 0 ==> priority_reg(off) * 4 + k < 240,
                decreases 4 - i,
            {
                if byte_at(v, i) != 0 && reg_index * 4 + (i as usize) >= 240 {
                    assert(byte_of(v, i) != 0);
                    return false;
                }
                i = i + 1;
            }
            true
        } else {
            false
        }
    }
}

/// Enabling an interrupt through its set-enable register and then
/// writing the same bit to the matching clear-enable register leaves it
/// disabled.  Register 0 is left out: its clear-enable offset (0x80) is
/// handled as a set-enable register.
pub proof fn law_nvic_enable_then_clear(c: InterruptionConfig, r: usize, j: u32, value: u32)
    requires
        1 <= r < 8,
        j < 32,
        bit(value, j),
        r * 32 + j < 240,
    ensures
        written_irq(c, (r * 32 + j) as int, (4 * r) as usize, value).enabled,
        !written_irq(
            written_irq(c, (r * 32 + j) as int, (4 * r) as usize, value),
            (r * 32 + j) as int,
            (0x80 + 4 * r) as usize,
            value,
        ).enabled,
{
    assert((((4 * r) as usize) & 0x7F) / 4 == r && (((0x80 + 4 * r) as usize) & 0x7F) / 4 == r)
        by (bit_vector)
        requires
            1 <= r < 8,
    ;
}

} // verus!
