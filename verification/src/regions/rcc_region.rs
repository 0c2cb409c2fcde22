//! The reset and clock control block: clock sources, PLL and bus
//! prescalers.
use vstd::prelude::*;

use super::mmio_handler::MmioHandler;
use crate::bits::lemma_bit_basics;

verus! {

/// Size of the RCC register block.
pub const RCC_REGION_SIZE: usize = 0x24;

/// Frequency of the internal oscillator.
pub const RCC_HSI_CLOCK: u32 = 8_000_000;

/// Frequency of the external oscillator.
pub const RCC_HSE_CLOCK: u32 = 8_000_000;

/// Input of the PLL: HSI halved, or HSE through a predivider.
#[derive(Clone, Copy, Debug, PartialEq, Eq, Structural)]
pub enum PLLSource {
    HSIDiv2,
    HSE(u32),
}

/// Source of the system clock.
#[derive(Clone, Copy, Debug, PartialEq, Eq, Structural)]
pub enum SysClockSource {
    HSI,
    HSE,
    PLL,
}

/// A valid APB prescaler.
pub open spec fn apb_valid(p: u32) -> bool {
    p == 1 || p == 2 || p == 4 || p == 8 || p == 16
}

/// A valid AHB prescaler.
pub open spec fn ahb_valid(p: u32) -> bool {
    p == 1 || p == 2 || p == 4 || p == 8 || p == 16 || p == 64 || p == 128 || p == 256 || p == 512
}

/// PLLMUL code of a multiplication factor (2..16).
pub open spec fn pll_mul_code(m: u32) -> u32 {
    if m == 16 {
        0x0f
    } else {
        (m - 2) as u32
    }
}

/// Multiplication factor of a PLLMUL code: code + 2, with 0xF also
/// selecting 16.
pub open spec fn pll_mul_of(code: u32) -> u32 {
    if code == 0x0f {
        16
    } else {
        (code + 2) as u32
    }
}

/// PPRE code of an APB prescaler.
pub open spec fn apb_code(p: u32) -> u32 {
    if p == 1 {
        3
    } else if p == 2 {
        4
    } else if p == 4 {
        5
    } else if p == 8 {
        6
    } else {
        7
    }
}

/// APB prescaler of a PPRE code: codes 0..3 do not divide.
pub open spec fn apb_of(code: u32) -> u32 {
    if code <= 3 {
        1
    } else if code == 4 {
        2
    } else if code == 5 {
        4
    } else if code == 6 {
        8
    } else {
        16
    }
}

/// HPRE code of an AHB prescaler.
pub open spec fn ahb_code(p: u32) -> u32 {
    if p == 1 {
        7
    } else if p == 2 {
        8
    } else if p == 4 {
        9
    } else if p == 8 {
        10
    } else if p == 16 {
        11
    } else if p == 64 {
        12
    } else if p == 128 {
        13
    } else if p == 256 {
        14
    } else {
        15
    }
}

/// AHB prescaler of an HPRE code: codes 0..7 do not divide.
pub open spec fn ahb_of(code: u32) -> u32 {
    if code <= 7 {
        1
    } else if code == 8 {
        2
    } else if code == 9 {
        4
    } else if code == 10 {
        8
    } else if code == 11 {
        16
    } else if code == 12 {
        64
    } else if code == 13 {
        128
    } else if code == 14 {
        256
    } else {
        512
    }
}

/// SW/SWS code of a system clock source.
pub open spec fn sysclk_code(s: SysClockSource) -> u32 {
    match s {
        SysClockSource::HSI => 0,
        SysClockSource::HSE => 1,
        SysClockSource::PLL => 2,
    }
}

/// System clock source of an SW code (0..2).
pub open spec fn sysclk_of(code: u32) -> SysClockSource {
    if code == 0 {
        SysClockSource::HSI
    } else if code == 1 {
        SysClockSource::HSE
    } else {
        SysClockSource::PLL
    }
}

/// PLLSRC code of a PLL input.
pub open spec fn pll_source_code(s: PLLSource) -> u32 {
    match s {
        PLLSource::HSIDiv2 => 0,
        PLLSource::HSE(_) => 1,
    }
}

/// The HSE predivider code (divisor - 1), when the PLL runs from HSE.
pub open spec fn prediv_code(s: PLLSource) -> Option<u32> {
    match s {
        PLLSource::HSIDiv2 => None,
        PLLSource::HSE(n) => Some((n - 1) as u32),
    }
}

/// CFGR as read back: PLLMUL (bits 18..21), the low bit of the HSE
/// predivider code (bit 17), PLLSRC (bit 15), the APB1 prescaler code at
/// bits 11..13, the APB2 prescaler code at bits 8..10, HPRE (bits 4..7),
/// and the system clock source in both SWS (bits 2..3) and SW (bits 0..1).
pub open spec fn cfgr_word(
    pll_multiplier: u32,
    pll_source: PLLSource,
    apb1: u32,
    apb2: u32,
    ahb: u32,
    sysclk: SysClockSource,
) -> u32 {
    let prediv: u32 = match prediv_code(pll_source) {
        Some(c) => c,
        None => 0,
    };
    (pll_mul_code(pll_multiplier) << 18u32) | ((prediv & 1) << 17u32) | (pll_source_code(
        pll_source,
    ) << 15u32) | (apb_code(apb1) << 11u32) | (apb_code(apb2) << 8u32) | (ahb_code(ahb) << 4u32)
        | (sysclk_code(sysclk) << 2u32) | sysclk_code(sysclk)
}

/// What CR reads: PLL, HSE and HSI on and ready, HSI trimmed to its
/// default.
pub const CR_VALUE: u32 = 0x0330_0083;

/// The RCC block.  `mem` holds the raw words of CR, CFGR and the clock
/// enable registers; the clock tree is kept decoded.
pub struct RCCRegion {
    start_addr: usize,
    mem: [u32; 9],
    pll_source: PLLSource,
    pll_multiplier: u32,
    ahb_prescaler: u32,
    apb1_prescaler: u32,
    apb2_prescaler: u32,
    sysclk_source: SysClockSource,
}

impl RCCRegion {
    #[verifier::type_invariant]
    spec fn inv(self) -> bool {
        &&& self.mem[0] == CR_VALUE
        &&& 2 <= self.pll_multiplier <= 16
        &&& apb_valid(self.apb1_prescaler)
        &&& apb_valid(self.apb2_prescaler)
        &&& ahb_valid(self.ahb_prescaler)
        &&& self.pll_source matches PLLSource::HSE(n) ==> n >= 1
    }

    pub closed spec fn start(self) -> usize {
        self.start_addr
    }

    /// Raw word `i` of the block.
    pub closed spec fn mem(self, i: int) -> u32 {
        self.mem[i]
    }

    pub closed spec fn pll_source(self) -> PLLSource {
        self.pll_source
    }

    pub closed spec fn pll_multiplier(self) -> u32 {
        self.pll_multiplier
    }

    pub closed spec fn ahb_prescaler(self) -> u32 {
        self.ahb_prescaler
    }

    pub closed spec fn apb1_prescaler(self) -> u32 {
        self.apb1_prescaler
    }

    pub closed spec fn apb2_prescaler(self) -> u32 {
        self.apb2_prescaler
    }

    pub closed spec fn sysclk_source(self) -> SysClockSource {
        self.sysclk_source
    }

    /// CFGR as read back.
    pub open spec fn cfgr(self) -> u32 {
        cfgr_word(
            self.pll_multiplier(),
            self.pll_source(),
            self.apb1_prescaler(),
            self.apb2_prescaler(),
            self.ahb_prescaler(),
            self.sysclk_source(),
        )
    }

    /// Reset state: PLL, HSE and HSI reported on, HSI/2 into a x2 PLL, no
    /// bus division, HSI as system clock.
    pub fn new(start_addr: usize) -> (r: Self)
        ensures
            r.start() == start_addr,
            r.mem(0) == CR_VALUE,
            r.mem(1) == 0,
            r.mem(5) == 0x00000014,
            r.mem(6) == 0,
            r.mem(7) == 0,
            r.mem(8) == 0x00000018,
            r.pll_source() == PLLSource::HSIDiv2,
            r.pll_multiplier() == 2,
            r.ahb_prescaler() == 1,
            r.apb1_prescaler() == 1,
            r.apb2_prescaler() == 1,
            r.sysclk_source() == SysClockSource::HSI,
    {
        let mut mem = [0u32; 9];
        mem[0] = CR_VALUE;
        mem[5] = 0x00000014;
        mem[8] = 0x00000018;
        Self {
            start_addr,
            mem,
            pll_source: PLLSource::HSIDiv2,
            pll_multiplier: 2,
            ahb_prescaler: 1,
            apb1_prescaler: 1,
            apb2_prescaler: 1,
            sysclk_source: SysClockSource::HSI,
        }
    }

    pub fn new_boxed(start_addr: usize) -> (r: Box<Self>)
        ensures
            r.start() == start_addr,
            r.mem(0) == CR_VALUE,
            r.mem(1) == 0,
            r.pll_source() == PLLSource::HSIDiv2,
            r.pll_multiplier() == 2,
            r.ahb_prescaler() == 1,
            r.apb1_prescaler() == 1,
            r.apb2_prescaler() == 1,
            r.sysclk_source() == SysClockSource::HSI,
    {
        Box::new(Self::new(start_addr))
    }
}

impl RCCRegion {
    /// Sets the PLL multiplier from its PLLMUL code: codes 0 to 14 give
    /// x2 to x16, code 15 gives x16 too.  Reading the code back gives the
    /// code written, except that 14 reads back as 15.
    pub fn set_pll_multiplier_value(&mut self, value: u32)
        requires
            value <= 0xf,
        ensures
            final(self).pll_multiplier() == pll_mul_of(value),
            pll_mul_code(final(self).pll_multiplier()) == (if value == 14 {
                15
            } else {
                value
            }),
            final(self).start() == old(self).start(),
            forall|i: int| #[trigger] final(self).mem(i) == old(self).mem(i),
            final(self).pll_source() == old(self).pll_source(),
            final(self).ahb_prescaler() == old(self).ahb_prescaler(),
            final(self).apb1_prescaler() == old(self).apb1_prescaler(),
            final(self).apb2_prescaler() == old(self).apb2_prescaler(),
            final(self).sysclk_source() == old(self).sysclk_source(),
    {
        proof {
            use_type_invariant(&*self);
        }
        if value == 0x0f {
            self.pll_multiplier = 16;
        } else {
            self.pll_multiplier = value + 2;
        }
    }

    /// The PLLMUL code of the PLL multiplier.
    pub fn get_pll_multiplier_value(&self) -> (r: u32)
        ensures
            r == pll_mul_code(self.pll_multiplier()),
    {
        proof {
            use_type_invariant(self);
        }
        if self.pll_multiplier == 16 {
            0x0f
        } else {
            self.pll_multiplier - 2
        }
    }

    fn get_pll_hse_prediv_value(&self) -> (r: Option<u32>)
        ensures
            r == prediv_code(self.pll_source),
    {
        proof {
            use_type_invariant(self);
        }
        match self.pll_source {
            PLLSource::HSIDiv2 => None,
            PLLSource::HSE(n) => Some(n - 1),
        }
    }

    /// Sets the HSE predivider code; only meaningful while the PLL runs
    /// from HSE.
    fn set_pll_hse_prediv_value(&mut self, value: u32)
        requires
            old(self).pll_source is HSE,
            value < u32::MAX,
        ensures
            *final(self) == (RCCRegion { pll_source: PLLSource::HSE((value + 1) as u32), ..*old(self) }),
    {
        proof {
            use_type_invariant(&*self);
        }
        match self.pll_source {
            PLLSource::HSIDiv2 => {},
            PLLSource::HSE(_) => {
                self.pll_source = PLLSource::HSE(value + 1);
            },
        }
    }

    fn get_pll_source(&self) -> (r: u32)
        ensures
            r == pll_source_code(self.pll_source),
    {
        match self.pll_source {
            PLLSource::HSIDiv2 => 0,
            PLLSource::HSE(_) => 1,
        }
    }

    /// Selects the PLL input: 0 for HSI/2, 1 for HSE without predivision.
    fn set_pll_source(&mut self, value: u32)
        requires
            value <= 1,
        ensures
            *final(self) == (RCCRegion {
                pll_source: if value == 0 {
                    PLLSource::HSIDiv2
                } else {
                    PLLSource::HSE(1)
                },
                ..*old(self)
            }),
    {
        proof {
            use_type_invariant(&*self);
        }
        if value == 0 {
            self.pll_source = PLLSource::HSIDiv2;
        } else {
            self.pll_source = PLLSource::HSE(1);
        }
    }

    fn get_apb1_prescaler_value(&self) -> (r: u32)
        ensures
            r == apb_code(self.apb1_prescaler),
    {
        proof {
            use_type_invariant(self);
        }
        apb_code_exec(self.apb1_prescaler)
    }

    fn set_apb1_prescaler_value(&mut self, value: u32)
        requires
            value <= 7,
        ensures
            *final(self) == (RCCRegion { apb1_prescaler: apb_of(value), ..*old(self) }),
    {
        proof {
            use_type_invariant(&*self);
        }
        self.apb1_prescaler = apb_of_exec(value);
    }

    fn get_apb2_prescaler_value(&self) -> (r: u32)
        ensures
            r == apb_code(self.apb2_prescaler),
    {
        proof {
            use_type_invariant(self);
        }
        apb_code_exec(self.apb2_prescaler)
    }

    fn set_apb2_prescaler_value(&mut self, value: u32)
        requires
            value <= 7,
        ensures
            *final(self) == (RCCRegion { apb2_prescaler: apb_of(value), ..*old(self) }),
    {
        proof {
            use_type_invariant(&*self);
        }
        self.apb2_prescaler = apb_of_exec(value);
    }

    fn get_ahb_prescaler_value(&self) -> (r: u32)
        ensures
            r == ahb_code(self.ahb_prescaler),
    {
        proof {
            use_type_invariant(self);
        }
        let p = self.ahb_prescaler;
        if p == 1 {
            7
        } else if p == 2 {
            8
        } else if p == 4 {
            9
        } else if p == 8 {
            10
        } else if p == 16 {
            11
        } else if p == 64 {
            12
        } else if p == 128 {
            13
        } else if p == 256 {
            14
        } else {
            15
        }
    }

    fn set_ahb_prescaler_value(&mut self, value: u32)
        requires
            value <= 15,
        ensures
            *final(self) == (RCCRegion { ahb_prescaler: ahb_of(value), ..*old(self) }),
    {
        proof {
            use_type_invariant(&*self);
        }
        self.ahb_prescaler = if value <= 7 {
            1
        } else if value == 8 {
            2
        } else if value == 9 {
            4
        } else if value == 10 {
            8
        } else if value == 11 {
            16
        } else if value == 12 {
            64
        } else if value == 13 {
            128
        } else if value == 14 {
            256
        } else {
            512
        };
    }

    fn get_sysclk_source(&self) -> (r: u32)
        ensures
            r == sysclk_code(self.sysclk_source),
    {
        match self.sysclk_source {
            SysClockSource::HSI => 0,
            SysClockSource::HSE => 1,
            SysClockSource::PLL => 2,
        }
    }

    fn set_sysclk_source(&mut self, value: u32)
        requires
            value <= 2,
        ensures
            *final(self) == (RCCRegion { sysclk_source: sysclk_of(value), ..*old(self) }),
    {
        proof {
            use_type_invariant(&*self);
        }
        self.sysclk_source = if value == 0 {
            SysClockSource::HSI
        } else if value == 1 {
            SysClockSource::HSE
        } else {
            SysClockSource::PLL
        };
    }
}

/// PPRE code of a valid APB prescaler.
fn apb_code_exec(p: u32) -> (r: u32)
    requires
        apb_valid(p),
    ensures
        r == apb_code(p),
{
    if p == 1 {
        3
    } else if p == 2 {
        4
    } else if p == 4 {
        5
    } else if p == 8 {
        6
    } else {
        7
    }
}

/// APB prescaler of a PPRE code.
fn apb_of_exec(value: u32) -> (r: u32)
    requires
        value <= 7,
    ensures
        r == apb_of(value),
{
    if value <= 3 {
        1
    } else if value == 4 {
        2
    } else if value == 5 {
        4
    } else if value == 6 {
        8
    } else {
        16
    }
}

/// The bits of a CFGR change the model cannot apply.
pub open spec fn cfgr_unhandled(change: u32) -> u32 {
    change & 0x00c3_c000
}

impl RCCRegion {
    pub open spec fn offset(self, address: usize) -> int {
        address - self.start()
    }

    /// Reads that are served: CR, CFGR and the three clock enable
    /// registers.
    pub open spec fn readable(self, address: usize) -> bool {
        let off = self.offset(address);
        self.start() <= address && (off == 0x00 || off == 0x04 || off == 0x14 || off == 0x18 || off
            == 0x1C)
    }

    /// Writes that are served: CR when PLLON, HSEON, HSION and CSSON keep
    /// their reported values; CFGR when only PLLMUL, the prescalers and a
    /// valid SW code change; the clock enable registers always.
    pub open spec fn writable(self, address: usize, value: u32) -> bool {
        let off = self.offset(address);
        let change = (self.mem(1) ^ value) & 0x00c3fff3;
        &&& self.start() <= address
        &&& (off == 0x00 || off == 0x04 || off == 0x14 || off == 0x18 || off == 0x1C)
        &&& off == 0x00 ==> (self.mem(0) ^ value) & 0x02040003 == 0
        &&& off == 0x04 ==> cfgr_unhandled(change) == 0 && (change & 3 != 0 ==> value & 3 != 3)
    }

    /// The value a read returns.
    pub open spec fn read_spec(self, address: usize) -> u32 {
        let off = self.offset(address);
        if off == 0x04 {
            self.cfgr()
        } else {
            self.mem(off / 4)
        }
    }

    /// The block after a CFGR write of `value`: the raw word is stored and
    /// each changed field is decoded (the PPRE1 code is taken from bits
    /// 8..10 and the PPRE2 code from bits 11..13).
    pub open spec fn cfgr_written(self, other: Self, value: u32) -> bool {
        let change = (self.mem(1) ^ value) & 0x00c3fff3;
        &&& other.start() == self.start()
        &&& other.mem(1) == value
        &&& forall|i: int| 0 <= i < 9 && i != 1 ==> #[trigger] other.mem(i) == self.mem(i)
        &&& other.pll_source() == self.pll_source()
        &&& other.pll_multiplier() == (if change & 0x003c0000 != 0 {
            pll_mul_of((value >> 18u32) & 0xf)
        } else {
            self.pll_multiplier()
        })
        &&& other.apb1_prescaler() == (if change & 0x00000700 != 0 {
            apb_of((value >> 8u32) & 0x7)
        } else {
            self.apb1_prescaler()
        })
        &&& other.apb2_prescaler() == (if change & 0x00003800 != 0 {
            apb_of((value >> 11u32) & 0x7)
        } else {
            self.apb2_prescaler()
        })
        &&& other.ahb_prescaler() == (if change & 0x000000f0 != 0 {
            ahb_of((value >> 4u32) & 0xf)
        } else {
            self.ahb_prescaler()
        })
        &&& other.sysclk_source() == (if change & 0x00000003 != 0 {
            sysclk_of(value & 0x3)
        } else {
            self.sysclk_source()
        })
    }

    fn read_cfgr(&self) -> (r: u32)
        ensures
            r == self.cfgr(),
    {
        let a = self.get_pll_multiplier_value();
        let p = self.get_pll_hse_prediv_value();
        let b = match p {
            Some(c) => c,
            None => 0,
        };
        let c = self.get_pll_source();
        let d = self.get_apb1_prescaler_value();
        let e = self.get_apb2_prescaler_value();
        let f = self.get_ahb_prescaler_value();
        let g = self.get_sysclk_source();
        let mut reg: u32 = 0;
        reg |= a << 18;
        reg |= (b & 1) << 17;
        reg |= c << 15;
        reg |= d << 11;
        reg |= e << 8;
        reg |= f << 4;
        reg |= g << 2;
        reg |= g;
        proof {
            lemma_bit_basics();
            assert(0u32 | (a << 18u32) == a << 18u32);
        }
        reg
    }

    fn write_cfgr(&mut self, new_value: u32)
        requires
            cfgr_unhandled((old(self).mem(1) ^ new_value) & 0x00c3fff3) == 0,
            (old(self).mem(1) ^ new_value) & 0x00c3fff3 & 3 != 0 ==> new_value & 3 != 3,
        ensures
            old(self).cfgr_written(*final(self), new_value),
    {
        proof {
            use_type_invariant(&*self);
        }
        let original_value = self.mem[1];
        let mut changed_bits = (original_value ^ new_value) & 0x00c3fff3;
        self.mem[1] = new_value;
        if changed_bits & 0x003c0000 != 0 {
            proof {
                lemma_bit_basics();
                assert((new_value >> 18u32) & 0xf <= 0xf);
            }
            let ghost before = *self;
            self.set_pll_multiplier_value((new_value >> 18) & 0xf);
            proof {
                assert forall|i: int| 0 <= i < 9 implies self.mem[i] == before.mem[i] by {
                    assert(self.mem(i) == before.mem(i));
                }
                assert(self.mem@ =~= before.mem@);
            }
        }
        if changed_bits & 0x00000700 != 0 {
            let ppre1 = (new_value >> 8) & 0x7;
            proof {
                lemma_bit_basics();
                assert((new_value >> 8u32) & 0x7 <= 7);
            }
            self.set_apb1_prescaler_value(ppre1);
        }
        if changed_bits & 0x00003800 != 0 {
            let ppre2 = (new_value >> 11) & 0x7;
            proof {
                lemma_bit_basics();
                assert((new_value >> 11u32) & 0x7 <= 7);
            }
            self.set_apb2_prescaler_value(ppre2);
        }
        if changed_bits & 0x000000f0 != 0 {
            let hpre = (new_value >> 4) & 0xf;
            proof {
                lemma_bit_basics();
                assert((new_value >> 4u32) & 0xf <= 15);
            }
            self.set_ahb_prescaler_value(hpre);
        }
        if changed_bits & 0x00000003 != 0 {
            proof {
                lemma_bit_basics();
                assert(new_value & 0x3 <= 3);
            }
            self.set_sysclk_source(new_value & 0x3);
        }
    }
}

impl MmioHandler for RCCRegion {
    open spec fn read_ok(&self, address: usize) -> bool {
        self.readable(address)
    }

    open spec fn write_ok(&self, address: usize, value: u64) -> bool {
        self.writable(address, value as u32)
    }

    open spec fn covers(&self, address: usize) -> bool {
        self.start() <= address < self.start() + RCC_REGION_SIZE
    }

    open spec fn read_value(&self, address: usize) -> u32 {
        self.read_spec(address)
    }

    open spec fn read_done(&self, address: usize, next: &Self) -> bool {
        *next == *self
    }

    /// CR reads its reset value at all times: writes to it are checked and
    /// not stored.
    fn read(&mut self, address: usize) -> (r: u32)
        ensures
            old(self).mem(0) == CR_VALUE,
    {
        proof {
            use_type_invariant(&*self);
        }
        let offset = address - self.start_addr;
        if offset == 0x00 {
            self.mem[0]
        } else if offset == 0x04 {
            self.read_cfgr()
        } else {
            self.mem[offset / 4]
        }
    }

    /// The block after a write of the low 32 bits of `value`: a CFGR write
    /// updates the clock tree, the other registers keep their contents.
    open spec fn written(&self, address: usize, value: u64, next: &Self) -> bool {
        if self.offset(address) == 0x04 {
            self.cfgr_written(*next, value as u32)
        } else {
            *next == *self
        }
    }

    fn write(&mut self, address: usize, value: u64)
        ensures
            old(self).mem(0) == CR_VALUE,
            final(self).mem(0) == CR_VALUE,
    {
        proof {
            use_type_invariant(&*self);
        }
        let value = value as u32;
        let offset = address - self.start_addr;
        if offset == 0x04 {
            self.write_cfgr(value);
        }
    }

    fn contains(&self, address: usize) -> (r: bool) {
        address >= self.start_addr && address - self.start_addr < RCC_REGION_SIZE
    }

    fn can_read(&self, address: usize) -> (r: bool)
        ensures
            self.mem(0) == CR_VALUE,
    {
        proof {
            use_type_invariant(self);
        }
        if address < self.start_addr {
            return false;
        }
        let off = address - self.start_addr;
        off == 0x00 || off == 0x04 || off == 0x14 || off == 0x18 || off == 0x1C
    }

    fn can_write(&self, address: usize, value: u64) -> (r: bool)
        ensures
            self.mem(0) == CR_VALUE,
    {
        proof {
            use_type_invariant(self);
        }
        if address < self.start_addr {
            return false;
        }
        let off = address - self.start_addr;
        let v = value as u32;
        if off == 0x00 {
            (self.mem[0] ^ v) & 0x02040003 == 0
        } else if off == 0x04 {
            let change = (self.mem[1] ^ v) & 0x00c3fff3;
            change & 0x00c3_c000 == 0 && (change & 3 == 0 || v & 3 != 3)
        } else {
            off == 0x14 || off == 0x18 || off == 0x1C
        }
    }
}

/// Decoding a clock field code and encoding it again gives the code back,
/// except that the codes which select "no division" read back as the
/// canonical one (3 for APB, 7 for AHB) and PLLMUL code 14 reads back as 15
/// (both select x16).
pub proof fn law_rcc_field_roundtrip(code: u32)
    ensures
        code <= 7 ==> apb_code(apb_of(code)) == (if code <= 3 {
            3
        } else {
            code
        }),
        code <= 15 ==> ahb_code(ahb_of(code)) == (if code <= 7 {
            7
        } else {
            code
        }),
        code <= 15 ==> pll_mul_code(pll_mul_of(code)) == (if code == 14 {
            15
        } else {
            code
        }),
        code <= 2 ==> sysclk_code(sysclk_of(code)) == code,
        code <= 15 ==> 2 <= pll_mul_of(code) <= 16,
{
}

} // verus!
