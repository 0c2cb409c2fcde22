//! A GPIO port: sixteen pins with mode, output type, speed, pull, alternate
//! function and level.
use vstd::prelude::*;

use super::mmio_handler::MmioHandler;
use crate::bits::{
    bit, lemma_bit_basics, lemma_low_masks, field2, field4, flag_word, lemma_field2_ext, lemma_field4_ext, lemma_flag_word_low_bits,
    lemma_flag_word_push, lemma_pack2_fields, lemma_pack4_fields, low_bits, pack2, pack4, set_bit_if,
};

verus! {

/// Size of a GPIO register block.
pub const GPIO_REGION_SIZE: usize = 0x2C;

#[derive(Clone, Copy, Debug, PartialEq, Eq, Structural)]
pub enum GPIOPort {
    A,
    B,
    C,
    D,
    F,
}

#[derive(Clone, Copy, Debug, PartialEq, Eq, Structural)]
pub enum GPIOMode {
    Input,
    Output,
    AlternateFunction,
    Analog,
}

#[derive(Clone, Copy, Debug, PartialEq, Eq, Structural)]
pub enum GPIOOutputSpeed {
    Low0,
    Low1,
    Medium,
    High,
}

#[derive(Clone, Copy, Debug, PartialEq, Eq, Structural)]
pub enum GPIOPull {
    NoPull,
    PullUp,
    PullDown,
    Reserved,
}

/// The two-bit MODER code of a mode.
pub open spec fn mode_code(m: GPIOMode) -> u32 {
    match m {
        GPIOMode::Input => 0,
        GPIOMode::Output => 1,
        GPIOMode::AlternateFunction => 2,
        GPIOMode::Analog => 3,
    }
}

/// The mode of a two-bit MODER code.
pub open spec fn mode_of(c: u32) -> GPIOMode {
    if c == 0 {
        GPIOMode::Input
    } else if c == 1 {
        GPIOMode::Output
    } else if c == 2 {
        GPIOMode::AlternateFunction
    } else {
        GPIOMode::Analog
    }
}

/// The two-bit OSPEEDR code of a speed.
pub open spec fn speed_code(s: GPIOOutputSpeed) -> u32 {
    match s {
        GPIOOutputSpeed::Low0 => 0,
        GPIOOutputSpeed::Low1 => 1,
        GPIOOutputSpeed::Medium => 2,
        GPIOOutputSpeed::High => 3,
    }
}

/// The speed of a two-bit OSPEEDR code.
pub open spec fn speed_of(c: u32) -> GPIOOutputSpeed {
    if c == 0 {
        GPIOOutputSpeed::Low0
    } else if c == 1 {
        GPIOOutputSpeed::Low1
    } else if c == 2 {
        GPIOOutputSpeed::Medium
    } else {
        GPIOOutputSpeed::High
    }
}

/// The two-bit PUPDR code of a pull setting.
pub open spec fn pull_code(p: GPIOPull) -> u32 {
    match p {
        GPIOPull::NoPull => 0,
        GPIOPull::PullUp => 1,
        GPIOPull::PullDown => 2,
        GPIOPull::Reserved => 3,
    }
}

/// The pull setting of a two-bit PUPDR code.
pub open spec fn pull_of(c: u32) -> GPIOPull {
    if c == 0 {
        GPIOPull::NoPull
    } else if c == 1 {
        GPIOPull::PullUp
    } else if c == 2 {
        GPIOPull::PullDown
    } else {
        GPIOPull::Reserved
    }
}

impl GPIOOutputSpeed {
    /// The speed of a two-bit OSPEEDR code.
    pub fn from_bits(value: u32) -> (s: Self)
        requires
            value < 4,
        ensures
            s == speed_of(value),
    {
        if value == 0b00 {
            GPIOOutputSpeed::Low0
        } else if value == 0b01 {
            GPIOOutputSpeed::Low1
        } else if value == 0b10 {
            GPIOOutputSpeed::Medium
        } else {
            GPIOOutputSpeed::High
        }
    }

    /// The two-bit OSPEEDR code.
    pub fn to_bits(self) -> (c: u32)
        ensures
            c == speed_code(self),
    {
        match self {
            GPIOOutputSpeed::Low0 => 0b00,
            GPIOOutputSpeed::Low1 => 0b01,
            GPIOOutputSpeed::Medium => 0b10,
            GPIOOutputSpeed::High => 0b11,
        }
    }
}

impl GPIOPull {
    /// The pull setting of a two-bit PUPDR code.
    pub fn from_bits(value: u32) -> (p: Self)
        requires
            value < 4,
        ensures
            p == pull_of(value),
    {
        if value == 0b00 {
            GPIOPull::NoPull
        } else if value == 0b01 {
            GPIOPull::PullUp
        } else if value == 0b10 {
            GPIOPull::PullDown
        } else {
            GPIOPull::Reserved
        }
    }

    /// The two-bit PUPDR code.
    pub fn to_bits(self) -> (c: u32)
        ensures
            c == pull_code(self),
    {
        match self {
            GPIOPull::NoPull => 0b00,
            GPIOPull::PullUp => 0b01,
            GPIOPull::PullDown => 0b10,
            GPIOPull::Reserved => 0b11,
        }
    }
}

impl GPIOMode {
    /// The mode of a two-bit MODER code.
    pub fn from_bits(value: u32) -> (m: Self)
        requires
            value < 4,
        ensures
            m == mode_of(value),
    {
        if value == 0b00 {
            GPIOMode::Input
        } else if value == 0b01 {
            GPIOMode::Output
        } else if value == 0b10 {
            GPIOMode::AlternateFunction
        } else {
            GPIOMode::Analog
        }
    }

    /// The two-bit MODER code.
    pub fn to_bits(self) -> (c: u32)
        ensures
            c == mode_code(self),
    {
        match self {
            GPIOMode::Input => 0,
            GPIOMode::Output => 1,
            GPIOMode::AlternateFunction => 2,
            GPIOMode::Analog => 3,
        }
    }
}

/// One pin of a port.
#[derive(Clone, Copy, Debug)]
pub struct GPIOPin {
    pub mode: GPIOMode,
    pub output_open_drain: bool,
    pub output_speed: GPIOOutputSpeed,
    pub pull: GPIOPull,
    pub alternate_function: u8,
    pub output: bool,
    pub input: bool,
}

/// The reset pin: floating input.
pub open spec fn reset_pin() -> GPIOPin {
    GPIOPin {
        mode: GPIOMode::Input,
        output_open_drain: false,
        output_speed: GPIOOutputSpeed::Low0,
        pull: GPIOPull::NoPull,
        alternate_function: 0,
        output: false,
        input: false,
    }
}

/// Driving a pin to `value` is allowed when it already shows that level or
/// is an output.
pub open spec fn output_write_ok(p: GPIOPin, value: bool) -> bool {
    p.output == value || p.mode == GPIOMode::Output
}

/// The pin after it is driven to `value`: an output pin changes its level,
/// which it also reads back.
pub open spec fn driven(p: GPIOPin, value: bool) -> GPIOPin {
    if p.output == value {
        p
    } else {
        GPIOPin { output: value, input: value, ..p }
    }
}

impl GPIOPin {
    pub fn new() -> (p: Self)
        ensures
            p == reset_pin(),
    {
        Self {
            mode: GPIOMode::Input,
            output_open_drain: false,
            output_speed: GPIOOutputSpeed::Low0,
            pull: GPIOPull::NoPull,
            alternate_function: 0,
            output: false,
            input: false,
        }
    }

    pub fn read_input(&self) -> (r: bool)
        ensures
            r == self.input,
    {
        self.input
    }

    pub fn write_output(&mut self, value: bool)
        requires
            output_write_ok(*old(self), value),
        ensures
            *final(self) == driven(*old(self), value),
        no_unwind
    {
        if self.output == value {
            return;
        }
        self.output = value;
        self.input = value;
    }
}

pub open spec fn mode_codes(pins: [GPIOPin; 16]) -> Seq<u32> {
    Seq::new(16, |i: int| mode_code(pins[i].mode))
}

pub open spec fn speed_codes(pins: [GPIOPin; 16]) -> Seq<u32> {
    Seq::new(16, |i: int| speed_code(pins[i].output_speed))
}

pub open spec fn pull_codes(pins: [GPIOPin; 16]) -> Seq<u32> {
    Seq::new(16, |i: int| pull_code(pins[i].pull))
}

/// Alternate function numbers of pins `base..base + 8`.
pub open spec fn af_codes(pins: [GPIOPin; 16], base: int) -> Seq<u32> {
    Seq::new(8, |i: int| pins[base + i].alternate_function as u32)
}

pub open spec fn open_drain_flags(pins: [GPIOPin; 16]) -> Seq<bool> {
    Seq::new(16, |i: int| pins[i].output_open_drain)
}

pub open spec fn input_flags(pins: [GPIOPin; 16]) -> Seq<bool> {
    Seq::new(16, |i: int| pins[i].input)
}

pub open spec fn output_flags(pins: [GPIOPin; 16]) -> Seq<bool> {
    Seq::new(16, |i: int| pins[i].output)
}

/// The register at `offset` of a port with these pins: MODER, OTYPER,
/// OSPEEDR, PUPDR, IDR, ODR, AFRL, AFRH.
pub open spec fn gpio_register(pins: [GPIOPin; 16], offset: int) -> u32 {
    if offset == 0x00 {
        pack2(mode_codes(pins))
    } else if offset == 0x04 {
        flag_word(open_drain_flags(pins))
    } else if offset == 0x08 {
        pack2(speed_codes(pins))
    } else if offset == 0x0C {
        pack2(pull_codes(pins))
    } else if offset == 0x10 {
        flag_word(input_flags(pins))
    } else if offset == 0x14 {
        flag_word(output_flags(pins))
    } else if offset == 0x20 {
        pack4(af_codes(pins, 0))
    } else {
        pack4(af_codes(pins, 8))
    }
}

/// Pin `i` after `value` is written at `offset`.
pub open spec fn written_pin(p: GPIOPin, i: int, offset: int, value: u32) -> GPIOPin {
    if offset == 0x00 {
        GPIOPin { mode: mode_of(field2(value, i as u32)), ..p }
    } else if offset == 0x04 {
        GPIOPin { output_open_drain: bit(value, i as u32), ..p }
    } else if offset == 0x08 {
        GPIOPin { output_speed: speed_of(field2(value, i as u32)), ..p }
    } else if offset == 0x0C {
        GPIOPin { pull: pull_of(field2(value, i as u32)), ..p }
    } else if offset == 0x14 {
        driven(p, bit(value, i as u32))
    } else if offset == 0x20 && i < 8 {
        GPIOPin { alternate_function: field4(value, i as u32) as u8, ..p }
    } else if offset == 0x24 && i >= 8 {
        GPIOPin { alternate_function: field4(value, (i - 8) as u32) as u8, ..p }
    } else {
        p
    }
}

/// Packs sixteen two-bit codes.
fn pack2_exec(codes: [u32; 16]) -> (r: u32)
    requires
        forall|i: int| 0 <= i < 16 ==> #[trigger] codes[i] < 4,
    ensures
        r == pack2(codes@),
{
    let mut acc: u32 = 0;
    let mut i: usize = 0;
    while i < 16
        invariant
            i <= 16,
            forall|j: int| 0 <= j < 16 ==> #[trigger] codes[j] < 4,
            acc == pack2(codes@.subrange(0, i as int)),
        decreases 16 - i,
    {
        assert(codes@.subrange(0, i + 1).drop_last() == codes@.subrange(0, i as int));
        acc = acc | (codes[i] << (2 * i as u32));
        i = i + 1;
    }
    assert(codes@.subrange(0, 16) == codes@);
    acc
}

/// Packs eight four-bit codes.
fn pack4_exec(codes: [u32; 8]) -> (r: u32)
    requires
        forall|i: int| 0 <= i < 8 ==> #[trigger] codes[i] < 16,
    ensures
        r == pack4(codes@),
{
    let mut acc: u32 = 0;
    let mut i: usize = 0;
    while i < 8
        invariant
            i <= 8,
            forall|j: int| 0 <= j < 8 ==> #[trigger] codes[j] < 16,
            acc == pack4(codes@.subrange(0, i as int)),
        decreases 8 - i,
    {
        assert(codes@.subrange(0, i + 1).drop_last() == codes@.subrange(0, i as int));
        acc = acc | (codes[i] << (4 * i as u32));
        i = i + 1;
    }
    assert(codes@.subrange(0, 8) == codes@);
    acc
}

/// A GPIO port.
pub struct GPIORegion {
    start_addr: usize,
    port: GPIOPort,
    pins: [GPIOPin; 16],
}

impl GPIORegion {
    #[verifier::type_invariant]
    spec fn inv(self) -> bool {
        forall|i: int|
            0 <= i < 16 ==> (#[trigger] self.pins[i]).alternate_function < 16
                && self.pins[i].input == self.pins[i].output
    }

    pub closed spec fn pins(self) -> [GPIOPin; 16] {
        self.pins
    }

    pub closed spec fn start(self) -> usize {
        self.start_addr
    }

    pub closed spec fn port(self) -> GPIOPort {
        self.port
    }

    /// The offset of `address` in the block.
    pub open spec fn offset(self, address: usize) -> int {
        address - self.start()
    }

    pub fn new(start_addr: usize, port: GPIOPort) -> (r: Self)
        ensures
            r.start() == start_addr,
            r.port() == port,
            forall|i: int| 0 <= i < 16 ==> #[trigger] r.pins()[i] == reset_pin(),
    {
        Self { start_addr, port, pins: [GPIOPin::new();16] }
    }

    pub fn new_boxed(start_addr: usize, port: GPIOPort) -> (r: Box<Self>)
        ensures
            r.start() == start_addr,
            r.port() == port,
            forall|i: int| 0 <= i < 16 ==> #[trigger] r.pins()[i] == reset_pin(),
    {
        Box::new(Self::new(start_addr, port))
    }

    /// Port A as the firmware finds it: PA13/PA14/PA15 in alternate
    /// function mode (debug port), PA13 at high speed with pull-down, PA14
    /// with pull-up, PA15 with pull-down.
    pub fn new_gpioa(start_addr: usize) -> (r: Box<Self>)
        ensures
            r.start() == start_addr,
            r.port() == GPIOPort::A,
            forall|i: int| 0 <= i < 13 ==> #[trigger] r.pins()[i] == reset_pin(),
            r.pins()[13] == (GPIOPin {
                mode: GPIOMode::AlternateFunction,
                output_speed: GPIOOutputSpeed::High,
                pull: GPIOPull::PullDown,
                ..reset_pin()
            }),
            r.pins()[14] == (GPIOPin {
                mode: GPIOMode::AlternateFunction,
                pull: GPIOPull::PullUp,
                ..reset_pin()
            }),
            r.pins()[15] == (GPIOPin {
                mode: GPIOMode::AlternateFunction,
                pull: GPIOPull::PullDown,
                ..reset_pin()
            }),
    {
        let mut region = Self::new(start_addr, GPIOPort::A);
        region.pins[15].mode = GPIOMode::AlternateFunction;
        region.pins[14].mode = GPIOMode::AlternateFunction;
        region.pins[13].mode = GPIOMode::AlternateFunction;
        region.pins[13].output_speed = GPIOOutputSpeed::High;
        region.pins[15].pull = GPIOPull::PullDown;
        region.pins[14].pull = GPIOPull::PullUp;
        region.pins[13].pull = GPIOPull::PullDown;
        Box::new(region)
    }

    /// Port B as the firmware finds it: PB3 and PB4 in alternate function
    /// mode (debug port), PB3 at high speed, PB4 with pull-up.
    pub fn new_gpiob(start_addr: usize) -> (r: Box<Self>)
        ensures
            r.start() == start_addr,
            r.port() == GPIOPort::B,
            forall|i: int| 0 <= i < 16 && i != 3 && i != 4 ==> #[trigger] r.pins()[i] == reset_pin(),
            r.pins()[3] == (GPIOPin {
                mode: GPIOMode::AlternateFunction,
                output_speed: GPIOOutputSpeed::High,
                ..reset_pin()
            }),
            r.pins()[4] == (GPIOPin {
                mode: GPIOMode::AlternateFunction,
                pull: GPIOPull::PullUp,
                ..reset_pin()
            }),
    {
        let mut region = Self::new(start_addr, GPIOPort::B);
        region.pins[4].mode = GPIOMode::AlternateFunction;
        region.pins[3].mode = GPIOMode::AlternateFunction;
        region.pins[3].output_speed = GPIOOutputSpeed::High;
        region.pins[4].pull = GPIOPull::PullUp;
        Box::new(region)
    }
}



impl GPIORegion {
    /// Reads of the port's registers that are served.
    pub open spec fn readable(self, address: usize) -> bool {
        let off = self.offset(address);
        &&& self.start() <= address
        &&& (off == 0x00 || off == 0x04 || off == 0x08 || off == 0x0C || off == 0x10 || off == 0x14
            || off == 0x20 || off == 0x24)
    }

    /// Writes that are served: MODER, OTYPER, OSPEEDR, PUPDR without the
    /// reserved code, ODR when every pin that changes level is an output,
    /// AFRL and AFRH.
    pub open spec fn writable(self, address: usize, value: u64) -> bool {
        let off = self.offset(address);
        let v = value as u32;
        &&& self.start() <= address
        &&& (off == 0x00 || off == 0x04 || off == 0x08 || off == 0x0C || off == 0x14 || off == 0x20
            || off == 0x24)
        &&& off == 0x0C ==> forall|i: u32| i < 16 ==> #[trigger] field2(v, i) != 3
        &&& off == 0x14 ==> forall|i: int|
            0 <= i < 16 ==> output_write_ok(#[trigger] self.pins()[i], bit(v, i as u32))
    }

    fn encode_moder(&self) -> (r: u32)
        ensures
            r == pack2(mode_codes(self.pins)),
    {
        let codes: [u32; 16] = [self.pins[0].mode.to_bits(), self.pins[1].mode.to_bits(), self.pins[2].mode.to_bits(), self.pins[3].mode.to_bits(), self.pins[4].mode.to_bits(), self.pins[5].mode.to_bits(), self.pins[6].mode.to_bits(), self.pins[7].mode.to_bits(), self.pins[8].mode.to_bits(), self.pins[9].mode.to_bits(), self.pins[10].mode.to_bits(), self.pins[11].mode.to_bits(), self.pins[12].mode.to_bits(), self.pins[13].mode.to_bits(), self.pins[14].mode.to_bits(), self.pins[15].mode.to_bits()];
        assert(codes@ == mode_codes(self.pins));
        pack2_exec(codes)
    }

    fn encode_ospeedr(&self) -> (r: u32)
        ensures
            r == pack2(speed_codes(self.pins)),
    {
        let codes: [u32; 16] = [self.pins[0].output_speed.to_bits(), self.pins[1].output_speed.to_bits(), self.pins[2].output_speed.to_bits(), self.pins[3].output_speed.to_bits(), self.pins[4].output_speed.to_bits(), self.pins[5].output_speed.to_bits(), self.pins[6].output_speed.to_bits(), self.pins[7].output_speed.to_bits(), self.pins[8].output_speed.to_bits(), self.pins[9].output_speed.to_bits(), self.pins[10].output_speed.to_bits(), self.pins[11].output_speed.to_bits(), self.pins[12].output_speed.to_bits(), self.pins[13].output_speed.to_bits(), self.pins[14].output_speed.to_bits(), self.pins[15].output_speed.to_bits()];
        assert(codes@ == speed_codes(self.pins));
        pack2_exec(codes)
    }

    fn encode_pupdr(&self) -> (r: u32)
        ensures
            r == pack2(pull_codes(self.pins)),
    {
        let codes: [u32; 16] = [self.pins[0].pull.to_bits(), self.pins[1].pull.to_bits(), self.pins[2].pull.to_bits(), self.pins[3].pull.to_bits(), self.pins[4].pull.to_bits(), self.pins[5].pull.to_bits(), self.pins[6].pull.to_bits(), self.pins[7].pull.to_bits(), self.pins[8].pull.to_bits(), self.pins[9].pull.to_bits(), self.pins[10].pull.to_bits(), self.pins[11].pull.to_bits(), self.pins[12].pull.to_bits(), self.pins[13].pull.to_bits(), self.pins[14].pull.to_bits(), self.pins[15].pull.to_bits()];
        assert(codes@ == pull_codes(self.pins));
        pack2_exec(codes)
    }

    fn encode_otyper(&self) -> (r: u32)
        ensures
            r == flag_word(open_drain_flags(self.pins)),
    {
        let mut value: u32 = 0;
        let mut i: usize = 0;
        while i < 16
            invariant
                i <= 16,
                value == flag_word(open_drain_flags(self.pins).subrange(0, i as int)),
            decreases 16 - i,
        {
            let c = self.pins[i].output_open_drain;
            proof {
                lemma_flag_word_push(open_drain_flags(self.pins).subrange(0, i as int), c);
                assert(open_drain_flags(self.pins).subrange(0, i as int).push(c) == open_drain_flags(
                    self.pins,
                ).subrange(0, i + 1));
            }
            let ghost before = value;
            value = set_bit_if(value, i as u32, c);
            proof {
                lemma_bit_basics();
                assert(before | 0u32 == before);
            }
            i = i + 1;
        }
        assert(open_drain_flags(self.pins).subrange(0, 16) == open_drain_flags(self.pins));
        value
    }

    fn encode_idr(&self) -> (r: u32)
        ensures
            r == flag_word(input_flags(self.pins)),
    {
        let mut value: u32 = 0;
        let mut i: usize = 0;
        while i < 16
            invariant
                i <= 16,
                value == flag_word(input_flags(self.pins).subrange(0, i as int)),
            decreases 16 - i,
        {
            let c = self.pins[i].read_input();
            proof {
                lemma_flag_word_push(input_flags(self.pins).subrange(0, i as int), c);
                assert(input_flags(self.pins).subrange(0, i as int).push(c) == input_flags(
                    self.pins,
                ).subrange(0, i + 1));
            }
            let ghost before = value;
            value = set_bit_if(value, i as u32, c);
            proof {
                lemma_bit_basics();
                assert(before | 0u32 == before);
            }
            i = i + 1;
        }
        assert(input_flags(self.pins).subrange(0, 16) == input_flags(self.pins));
        value
    }

    fn encode_odr(&self) -> (r: u32)
        ensures
            r == flag_word(output_flags(self.pins)),
    {
        let mut value: u32 = 0;
        let mut i: usize = 0;
        while i < 16
            invariant
                i <= 16,
                value == flag_word(output_flags(self.pins).subrange(0, i as int)),
            decreases 16 - i,
        {
            let c = self.pins[i].output;
            proof {
                lemma_flag_word_push(output_flags(self.pins).subrange(0, i as int), c);
                assert(output_flags(self.pins).subrange(0, i as int).push(c) == output_flags(
                    self.pins,
                ).subrange(0, i + 1));
            }
            let ghost before = value;
            value = set_bit_if(value, i as u32, c);
            proof {
                lemma_bit_basics();
                assert(before | 0u32 == before);
            }
            i = i + 1;
        }
        assert(output_flags(self.pins).subrange(0, 16) == output_flags(self.pins));
        value
    }

    fn encode_afrl(&self) -> (r: u32)
        ensures
            r == pack4(af_codes(self.pins, 0)),
    {
        proof {
            use_type_invariant(self);
        }
        let codes: [u32; 8] = [self.pins[0].alternate_function as u32, self.pins[1].alternate_function as u32, self.pins[2].alternate_function as u32, self.pins[3].alternate_function as u32, self.pins[4].alternate_function as u32, self.pins[5].alternate_function as u32, self.pins[6].alternate_function as u32, self.pins[7].alternate_function as u32];
        assert(codes@ == af_codes(self.pins, 0));
        pack4_exec(codes)
    }

    fn encode_afrh(&self) -> (r: u32)
        ensures
            r == pack4(af_codes(self.pins, 8)),
    {
        proof {
            use_type_invariant(self);
        }
        let codes: [u32; 8] = [self.pins[8].alternate_function as u32, self.pins[9].alternate_function as u32, self.pins[10].alternate_function as u32, self.pins[11].alternate_function as u32, self.pins[12].alternate_function as u32, self.pins[13].alternate_function as u32, self.pins[14].alternate_function as u32, self.pins[15].alternate_function as u32];
        assert(codes@ == af_codes(self.pins, 8));
        pack4_exec(codes)
    }

    /// Writes MODER.
    fn write_moder(&mut self, value: u32)
        ensures
            forall|i: int|
                0 <= i < 16 ==> #[trigger] final(self).pins[i] == written_pin(old(self).pins[i], i, 0x00, value),
            final(self).start_addr == old(self).start_addr,
            final(self).port == old(self).port,
    {
        proof {
            use_type_invariant(&*self);
        }
        let mut i: usize = 0;
        while i < 16
            invariant
                i <= 16,
                forall|j: int|
                    0 <= j < 16 ==> (#[trigger] self.pins[j]).alternate_function < 16
                        && self.pins[j].input == self.pins[j].output,
                self.start_addr == old(self).start_addr,
                self.port == old(self).port,
                forall|j: int|
                    0 <= j < 16 ==> #[trigger] self.pins[j] == (if j < i {
                        written_pin(old(self).pins[j], j, 0x00, value)
                    } else {
                        old(self).pins[j]
                    }),
            decreases 16 - i,
        {
            let mode_bits = (value >> (2 * i as u32)) & 0b11;
            proof {
                lemma_bit_basics();
                assert(mode_bits < 4);
            }
            self.pins[i].mode = GPIOMode::from_bits(mode_bits);
            i = i + 1;
        }
    }

    /// Writes OTYPER.
    fn write_otyper(&mut self, value: u32)
        ensures
            forall|i: int|
                0 <= i < 16 ==> #[trigger] final(self).pins[i] == written_pin(old(self).pins[i], i, 0x04, value),
            final(self).start_addr == old(self).start_addr,
            final(self).port == old(self).port,
    {
        proof {
            use_type_invariant(&*self);
        }
        let mut i: usize = 0;
        while i < 16
            invariant
                i <= 16,
                forall|j: int|
                    0 <= j < 16 ==> (#[trigger] self.pins[j]).alternate_function < 16
                        && self.pins[j].input == self.pins[j].output,
                self.start_addr == old(self).start_addr,
                self.port == old(self).port,
                forall|j: int|
                    0 <= j < 16 ==> #[trigger] self.pins[j] == (if j < i {
                        written_pin(old(self).pins[j], j, 0x04, value)
                    } else {
                        old(self).pins[j]
                    }),
            decreases 16 - i,
        {
            let otype_bit = (value >> (i as u32)) & 0b1;
            self.pins[i].output_open_drain = otype_bit != 0;
            proof {
                lemma_bit_basics();
                assert(otype_bit <= 1);
                assert((otype_bit != 0) == ((value >> (i as u32)) & 1 == 1));
            }
            i = i + 1;
        }
    }

    /// Writes OSPEEDR.
    fn write_ospeedr(&mut self, value: u32)
        ensures
            forall|i: int|
                0 <= i < 16 ==> #[trigger] final(self).pins[i] == written_pin(old(self).pins[i], i, 0x08, value),
            final(self).start_addr == old(self).start_addr,
            final(self).port == old(self).port,
    {
        proof {
            use_type_invariant(&*self);
        }
        let mut i: usize = 0;
        while i < 16
            invariant
                i <= 16,
                forall|j: int|
                    0 <= j < 16 ==> (#[trigger] self.pins[j]).alternate_function < 16
                        && self.pins[j].input == self.pins[j].output,
                self.start_addr == old(self).start_addr,
                self.port == old(self).port,
                forall|j: int|
                    0 <= j < 16 ==> #[trigger] self.pins[j] == (if j < i {
                        written_pin(old(self).pins[j], j, 0x08, value)
                    } else {
                        old(self).pins[j]
                    }),
            decreases 16 - i,
        {
            let ospeed_bits = (value >> (2 * i as u32)) & 0b11;
            proof {
                lemma_bit_basics();
                assert(ospeed_bits < 4);
            }
            self.pins[i].output_speed = GPIOOutputSpeed::from_bits(ospeed_bits);
            i = i + 1;
        }
    }

    /// Writes PUPDR.
    fn write_pupdr(&mut self, value: u32)
        requires
            forall|i: u32| i < 16 ==> #[trigger] field2(value, i) != 3,
        ensures
            forall|i: int|
                0 <= i < 16 ==> #[trigger] final(self).pins[i] == written_pin(old(self).pins[i], i, 0x0C, value),
            final(self).start_addr == old(self).start_addr,
            final(self).port == old(self).port,
    {
        proof {
            use_type_invariant(&*self);
        }
        let mut i: usize = 0;
        while i < 16
            invariant
                i <= 16,
                forall|k: u32| k < 16 ==> #[trigger] field2(value, k) != 3,
                forall|j: int|
                    0 <= j < 16 ==> (#[trigger] self.pins[j]).alternate_function < 16
                        && self.pins[j].input == self.pins[j].output,
                self.start_addr == old(self).start_addr,
                self.port == old(self).port,
                forall|j: int|
                    0 <= j < 16 ==> #[trigger] self.pins[j] == (if j < i {
                        written_pin(old(self).pins[j], j, 0x0C, value)
                    } else {
                        old(self).pins[j]
                    }),
            decreases 16 - i,
        {
            let pull_bits = (value >> (2 * i as u32)) & 0b11;
            proof {
                assert(field2(value, i as u32) != 3);
                lemma_bit_basics();
                assert(pull_bits < 4);
            }
            self.pins[i].pull = GPIOPull::from_bits(pull_bits);
            i = i + 1;
        }
    }

    /// Writes ODR.
    fn write_odr(&mut self, value: u32)
        requires
            forall|i: int|
                0 <= i < 16 ==> output_write_ok(#[trigger] old(self).pins[i], bit(value, i as u32)),
        ensures
            forall|i: int|
                0 <= i < 16 ==> #[trigger] final(self).pins[i] == written_pin(old(self).pins[i], i, 0x14, value),
            final(self).start_addr == old(self).start_addr,
            final(self).port == old(self).port,
    {
        proof {
            use_type_invariant(&*self);
        }
        let mut i: usize = 0;
        while i < 16
            invariant
                i <= 16,
                forall|k: int|
                    0 <= k < 16 ==> output_write_ok(#[trigger] old(self).pins[k], bit(value, k as u32)),
                forall|j: int|
                    0 <= j < 16 ==> (#[trigger] self.pins[j]).alternate_function < 16
                        && self.pins[j].input == self.pins[j].output,
                self.start_addr == old(self).start_addr,
                self.port == old(self).port,
                forall|j: int|
                    0 <= j < 16 ==> #[trigger] self.pins[j] == (if j < i {
                        written_pin(old(self).pins[j], j, 0x14, value)
                    } else {
                        old(self).pins[j]
                    }),
            decreases 16 - i,
        {
            let output_bit = (value >> (i as u32)) & 0b1;
            proof {
                lemma_bit_basics();
                assert(output_bit <= 1);
                assert((output_bit != 0) == ((value >> (i as u32)) & 1 == 1));
                assert(output_write_ok(old(self).pins[i as int], bit(value, i as u32)));
            }
            self.pins[i].write_output(output_bit != 0);
            i = i + 1;
        }
    }

    /// Writes AFRL (`high` false) or AFRH (`high` true).
    fn write_afr(&mut self, value: u32, high: bool)
        ensures
            forall|i: int|
                0 <= i < 16 ==> #[trigger] final(self).pins[i] == written_pin(
                    old(self).pins[i],
                    i,
                    if high {
                        0x24
                    } else {
                        0x20
                    },
                    value,
                ),
            final(self).start_addr == old(self).start_addr,
            final(self).port == old(self).port,
    {
        proof {
            use_type_invariant(&*self);
        }
        let base: usize = if high {
            8
        } else {
            0
        };
        let ghost off: int = if high {
            0x24
        } else {
            0x20
        };
        let mut i: usize = 0;
        while i < 8
            invariant
                i <= 8,
                base == (if high {
                    8usize
                } else {
                    0usize
                }),
                off == (if high {
                    0x24int
                } else {
                    0x20int
                }),
                self.start_addr == old(self).start_addr,
                self.port == old(self).port,
                forall|j: int|
                    0 <= j < 16 ==> (#[trigger] self.pins[j]).alternate_function < 16
                        && self.pins[j].input == self.pins[j].output,
                forall|j: int|
                    0 <= j < 16 ==> #[trigger] self.pins[j] == (if base <= j < base + i {
                        written_pin(old(self).pins[j], j, off, value)
                    } else {
                        old(self).pins[j]
                    }),
            decreases 8 - i,
        {
            let af_bits = (value >> (4 * i as u32)) & 0b1111;
            proof {
                lemma_bit_basics();
                assert(af_bits < 16);
            }
            self.pins[base + i].alternate_function = af_bits as u8;
            i = i + 1;
        }
    }
}

impl GPIORegion {
    /// No pin of a PUPDR value uses the reserved code.
    fn pulls_ok(value: u32) -> (r: bool)
        ensures
            r == forall|i: u32| i < 16 ==> #[trigger] field2(value, i) != 3,
    {
        let mut i: u32 = 0;
        while i < 16
            invariant
                i <= 16,
                forall|k: u32| k < i ==> #[trigger] field2(value, k) != 3,
            decreases 16 - i,
        {
            if (value >> (2 * i)) & 0b11 == 0b11 {
                assert(field2(value, i) == 3);
                return false;
            }
            i = i + 1;
        }
        true
    }

    /// Every pin an ODR value changes is an output.
    fn outputs_ok(&self, value: u32) -> (r: bool)
        ensures
            r == forall|i: int|
                0 <= i < 16 ==> output_write_ok(#[trigger] self.pins()[i], bit(value, i as u32)),
    {
        let mut i: usize = 0;
        while i < 16
            invariant
                i <= 16,
                forall|k: int|
                    0 <= k < i ==> output_write_ok(#[trigger] self.pins()[k], bit(value, k as u32)),
            decreases 16 - i,
        {
            let b = (value >> (i as u32)) & 1 == 1;
            if !(self.pins[i].output == b || matches!(self.pins[i].mode, GPIOMode::Output)) {
                return false;
            }
            i = i + 1;
        }
        true
    }
}

impl MmioHandler for GPIORegion {
    open spec fn read_ok(&self, address: usize) -> bool {
        self.readable(address)
    }

    open spec fn write_ok(&self, address: usize, value: u64) -> bool {
        self.writable(address, value)
    }

    open spec fn covers(&self, address: usize) -> bool {
        self.start() <= address < self.start() + GPIO_REGION_SIZE
    }

    open spec fn read_value(&self, address: usize) -> u32 {
        gpio_register(self.pins(), self.offset(address))
    }

    open spec fn read_done(&self, address: usize, next: &Self) -> bool {
        *next == *self
    }

    fn read(&mut self, address: usize) -> (r: u32)
        ensures
            old(self).offset(address) == 0x10 ==> r == gpio_register(old(self).pins(), 0x14),
    {
        proof {
            use_type_invariant(&*self);
            assert(input_flags(self.pins) =~= output_flags(self.pins));
        }
        let offset = address - self.start_addr;
        if offset == 0 {
            self.encode_moder()
        } else if offset == 0x04 {
            self.encode_otyper()
        } else if offset == 0x08 {
            self.encode_ospeedr()
        } else if offset == 0x0C {
            self.encode_pupdr()
        } else if offset == 0x10 {
            self.encode_idr()
        } else if offset == 0x14 {
            self.encode_odr()
        } else if offset == 0x20 {
            self.encode_afrl()
        } else {
            self.encode_afrh()
        }
    }

    /// The port after a write of the low 32 bits of `value`.
    open spec fn written(&self, address: usize, value: u64, next: &Self) -> bool {
        &&& forall|i: int|
            0 <= i < 16 ==> #[trigger] next.pins()[i] == written_pin(
                self.pins()[i],
                i,
                self.offset(address),
                value as u32,
            )
        &&& next.start() == self.start()
        &&& next.port() == self.port()
    }

    fn write(&mut self, address: usize, value: u64) {
        let value = value as u32;
        let offset = address - self.start_addr;
        if offset == 0x00 {
            self.write_moder(value);
        } else if offset == 0x04 {
            self.write_otyper(value);
        } else if offset == 0x08 {
            self.write_ospeedr(value);
        } else if offset == 0x0C {
            self.write_pupdr(value);
        } else if offset == 0x14 {
            self.write_odr(value);
        } else if offset == 0x20 {
            self.write_afr(value, false);
        } else {
            self.write_afr(value, true);
        }
    }

    fn contains(&self, address: usize) -> (r: bool) {
        address >= self.start_addr && address - self.start_addr < GPIO_REGION_SIZE
    }

    fn can_read(&self, address: usize) -> (r: bool) {
        if address < self.start_addr {
            return false;
        }
        let off = address - self.start_addr;
        off == 0x00 || off == 0x04 || off == 0x08 || off == 0x0C || off == 0x10 || off == 0x14
            || off == 0x20 || off == 0x24
    }

    fn can_write(&self, address: usize, value: u64) -> (r: bool) {
        if address < self.start_addr {
            return false;
        }
        let off = address - self.start_addr;
        let v = value as u32;
        if off == 0x0C {
            Self::pulls_ok(v)
        } else if off == 0x14 {
            self.outputs_ok(v)
        } else {
            off == 0x00 || off == 0x04 || off == 0x08 || off == 0x20 || off == 0x24
        }
    }
}

/// The pins after `value` is written at `offset`.
pub open spec fn written_pins(pins: [GPIOPin; 16], pins2: [GPIOPin; 16], offset: int, value: u32) -> bool {
    forall|i: int| 0 <= i < 16 ==> #[trigger] pins2[i] == written_pin(pins[i], i, offset, value)
}

/// What a register reads right after `value` was written to it.
pub open spec fn gpio_readback(offset: int, value: u32) -> u32 {
    if offset == 0x04 || offset == 0x14 {
        value & 0xFFFF
    } else {
        value
    }
}

proof fn lemma_field_bounds(v: u32)
    ensures
        forall|i: u32| i < 16 ==> #[trigger] field2(v, i) < 4,
        forall|i: u32| i < 8 ==> #[trigger] field4(v, i) < 16,
{
    lemma_bit_basics();
    assert forall|i: u32| i < 16 implies #[trigger] field2(v, i) < 4 by {
        assert((v >> (2 * i)) & 3 <= 3);
    }
    assert forall|i: u32| i < 8 implies #[trigger] field4(v, i) < 16 by {
        assert((v >> (4 * i)) & 0xF <= 0xF);
    }
}

proof fn lemma_pins_readback(
    pins: [GPIOPin; 16],
    pins2: [GPIOPin; 16],
    offset: int,
    value: u32,
)
    requires
        offset == 0x00 || offset == 0x04 || offset == 0x08 || offset == 0x0C || offset == 0x14
            || offset == 0x20 || offset == 0x24,
        offset == 0x0C ==> forall|i: u32| i < 16 ==> #[trigger] field2(value, i) != 3,
        written_pins(pins, pins2, offset, value),
    ensures
        gpio_register(pins2, offset) == gpio_readback(offset, value),
{
    lemma_field_bounds(value);
    if offset == 0x00 || offset == 0x08 || offset == 0x0C {
        let codes = if offset == 0x00 {
            mode_codes(pins2)
        } else if offset == 0x08 {
            speed_codes(pins2)
        } else {
            pull_codes(pins2)
        };
        assert forall|i: int| 0 <= i < codes.len() implies #[trigger] codes[i] < 4 by {
            assert(field2(value, i as u32) < 4);
        }
        lemma_pack2_fields(codes);
        assert forall|k: u32| k < 16 implies #[trigger] field2(pack2(codes), k) == field2(value, k) by {
            assert(pins2[k as int] == written_pin(pins[k as int], k as int, offset, value));
        }
        lemma_field2_ext(pack2(codes), value);
    } else if offset == 0x04 || offset == 0x14 {
        lemma_low_masks();
        lemma_flag_word_low_bits(value, 16, 0xFFFF);
        if offset == 0x04 {
            assert(open_drain_flags(pins2) =~= low_bits(value, 16));
        } else {
            assert(output_flags(pins2) =~= low_bits(value, 16));
        }
    } else {
        let base: int = if offset == 0x20 {
            0
        } else {
            8
        };
        let codes = af_codes(pins2, base);
        assert forall|i: int| 0 <= i < codes.len() implies #[trigger] codes[i] < 16 by {
            assert(pins2[base + i] == written_pin(pins[base + i], base + i, offset, value));
            assert(field4(value, i as u32) < 16);
        }
        lemma_pack4_fields(codes);
        assert forall|k: u32| k < 8 implies #[trigger] field4(pack4(codes), k) == field4(value, k) by {
            assert(pins2[base + k] == written_pin(pins[base + k], base + k, offset, value));
            assert(field4(value, k) < 16);
        }
        lemma_field4_ext(pack4(codes), value);
    }
}

/// Read after write: every writable GPIO register reads back the value
/// written to it (OTYPER and ODR only have the sixteen low bits).
pub proof fn law_gpio_read_after_write(p: GPIORegion, g: GPIORegion, address: usize, value: u64)
    requires
        p.write_ok(address, value),
        p.written(address, value, &g),
    ensures
        g.read_ok(address),
        g.read_value(address) == gpio_readback(p.offset(address), value as u32),
{
    lemma_pins_readback(p.pins(), g.pins(), p.offset(address), value as u32);
}

} // verus!
