//! Interpolators: two lanes that shift, mask and add an accumulator to a base.
use vstd::prelude::*;

use crate::device::DeviceId;

pub mod ctrl;
pub mod regs;

verus! {

/// Interpolator base addresses.
pub const INTERP0_BASE: u32 = 0x5002_0000;

pub const INTERP1_BASE: u32 = 0x5002_1000;

/// Interpolator lane.
#[derive(Debug, Clone, Copy)]
pub struct InterpLane {
    pub accum: u32,
    pub base: u32,
    pub ctrl: u32,
    pub signed: bool,
    pub shift: u8,
    pub mask_lsb: u8,
    pub mask_msb: u8,
    pub cross_input: bool,
    pub cross_result: bool,
    pub add_raw: bool,
    pub overflow0: bool,
    pub overflow1: bool,
    pub blend: bool,
}

/// A lane with every field zero.
pub open spec fn zero_lane() -> InterpLane {
    InterpLane {
        accum: 0,
        base: 0,
        ctrl: 0,
        signed: false,
        shift: 0,
        mask_lsb: 0,
        mask_msb: 0,
        cross_input: false,
        cross_result: false,
        add_raw: false,
        overflow0: false,
        overflow1: false,
        blend: false,
    }
}

/// A lane as it is at power-on: everything zero but a full-width mask.
pub open spec fn initial_lane() -> InterpLane {
    InterpLane { mask_msb: 31, ..zero_lane() }
}

/// Mask of bits `lsb..=msb`; the full word when the range is empty, reversed or
/// covers all 32 bits.
pub open spec fn lane_mask(lsb: u8, msb: u8) -> u32 {
    if lsb <= msb && msb < 32 {
        let bits = (msb - lsb + 1) as u32;
        if bits >= 32 {
            0xFFFF_FFFF
        } else {
            (((1u32 << bits) - 1) as u32) << (lsb as u32)
        }
    } else {
        0xFFFF_FFFF
    }
}

/// The masked field of a shifted accumulator: the value is moved down by the
/// mask's low bit and then masked; a mask with both bounds zero selects the
/// whole shifted value.
pub open spec fn lane_field(shifted: u32, lsb: u8, msb: u8) -> u32 {
    if lsb == 0 && msb == 0 {
        shifted
    } else {
        let aligned: u32 = if lsb < 32 { shifted >> (lsb as u32) } else { 0 };
        aligned & lane_mask(lsb, msb)
    }
}

/// Integer division rounding toward zero.
pub open spec fn trunc_div(x: int, d: int) -> int {
    if x >= 0 {
        x / d
    } else {
        -((-x) / d)
    }
}

pub open spec fn b2u(b: bool, bit: u32) -> u32 {
    if b {
        bit
    } else {
        0
    }
}

impl InterpLane {
    /// Lane result: the masked field of the accumulator shifted right (or the
    /// raw accumulator in add-raw mode), plus the base or the cross input,
    /// wrapping.
    pub open spec fn result(self, cross_input: u32) -> u32 {
        let shifted: u32 = if self.shift < 32 { self.accum >> (self.shift as u32) } else { 0 };
        let masked = lane_field(shifted, self.mask_lsb, self.mask_msb);
        let input = if self.cross_input { cross_input } else { self.base };
        if self.add_raw {
            vstd::wrapping::u32_specs::wrapping_add(self.accum, input)
        } else {
            vstd::wrapping::u32_specs::wrapping_add(masked, input)
        }
    }

    /// Lane after a CTRL write.
    #[verifier::opaque]
    pub open spec fn with_ctrl(self, value: u32) -> InterpLane {
        InterpLane {
            ctrl: value,
            shift: ((value >> ctrl::SHIFT_SHIFT) & 0x1F) as u8,
            mask_lsb: ((value >> ctrl::MASK_LSB_SHIFT) & 0x1F) as u8,
            mask_msb: ((value >> ctrl::MASK_MSB_SHIFT) & 0x1F) as u8,
            signed: value & ctrl::SIGNED != 0,
            cross_input: value & ctrl::CROSS_INPUT != 0,
            cross_result: value & ctrl::CROSS_RESULT != 0,
            add_raw: value & ctrl::ADD_RAW != 0,
            blend: value & ctrl::BLEND != 0,
            ..self
        }
    }

    /// CTRL as read back from the decoded fields.
    pub open spec fn ctrl_value(self) -> u32 {
        ((self.shift as u32) << ctrl::SHIFT_SHIFT) | ((self.mask_lsb as u32) << ctrl::MASK_LSB_SHIFT)
            | ((self.mask_msb as u32) << ctrl::MASK_MSB_SHIFT) | b2u(self.signed, ctrl::SIGNED) | b2u(
            self.cross_input,
            ctrl::CROSS_INPUT,
        ) | b2u(self.cross_result, ctrl::CROSS_RESULT) | b2u(self.add_raw, ctrl::ADD_RAW) | b2u(
            self.overflow0,
            ctrl::OVERF0,
        ) | b2u(self.overflow1, ctrl::OVERF1) | b2u(self.blend, ctrl::BLEND)
    }

    /// Create a lane with a full-width mask.
    pub fn new() -> (r: Self)
        ensures
            r == initial_lane(),
    {
        InterpLane { mask_msb: 31, ..InterpLane::default() }
    }

    /// Decode a CTRL value into the lane's fields.
    fn update_ctrl(&mut self, value: u32)
        ensures
            *final(self) == old(self).with_ctrl(value),
    {
        reveal(InterpLane::with_ctrl);
        self.ctrl = value;
        self.shift = ((value >> ctrl::SHIFT_SHIFT) & 0x1F) as u8;
        self.mask_lsb = ((value >> ctrl::MASK_LSB_SHIFT) & 0x1F) as u8;
        self.mask_msb = ((value >> ctrl::MASK_MSB_SHIFT) & 0x1F) as u8;
        self.signed = (value & ctrl::SIGNED) != 0;
        self.cross_input = (value & ctrl::CROSS_INPUT) != 0;
        self.cross_result = (value & ctrl::CROSS_RESULT) != 0;
        self.add_raw = (value & ctrl::ADD_RAW) != 0;
        self.blend = (value & ctrl::BLEND) != 0;
    }

    /// CTRL value of the lane.
    fn get_ctrl(&self) -> (r: u32)
        ensures
            r == self.ctrl_value(),
    {
        ((self.shift as u32) << ctrl::SHIFT_SHIFT) | ((self.mask_lsb as u32) << ctrl::MASK_LSB_SHIFT)
            | ((self.mask_msb as u32) << ctrl::MASK_MSB_SHIFT) | (if self.signed {
            ctrl::SIGNED
        } else {
            0
        }) | (if self.cross_input {
            ctrl::CROSS_INPUT
        } else {
            0
        }) | (if self.cross_result {
            ctrl::CROSS_RESULT
        } else {
            0
        }) | (if self.add_raw {
            ctrl::ADD_RAW
        } else {
            0
        }) | (if self.overflow0 {
            ctrl::OVERF0
        } else {
            0
        }) | (if self.overflow1 {
            ctrl::OVERF1
        } else {
            0
        }) | (if self.blend {
            ctrl::BLEND
        } else {
            0
        })
    }

    /// Lane result for a given cross input.
    fn compute(&self, cross_input: u32) -> (r: u32)
        ensures
            r == self.result(cross_input),
    {
        let shifted: u32 = if self.shift < 32 {
            self.accum >> (self.shift as u32)
        } else {
            0
        };
        let mask: u32 = if self.mask_lsb <= self.mask_msb && self.mask_msb < 32 {
            let bits = (self.mask_msb - self.mask_lsb + 1) as u32;
            if bits >= 32 {
                0xFFFF_FFFF
            } else {
                proof {
                    crate::bits::lemma_bit_ops(0, bits, 0);
                }
                ((1u32 << bits) - 1) << (self.mask_lsb as u32)
            }
        } else {
            0xFFFF_FFFF
        };
        let masked = if self.mask_lsb == 0 && self.mask_msb == 0 {
            shifted
        } else {
            let aligned: u32 = if self.mask_lsb < 32 {
                shifted >> (self.mask_lsb as u32)
            } else {
                0
            };
            aligned & mask
        };
        let input = if self.cross_input {
            cross_input
        } else {
            self.base
        };
        if self.add_raw {
            self.accum.wrapping_add(input)
        } else {
            masked.wrapping_add(input)
        }
    }

    /// Sign-extend a value of the mask's width when the lane is signed.
    fn sign_extend(&self, value: u32) -> (r: u32)
        ensures
            ({
                let bits: u32 = if self.mask_msb >= self.mask_lsb {
                    (self.mask_msb - self.mask_lsb + 1) as u32
                } else {
                    1
                };
                r == if !self.signed || bits >= 32 {
                    value
                } else if value & (1u32 << ((bits - 1) as u32)) != 0 {
                    value | !(((1u32 << bits) - 1) as u32)
                } else {
                    value
                }
            }),
    {
        if !self.signed {
            return value;
        }
        let diff: u8 = if self.mask_msb >= self.mask_lsb {
            self.mask_msb - self.mask_lsb
        } else {
            0
        };
        let bits: u32 = diff as u32 + 1;
        if bits == 0 || bits >= 32 {
            return value;
        }
        let sign_bit = 1u32 << (bits - 1);
        if value & sign_bit != 0 {
            proof {
                crate::bits::lemma_bit_ops(0, bits, 0);
            }
            let mask = !((1u32 << bits) - 1);
            value | mask
        } else {
            value
        }
    }
}

impl Default for InterpLane {
    fn default() -> (r: Self)
        ensures
            r == zero_lane(),
    {
        InterpLane {
            accum: 0,
            base: 0,
            ctrl: 0,
            signed: false,
            shift: 0,
            mask_lsb: 0,
            mask_msb: 0,
            cross_input: false,
            cross_result: false,
            add_raw: false,
            overflow0: false,
            overflow1: false,
            blend: false,
        }
    }
}

/// Interpolator instance.
#[derive(Debug)]
pub struct Interp {
    pub id: u8,
    pub base: u32,
    pub lane0: InterpLane,
    pub lane1: InterpLane,
    pub base2: u32,
    pub accum0: u32,
    pub accum1: u32,
    pub result0: u32,
    pub result1: u32,
    pub result_full: u64,
    pub add_raw: bool,
}

/// Abstract state of an interpolator.
pub ghost struct InterpState {
    pub id: u8,
    pub base: u32,
    pub lane0: InterpLane,
    pub lane1: InterpLane,
    pub base2: u32,
    pub accum0: u32,
    pub accum1: u32,
    pub result0: u32,
    pub result1: u32,
    pub result_full: u64,
    pub add_raw: bool,
}

impl View for Interp {
    type V = InterpState;

    open spec fn view(&self) -> InterpState {
        InterpState {
            id: self.id,
            base: self.base,
            lane0: self.lane0,
            lane1: self.lane1,
            base2: self.base2,
            accum0: self.accum0,
            accum1: self.accum1,
            result0: self.result0,
            result1: self.result1,
            result_full: self.result_full,
            add_raw: self.add_raw,
        }
    }
}

impl InterpState {
    pub open spec fn initial(id: u8) -> InterpState {
        InterpState {
            id: id,
            base: if id == 0 { INTERP0_BASE } else { INTERP1_BASE },
            lane0: initial_lane(),
            lane1: initial_lane(),
            base2: 0,
            accum0: 0,
            accum1: 0,
            result0: 0,
            result1: 0,
            result_full: 0,
            add_raw: false,
        }
    }

    /// Lane 0's result; it sees lane 1's base as its cross input.
    pub open spec fn lane0_result(self) -> u32 {
        self.lane0.result(self.lane1.base)
    }

    /// Lane 1's result; with cross input it sees lane 0's result.
    pub open spec fn lane1_result(self) -> u32 {
        self.lane1.result(if self.lane1.cross_input { self.lane0_result() } else { self.lane1.base })
    }

    /// Both lane results, latched.
    pub open spec fn computed(self) -> InterpState {
        InterpState {
            result0: self.lane0_result(),
            result1: self.lane1_result(),
            result_full: (self.lane0_result() as u64) | ((self.lane1_result() as u64) << 32u64),
            ..self
        }
    }

    pub open spec fn read_value(self, offset: u32) -> u32 {
        if offset == regs::ACCUM0 {
            self.lane0.accum
        } else if offset == regs::ACCUM1 {
            self.lane1.accum
        } else if offset == regs::BASE0 {
            self.lane0.base
        } else if offset == regs::BASE1 {
            self.lane1.base
        } else if offset == regs::BASE2 {
            self.base2
        } else if offset == regs::POP_LANE0 || offset == regs::PEEK_LANE0 || offset == regs::POP_FULL
            || offset == regs::PEEK_FULL {
            self.lane0_result()
        } else if offset == regs::POP_LANE1 || offset == regs::PEEK_LANE1 {
            self.lane1_result()
        } else if offset == regs::CTRL_LANE0 {
            self.lane0.ctrl_value()
        } else if offset == regs::CTRL_LANE1 {
            self.lane1.ctrl_value()
        } else if offset == regs::CTRL_LANE0_SIGNED {
            if self.lane0.signed { 1 } else { 0 }
        } else if offset == regs::CTRL_LANE1_SIGNED {
            if self.lane1.signed { 1 } else { 0 }
        } else if offset == regs::ADD_RAW {
            if self.add_raw { 1 } else { 0 }
        } else if offset == regs::BASE0_AND1 {
            self.lane0.base | (self.lane1.base << 16u32)
        } else {
            0
        }
    }

    /// Reads of the result registers latch both results; popping a lane also
    /// copies its accumulator.
    pub open spec fn after_read(self, offset: u32) -> InterpState {
        if offset == regs::POP_LANE0 {
            InterpState { accum0: self.lane0.accum, ..self.computed() }
        } else if offset == regs::POP_LANE1 {
            InterpState { accum1: self.lane1.accum, ..self.computed() }
        } else if offset == regs::POP_FULL || offset == regs::PEEK_LANE0 || offset == regs::PEEK_LANE1
            || offset == regs::PEEK_FULL {
            self.computed()
        } else {
            self
        }
    }

    pub open spec fn after_write(self, offset: u32, value: u32) -> InterpState {
        if offset == regs::ACCUM0 || offset == regs::POP_LANE0 {
            InterpState { lane0: InterpLane { accum: value, ..self.lane0 }, ..self }
        } else if offset == regs::ACCUM1 || offset == regs::POP_LANE1 {
            InterpState { lane1: InterpLane { accum: value, ..self.lane1 }, ..self }
        } else if offset == regs::BASE0 {
            InterpState { lane0: InterpLane { base: value, ..self.lane0 }, ..self }
        } else if offset == regs::BASE1 {
            InterpState { lane1: InterpLane { base: value, ..self.lane1 }, ..self }
        } else if offset == regs::BASE2 {
            InterpState { base2: value, ..self }
        } else if offset == regs::POP_FULL {
            InterpState {
                lane0: InterpLane { accum: value & 0xFFFF, ..self.lane0 },
                lane1: InterpLane { accum: (value >> 16u32) & 0xFFFF, ..self.lane1 },
                ..self
            }
        } else if offset == regs::CTRL_LANE0 {
            InterpState { lane0: self.lane0.with_ctrl(value), ..self }
        } else if offset == regs::CTRL_LANE1 {
            InterpState { lane1: self.lane1.with_ctrl(value), ..self }
        } else if offset == regs::CTRL_LANE0_SIGNED {
            InterpState { lane0: InterpLane { signed: value != 0, ..self.lane0 }, ..self }
        } else if offset == regs::CTRL_LANE1_SIGNED {
            InterpState { lane1: InterpLane { signed: value != 0, ..self.lane1 }, ..self }
        } else if offset == regs::ADD_RAW {
            InterpState { add_raw: value != 0, ..self }
        } else if offset == regs::BASE0_AND1 {
            InterpState {
                lane0: InterpLane { base: value & 0xFFFF, ..self.lane0 },
                lane1: InterpLane { base: (value >> 16u32) & 0xFFFF, ..self.lane1 },
                ..self
            }
        } else {
            self
        }
    }
}

/// With the power-on full-width mask and no shift, a lane adds its base to its
/// accumulator (wrapping).
pub proof fn lemma_default_lane_adds(lane: InterpLane)
    requires
        lane.shift == 0,
        lane.mask_lsb == 0,
        lane.mask_msb == 31,
        !lane.cross_input,
        !lane.add_raw,
    ensures
        lane.result(0) == vstd::wrapping::u32_specs::wrapping_add(lane.accum, lane.base),
{
    let a = lane.accum;
    crate::bits::lemma_word_facts(a, 0);
}

impl Interp {
    /// Create interpolator 0 or 1 (any id other than 0 selects 1's address).
    pub fn new(id: u8) -> (r: Self)
        ensures
            r@ == InterpState::initial(id),
    {
        Interp {
            id: id,
            base: if id == 0 { INTERP0_BASE } else { INTERP1_BASE },
            lane0: InterpLane::new(),
            lane1: InterpLane::new(),
            base2: 0,
            accum0: 0,
            accum1: 0,
            result0: 0,
            result1: 0,
            result_full: 0,
            add_raw: false,
        }
    }

    /// Device identifier.
    pub fn id(&self) -> (r: DeviceId)
        ensures
            r == DeviceId::INTERP,
    {
        DeviceId::INTERP
    }

    /// Base address.
    pub fn base(&self) -> (r: u32)
        ensures
            r == self.base,
    {
        self.base
    }

    /// Latch both lane results.
    fn compute_results(&mut self)
        ensures
            final(self)@ == old(self)@.computed(),
    {
        self.result0 = self.lane0.compute(self.lane1.base);
        let cross_input = if self.lane1.cross_input {
            self.result0
        } else {
            self.lane1.base
        };
        self.result1 = self.lane1.compute(cross_input);
        self.result_full = (self.result0 as u64) | ((self.result1 as u64) << 32u64);
    }

    /// Lane 0 result; its accumulator is copied to the latch.
    fn pop_lane0(&mut self) -> (r: u32)
        ensures
            r == old(self)@.lane0_result(),
            final(self)@ == old(self)@.after_read(regs::POP_LANE0),
    {
        self.compute_results();
        let result = self.result0;
        self.accum0 = self.lane0.accum;
        result
    }

    /// Lane 1 result; its accumulator is copied to the latch.
    fn pop_lane1(&mut self) -> (r: u32)
        ensures
            r == old(self)@.lane1_result(),
            final(self)@ == old(self)@.after_read(regs::POP_LANE1),
    {
        self.compute_results();
        let result = self.result1;
        self.accum1 = self.lane1.accum;
        result
    }

    /// Both results, lane 0 in the low word.
    fn pop_full(&mut self) -> (r: u64)
        ensures
            r == old(self)@.computed().result_full,
            final(self)@ == old(self)@.computed(),
    {
        self.compute_results();
        self.result_full
    }

    fn peek_lane0(&mut self) -> (r: u32)
        ensures
            r == old(self)@.lane0_result(),
            final(self)@ == old(self)@.computed(),
    {
        self.compute_results();
        self.result0
    }

    fn peek_lane1(&mut self) -> (r: u32)
        ensures
            r == old(self)@.lane1_result(),
            final(self)@ == old(self)@.computed(),
    {
        self.compute_results();
        self.result1
    }

    fn peek_full(&mut self) -> (r: u64)
        ensures
            r == old(self)@.computed().result_full,
            final(self)@ == old(self)@.computed(),
    {
        self.compute_results();
        self.result_full
    }

    /// Linear interpolation `a + (b - a) * weight / 256`, the division
    /// truncating toward zero, truncated to 32 bits.
    fn blend(&mut self, a: u32, b: u32, weight: u32) -> (r: u32)
        requires
            -0x8000_0000_0000_0000 <= (b - a) * weight <= 0x7FFF_FFFF_FFFF_FFFF,
        ensures
            r == (a + trunc_div((b - a) * weight, 256)) as u32,
            final(self)@ == old(self)@,
    {
        let diff = b as i64 - a as i64;
        let prod = diff * (weight as i64);
        let result = (a as i64 + prod / 256) as u32;
        result
    }

    /// Register read; result registers latch both lane results.
    pub fn read(&mut self, addr: u32) -> (r: u32)
        requires
            addr >= old(self).base,
        ensures
            r == old(self)@.read_value((addr - old(self).base) as u32),
            final(self)@ == old(self)@.after_read((addr - old(self).base) as u32),
    {
        let offset = addr - self.base;
        if offset == regs::ACCUM0 {
            self.lane0.accum
        } else if offset == regs::ACCUM1 {
            self.lane1.accum
        } else if offset == regs::BASE0 {
            self.lane0.base
        } else if offset == regs::BASE1 {
            self.lane1.base
        } else if offset == regs::BASE2 {
            self.base2
        } else if offset == regs::POP_LANE0 {
            self.pop_lane0()
        } else if offset == regs::POP_LANE1 {
            self.pop_lane1()
        } else if offset == regs::POP_FULL {
            let full = self.pop_full();
            proof {
                crate::bits::lemma_low_word(self.result0, self.result1);
            }
            full as u32
        } else if offset == regs::PEEK_LANE0 {
            self.peek_lane0()
        } else if offset == regs::PEEK_LANE1 {
            self.peek_lane1()
        } else if offset == regs::PEEK_FULL {
            let full = self.peek_full();
            proof {
                crate::bits::lemma_low_word(self.result0, self.result1);
            }
            full as u32
        } else if offset == regs::CTRL_LANE0 {
            self.lane0.get_ctrl()
        } else if offset == regs::CTRL_LANE1 {
            self.lane1.get_ctrl()
        } else if offset == regs::CTRL_LANE0_SIGNED {
            if self.lane0.signed { 1 } else { 0 }
        } else if offset == regs::CTRL_LANE1_SIGNED {
            if self.lane1.signed { 1 } else { 0 }
        } else if offset == regs::ADD_RAW {
            if self.add_raw { 1 } else { 0 }
        } else if offset == regs::BASE0_AND1 {
            self.lane0.base | (self.lane1.base << 16u32)
        } else {
            0
        }
    }

    /// Register write.
    pub fn write(&mut self, addr: u32, value: u32)
        requires
            addr >= old(self).base,
        ensures
            final(self)@ == old(self)@.after_write((addr - old(self).base) as u32, value),
    {
        let offset = addr - self.base;
        let l0 = self.lane0;
        let l1 = self.lane1;
        if offset == regs::ACCUM0 || offset == regs::POP_LANE0 {
            self.lane0 = InterpLane { accum: value, ..l0 };
        } else if offset == regs::ACCUM1 || offset == regs::POP_LANE1 {
            self.lane1 = InterpLane { accum: value, ..l1 };
        } else if offset == regs::BASE0 {
            self.lane0 = InterpLane { base: value, ..l0 };
        } else if offset == regs::BASE1 {
            self.lane1 = InterpLane { base: value, ..l1 };
        } else if offset == regs::BASE2 {
            self.base2 = value;
        } else if offset == regs::POP_FULL {
            self.lane0 = InterpLane { accum: value & 0xFFFF, ..l0 };
            self.lane1 = InterpLane { accum: (value >> 16u32) & 0xFFFF, ..l1 };
        } else if offset == regs::CTRL_LANE0 {
            self.lane0.update_ctrl(value);
        } else if offset == regs::CTRL_LANE1 {
            self.lane1.update_ctrl(value);
        } else if offset == regs::CTRL_LANE0_SIGNED {
            self.lane0 = InterpLane { signed: value != 0, ..l0 };
        } else if offset == regs::CTRL_LANE1_SIGNED {
            self.lane1 = InterpLane { signed: value != 0, ..l1 };
        } else if offset == regs::ADD_RAW {
            self.add_raw = value != 0;
        } else if offset == regs::BASE0_AND1 {
            self.lane0 = InterpLane { base: value & 0xFFFF, ..l0 };
            self.lane1 = InterpLane { base: (value >> 16u32) & 0xFFFF, ..l1 };
        }
    }

    /// Return to the power-on state, keeping the id and base address.
    pub fn reset(&mut self)
        ensures
            final(self)@ == (InterpState { base: old(self).base, ..InterpState::initial(old(self).id) }),
    {
        let id = self.id;
        let base = self.base;
        *self = Interp::new(id);
        self.base = base;
    }
}

impl Default for Interp {
    fn default() -> (r: Self)
        ensures
            r@ == InterpState::initial(0),
    {
        Interp::new(0)
    }
}

} // verus!
