//! Pulse-width modulation: eight slices, each a counter with a top value and
//! two compare channels.
use vstd::prelude::*;

use crate::device::DeviceId;

pub mod csr;
pub mod regs;

verus! {

/// PWM base address.
pub const PWM_BASE: u32 = 0x4005_0000;

/// Number of PWM slices.
pub const NUM_SLICES: usize = 8;

/// Bytes per PWM slice (5 registers of 4 bytes).
pub const SLICE_SIZE: u32 = 20;

/// PWM slice (two channels, A and B).
#[derive(Debug, Clone, Copy)]
pub struct PwmSlice {
    /// Control and status register.
    pub csr: u32,
    /// Clock divider (8.4 fixed point).
    pub div: u32,
    /// Counter value.
    pub ctr: u16,
    /// Compare values (A and B).
    pub cc: (u16, u16),
    /// Top value.
    pub top: u16,
}

impl Default for PwmSlice {
    fn default() -> (r: Self)
        ensures
            r == (PwmSlice { csr: 0, div: 0, ctr: 0, cc: (0, 0), top: 0 }),
    {
        PwmSlice { csr: 0, div: 0, ctr: 0, cc: (0, 0), top: 0 }
    }
}

/// PWM device.
#[derive(Debug)]
pub struct Pwm {
    /// PWM slices.
    pub slices: [PwmSlice; 8],
    /// Global enable mask.
    pub en: u32,
    /// Interrupt status.
    pub intr: u32,
    /// Interrupt enable.
    pub inte: u32,
    /// Interrupt force.
    pub intf: u32,
}

/// Abstract state of the PWM block.
#[verifier::ext_equal]
pub ghost struct PwmState {
    pub slices: Seq<PwmSlice>,
    pub en: u32,
    pub intr: u32,
    pub inte: u32,
    pub intf: u32,
}

impl View for Pwm {
    type V = PwmState;

    open spec fn view(&self) -> PwmState {
        PwmState {
            slices: self.slices@,
            en: self.en,
            intr: self.intr,
            inte: self.inte,
            intf: self.intf,
        }
    }
}

/// Slice `i`'s bit in a slice mask.
pub open spec fn slice_bit(mask: u32, i: int) -> bool {
    0 <= i < NUM_SLICES && mask & (1u32 << i as u32) != 0
}

/// A slice with its CSR enable bit set or cleared.
pub open spec fn with_csr_en(s: PwmSlice, on: bool) -> PwmSlice {
    PwmSlice { csr: if on { s.csr | csr::EN } else { s.csr & !csr::EN }, ..s }
}

/// Compare value of a channel (A for even channels, B for odd).
pub open spec fn duty_of(s: PwmSlice, channel: int) -> u16 {
    if channel % 2 == 1 { s.cc.1 } else { s.cc.0 }
}

/// One clock of slice `i`: an enabled counter wraps to zero at its top value
/// and raises the slice's interrupt, otherwise it counts up.
pub open spec fn tick_slice(s: PwmState, i: int) -> PwmState {
    let sl = s.slices[i];
    if !slice_bit(s.en, i) {
        s
    } else if sl.ctr >= sl.top {
        PwmState {
            slices: s.slices.update(i, PwmSlice { ctr: 0, ..sl }),
            intr: s.intr | (1u32 << i as u32),
            ..s
        }
    } else {
        PwmState { slices: s.slices.update(i, PwmSlice { ctr: (sl.ctr + 1) as u16, ..sl }), ..s }
    }
}

/// The first `n` slices clocked in order.
pub open spec fn tick_upto(s: PwmState, n: int) -> PwmState
    decreases n,
{
    if n <= 0 {
        s
    } else {
        tick_slice(tick_upto(s, n - 1), n - 1)
    }
}

impl PwmState {
    pub open spec fn initial() -> PwmState {
        PwmState {
            slices: Seq::new(8, |i: int| PwmSlice { csr: 0, div: 0, ctr: 0, cc: (0, 0), top: 0xFFFF }),
            en: 0,
            intr: 0,
            inte: 0,
            intf: 0,
        }
    }

    pub open spec fn wf(self) -> bool {
        self.slices.len() == NUM_SLICES
    }

    /// Output level of a channel: high while the counter is below the compare
    /// value, inverted when the channel's invert bit is set; low for a
    /// disabled slice or a channel that does not exist.
    pub open spec fn output(self, channel: int) -> bool {
        let i = channel / 2;
        if !(0 <= i < NUM_SLICES) || !slice_bit(self.en, i) {
            false
        } else {
            let s = self.slices[i];
            let inv = if channel % 2 == 1 { s.csr & csr::B_INV != 0 } else { s.csr & csr::A_INV != 0 };
            let out = s.ctr < duty_of(s, channel);
            if inv { !out } else { out }
        }
    }

    pub open spec fn slice_reg(s: PwmSlice, reg: u32) -> u32 {
        if reg == 0x0 {
            s.csr
        } else if reg == 0x4 {
            s.div
        } else if reg == 0x8 {
            s.ctr as u32
        } else if reg == 0xC {
            ((s.cc.1 as u32) << 16u32) | (s.cc.0 as u32)
        } else if reg == 0x10 {
            s.top as u32
        } else {
            0
        }
    }

    pub open spec fn read_value(self, offset: u32) -> u32 {
        if offset < regs::EN {
            Self::slice_reg(self.slices[(offset / SLICE_SIZE) as int], offset % SLICE_SIZE)
        } else if offset == regs::EN {
            self.en
        } else if offset == regs::INTR {
            self.intr
        } else if offset == regs::INTE {
            self.inte
        } else if offset == regs::INTF {
            self.intf
        } else if offset == regs::INTS {
            (self.intr & self.inte) | self.intf
        } else {
            0
        }
    }

    pub open spec fn after_write(self, offset: u32, value: u32) -> PwmState {
        if offset < regs::EN {
            let i = (offset / SLICE_SIZE) as int;
            let reg = offset % SLICE_SIZE;
            let s = self.slices[i];
            if reg == 0x0 {
                PwmState {
                    slices: self.slices.update(i, PwmSlice { csr: value & 0x3FF, ..s }),
                    en: if value & csr::EN != 0 {
                        self.en | (1u32 << i as u32)
                    } else {
                        self.en & !(1u32 << i as u32)
                    },
                    ..self
                }
            } else if reg == 0x4 {
                PwmState { slices: self.slices.update(i, PwmSlice { div: value & 0xFFFF, ..s }), ..self }
            } else if reg == 0x8 {
                PwmState {
                    slices: self.slices.update(i, PwmSlice { ctr: (value & 0xFFFF) as u16, ..s }),
                    ..self
                }
            } else if reg == 0xC {
                PwmState {
                    slices: self.slices.update(
                        i,
                        PwmSlice {
                            cc: ((value & 0xFFFF) as u16, ((value >> 16u32) & 0xFFFF) as u16),
                            ..s
                        },
                    ),
                    ..self
                }
            } else if reg == 0x10 {
                PwmState {
                    slices: self.slices.update(i, PwmSlice { top: (value & 0xFFFF) as u16, ..s }),
                    ..self
                }
            } else {
                self
            }
        } else if offset == regs::EN {
            PwmState {
                en: value & 0xFF,
                slices: self.slices.map(|i: int, s: PwmSlice| with_csr_en(s, slice_bit(value, i))),
                ..self
            }
        } else if offset == regs::INTR {
            PwmState { intr: self.intr & !value, ..self }
        } else if offset == regs::INTE {
            PwmState { inte: value & 0xFF, ..self }
        } else if offset == regs::INTF {
            PwmState { intf: value & 0xFF, ..self }
        } else {
            self
        }
    }
}

/// Each channel follows its own compare value: with its slice enabled and
/// the channel not inverted, channel A (even) is high exactly while the
/// counter is below the first compare value and channel B (odd) exactly while
/// it is below the second; setting one channel's compare value to `d` makes
/// that channel high exactly while the counter is below `d` and leaves the
/// other channel of the slice as it was.
pub proof fn lemma_output_follows_own_compare(s: PwmState, i: int, d: u16)
    requires
        s.wf(),
        0 <= i < NUM_SLICES,
        slice_bit(s.en, i),
        s.slices[i].csr & csr::A_INV == 0,
        s.slices[i].csr & csr::B_INV == 0,
    ensures
        s.output(2 * i) == (s.slices[i].ctr < s.slices[i].cc.0),
        s.output(2 * i + 1) == (s.slices[i].ctr < s.slices[i].cc.1),
        ({
            let a = PwmState {
                slices: s.slices.update(i, PwmSlice { cc: (d, s.slices[i].cc.1), ..s.slices[i] }),
                ..s
            };
            &&& a.output(2 * i) == (s.slices[i].ctr < d)
            &&& a.output(2 * i + 1) == s.output(2 * i + 1)
        }),
        ({
            let b = PwmState {
                slices: s.slices.update(i, PwmSlice { cc: (s.slices[i].cc.0, d), ..s.slices[i] }),
                ..s
            };
            &&& b.output(2 * i + 1) == (s.slices[i].ctr < d)
            &&& b.output(2 * i) == s.output(2 * i)
        }),
{
    assert((2 * i) / 2 == i && (2 * i) % 2 == 0);
    assert((2 * i + 1) / 2 == i && (2 * i + 1) % 2 == 1);
}

/// A tick leaves every enabled slice's counter at or below its top value.
pub proof fn lemma_tick_counter_bounded(s: PwmState, n: int, i: int)
    requires
        s.wf(),
        0 <= i < n <= NUM_SLICES,
        slice_bit(s.en, i),
    ensures
        tick_upto(s, n).slices[i].ctr <= tick_upto(s, n).slices[i].top,
        tick_upto(s, n).wf(),
        tick_upto(s, n).en == s.en,
    decreases n,
{
    lemma_tick_keeps_shape(s, n - 1);
    if i < n - 1 {
        lemma_tick_counter_bounded(s, n - 1, i);
    }
}

proof fn lemma_tick_keeps_shape(s: PwmState, n: int)
    requires
        s.wf(),
        0 <= n <= NUM_SLICES,
    ensures
        tick_upto(s, n).wf(),
        tick_upto(s, n).en == s.en,
    decreases n,
{
    if n > 0 {
        lemma_tick_keeps_shape(s, n - 1);
    }
}

impl Pwm {
    /// Create a PWM block: every slice disabled with top value 0xFFFF.
    pub fn new() -> (r: Self)
        ensures
            r@ == PwmState::initial(),
    {
        let mut slices = [PwmSlice { csr: 0, div: 0, ctr: 0, cc: (0, 0), top: 0 }; 8];
        let mut i: usize = 0;
        while i < NUM_SLICES
            invariant
                0 <= i <= NUM_SLICES,
                slices@.len() == 8,
                forall|j: int|
                    0 <= j < 8 ==> slices@[j] == (PwmSlice {
                        csr: 0,
                        div: 0,
                        ctr: 0,
                        cc: (0, 0),
                        top: if j < i { 0xFFFF } else { 0 },
                    }),
            decreases NUM_SLICES - i,
        {
            slices[i] = PwmSlice { top: 0xFFFF, ..slices[i] };
            i = i + 1;
        }
        let p = Pwm { slices, en: 0, intr: 0, inte: 0, intf: 0 };
        assert(p@.slices =~= PwmState::initial().slices);
        p
    }

    /// Device identifier.
    pub fn id(&self) -> (r: DeviceId)
        ensures
            r == DeviceId::PWM,
    {
        DeviceId::PWM
    }

    /// Compare value of a channel; 0 for a channel that does not exist.
    pub fn get_duty(&self, channel: usize) -> (r: u16)
        ensures
            r == (if channel / 2 < NUM_SLICES {
                duty_of(self@.slices[(channel / 2) as int], channel as int)
            } else {
                0
            }),
    {
        let slice = channel / 2;
        let is_b = channel % 2 == 1;
        if slice < NUM_SLICES {
            if is_b {
                self.slices[slice].cc.1
            } else {
                self.slices[slice].cc.0
            }
        } else {
            0
        }
    }

    /// Set the compare value of a channel.
    pub fn set_duty(&mut self, channel: usize, duty: u16)
        ensures
            channel / 2 < NUM_SLICES ==> final(self)@ == (PwmState {
                slices: old(self)@.slices.update(
                    (channel / 2) as int,
                    PwmSlice {
                        cc: if channel % 2 == 1 {
                            (old(self)@.slices[(channel / 2) as int].cc.0, duty)
                        } else {
                            (duty, old(self)@.slices[(channel / 2) as int].cc.1)
                        },
                        ..old(self)@.slices[(channel / 2) as int]
                    },
                ),
                ..old(self)@
            }),
            channel / 2 >= NUM_SLICES ==> final(self)@ == old(self)@,
    {
        let slice = channel / 2;
        let is_b = channel % 2 == 1;
        if slice < NUM_SLICES {
            let s = self.slices[slice];
            if is_b {
                self.slices[slice] = PwmSlice { cc: (s.cc.0, duty), ..s };
            } else {
                self.slices[slice] = PwmSlice { cc: (duty, s.cc.1), ..s };
            }
        }
    }

    /// Check if slice is enabled.
    pub fn is_slice_enabled(&self, slice: usize) -> (r: bool)
        ensures
            r == slice_bit(self.en, slice as int),
    {
        if slice < NUM_SLICES {
            (self.en & (1u32 << slice as u32)) != 0
        } else {
            false
        }
    }

    /// Enable or disable a slice (global mask and CSR enable bit).
    pub fn set_slice_enabled(&mut self, slice: usize, enabled: bool)
        ensures
            slice < NUM_SLICES ==> final(self)@ == (PwmState {
                en: if enabled {
                    old(self).en | (1u32 << slice as u32)
                } else {
                    old(self).en & !(1u32 << slice as u32)
                },
                slices: old(self)@.slices.update(
                    slice as int,
                    with_csr_en(old(self)@.slices[slice as int], enabled),
                ),
                ..old(self)@
            }),
            slice >= NUM_SLICES ==> final(self)@ == old(self)@,
    {
        if slice < NUM_SLICES {
            let s = self.slices[slice];
            if enabled {
                self.en = self.en | (1u32 << slice as u32);
                self.slices[slice] = PwmSlice { csr: s.csr | csr::EN, ..s };
            } else {
                self.en = self.en & !(1u32 << slice as u32);
                self.slices[slice] = PwmSlice { csr: s.csr & !csr::EN, ..s };
            }
        }
    }

    /// Get top value for slice.
    pub fn get_top(&self, slice: usize) -> (r: u16)
        ensures
            r == (if slice < NUM_SLICES { self@.slices[slice as int].top } else { 0 }),
    {
        if slice < NUM_SLICES {
            self.slices[slice].top
        } else {
            0
        }
    }

    /// Set top value for slice.
    pub fn set_top(&mut self, slice: usize, top: u16)
        ensures
            slice < NUM_SLICES ==> final(self)@ == (PwmState {
                slices: old(self)@.slices.update(slice as int, PwmSlice { top: top, ..old(self)@.slices[slice as int] }),
                ..old(self)@
            }),
            slice >= NUM_SLICES ==> final(self)@ == old(self)@,
    {
        if slice < NUM_SLICES {
            let s = self.slices[slice];
            self.slices[slice] = PwmSlice { top: top, ..s };
        }
    }

    /// Get clock divider for slice (8.4 fixed point).
    pub fn get_div(&self, slice: usize) -> (r: u32)
        ensures
            r == (if slice < NUM_SLICES { self@.slices[slice as int].div } else { 0 }),
    {
        if slice < NUM_SLICES {
            self.slices[slice].div
        } else {
            0
        }
    }

    /// Set clock divider for slice (8.4 fixed point).
    pub fn set_div(&mut self, slice: usize, div: u32)
        ensures
            slice < NUM_SLICES ==> final(self)@ == (PwmState {
                slices: old(self)@.slices.update(slice as int, PwmSlice { div: div, ..old(self)@.slices[slice as int] }),
                ..old(self)@
            }),
            slice >= NUM_SLICES ==> final(self)@ == old(self)@,
    {
        if slice < NUM_SLICES {
            let s = self.slices[slice];
            self.slices[slice] = PwmSlice { div: div, ..s };
        }
    }

    /// Get counter value for slice.
    pub fn get_counter(&self, slice: usize) -> (r: u16)
        ensures
            r == (if slice < NUM_SLICES { self@.slices[slice as int].ctr } else { 0 }),
    {
        if slice < NUM_SLICES {
            self.slices[slice].ctr
        } else {
            0
        }
    }

    /// Set counter value for slice.
    pub fn set_counter(&mut self, slice: usize, ctr: u16)
        ensures
            slice < NUM_SLICES ==> final(self)@ == (PwmState {
                slices: old(self)@.slices.update(slice as int, PwmSlice { ctr: ctr, ..old(self)@.slices[slice as int] }),
                ..old(self)@
            }),
            slice >= NUM_SLICES ==> final(self)@ == old(self)@,
    {
        if slice < NUM_SLICES {
            let s = self.slices[slice];
            self.slices[slice] = PwmSlice { ctr: ctr, ..s };
        }
    }

    /// Check if phase correct mode is enabled.
    pub fn is_phase_correct(&self, slice: usize) -> (r: bool)
        ensures
            r == (slice < NUM_SLICES && self@.slices[slice as int].csr & csr::PH_CORRECT != 0),
    {
        if slice < NUM_SLICES {
            (self.slices[slice].csr & csr::PH_CORRECT) != 0
        } else {
            false
        }
    }

    /// Check if channel A output is inverted.
    pub fn is_a_inverted(&self, slice: usize) -> (r: bool)
        ensures
            r == (slice < NUM_SLICES && self@.slices[slice as int].csr & csr::A_INV != 0),
    {
        if slice < NUM_SLICES {
            (self.slices[slice].csr & csr::A_INV) != 0
        } else {
            false
        }
    }

    /// Check if channel B output is inverted.
    pub fn is_b_inverted(&self, slice: usize) -> (r: bool)
        ensures
            r == (slice < NUM_SLICES && self@.slices[slice as int].csr & csr::B_INV != 0),
    {
        if slice < NUM_SLICES {
            (self.slices[slice].csr & csr::B_INV) != 0
        } else {
            false
        }
    }

    /// Advance the counter of every enabled slice.
    pub fn tick(&mut self)
        ensures
            final(self)@ == tick_upto(old(self)@, NUM_SLICES as int),
    {
        let mut i: usize = 0;
        while i < NUM_SLICES
            invariant
                0 <= i <= NUM_SLICES,
                self@ == tick_upto(old(self)@, i as int),
                self.slices@.len() == 8,
                self.en == old(self).en,
                forall|j: int| i <= j < NUM_SLICES ==> self@.slices[j] == old(self)@.slices[j],
            decreases NUM_SLICES - i,
        {
            if self.is_slice_enabled(i) {
                let s = self.slices[i];
                if s.ctr >= s.top {
                    self.slices[i] = PwmSlice { ctr: 0, ..s };
                    self.intr = self.intr | (1u32 << i as u32);
                } else {
                    self.slices[i] = PwmSlice { ctr: s.ctr + 1, ..s };
                }
            }
            proof {
                assert(self@ =~= tick_slice(tick_upto(old(self)@, i as int), i as int));
            }
            i = i + 1;
        }
    }

    /// Check if there's a pending interrupt.
    pub fn has_interrupt(&self) -> (r: bool)
        ensures
            r == ((self.intr & self.inte) != 0 || self.intf != 0),
    {
        (self.intr & self.inte) != 0 || self.intf != 0
    }

    /// Output level of a channel.
    pub fn get_output(&self, channel: usize) -> (r: bool)
        ensures
            r == self@.output(channel as int),
    {
        let slice = channel / 2;
        let is_b = channel % 2 == 1;
        if slice >= NUM_SLICES {
            return false;
        }
        let s = self.slices[slice];
        if !self.is_slice_enabled(slice) {
            return false;
        }
        let duty = if is_b {
            s.cc.1
        } else {
            s.cc.0
        };
        let inverted = if is_b {
            (s.csr & csr::B_INV) != 0
        } else {
            (s.csr & csr::A_INV) != 0
        };
        let output = s.ctr < duty;
        if inverted {
            !output
        } else {
            output
        }
    }

    /// Register read.
    pub fn read(&mut self, addr: u32) -> (r: u32)
        requires
            addr >= PWM_BASE,
        ensures
            r == old(self)@.read_value((addr - PWM_BASE) as u32),
            final(self)@ == old(self)@,
    {
        let offset = addr - PWM_BASE;
        if offset < regs::EN {
            let s = self.slices[(offset / SLICE_SIZE) as usize];
            let reg = offset % SLICE_SIZE;
            if reg == 0x0 {
                s.csr
            } else if reg == 0x4 {
                s.div
            } else if reg == 0x8 {
                s.ctr as u32
            } else if reg == 0xC {
                ((s.cc.1 as u32) << 16) | (s.cc.0 as u32)
            } else if reg == 0x10 {
                s.top as u32
            } else {
                0
            }
        } else if offset == regs::EN {
            self.en
        } else if offset == regs::INTR {
            self.intr
        } else if offset == regs::INTE {
            self.inte
        } else if offset == regs::INTF {
            self.intf
        } else if offset == regs::INTS {
            (self.intr & self.inte) | self.intf
        } else {
            0
        }
    }

    /// Register write.
    pub fn write(&mut self, addr: u32, value: u32)
        requires
            addr >= PWM_BASE,
        ensures
            final(self)@ == old(self)@.after_write((addr - PWM_BASE) as u32, value),
    {
        let offset = addr - PWM_BASE;
        if offset < regs::EN {
            let i = (offset / SLICE_SIZE) as usize;
            let reg = offset % SLICE_SIZE;
            let s = self.slices[i];
            if reg == 0x0 {
                self.slices[i] = PwmSlice { csr: value & 0x3FF, ..s };
                if (value & csr::EN) != 0 {
                    self.en = self.en | (1u32 << i as u32);
                } else {
                    self.en = self.en & !(1u32 << i as u32);
                }
            } else if reg == 0x4 {
                self.slices[i] = PwmSlice { div: value & 0xFFFF, ..s };
            } else if reg == 0x8 {
                self.slices[i] = PwmSlice { ctr: (value & 0xFFFF) as u16, ..s };
            } else if reg == 0xC {
                self.slices[i] = PwmSlice {
                    cc: ((value & 0xFFFF) as u16, ((value >> 16) & 0xFFFF) as u16),
                    ..s
                };
            } else if reg == 0x10 {
                self.slices[i] = PwmSlice { top: (value & 0xFFFF) as u16, ..s };
            }
        } else if offset == regs::EN {
            self.en = value & 0xFF;
            let mut i: usize = 0;
            while i < NUM_SLICES
                invariant
                    0 <= i <= NUM_SLICES,
                    self.slices@.len() == 8,
                    self.en == value & 0xFF,
                    self.intr == old(self).intr,
                    self.inte == old(self).inte,
                    self.intf == old(self).intf,
                    forall|j: int|
                        0 <= j < NUM_SLICES ==> self.slices@[j] == (if j < i {
                            with_csr_en(old(self)@.slices[j], slice_bit(value, j))
                        } else {
                            old(self)@.slices[j]
                        }),
                decreases NUM_SLICES - i,
            {
                let s = self.slices[i];
                if (value & (1u32 << i as u32)) != 0 {
                    self.slices[i] = PwmSlice { csr: s.csr | csr::EN, ..s };
                } else {
                    self.slices[i] = PwmSlice { csr: s.csr & !csr::EN, ..s };
                }
                i = i + 1;
            }
            assert(self@.slices =~= old(self)@.after_write(offset, value).slices);
        } else if offset == regs::INTR {
            self.intr = self.intr & !value;
        } else if offset == regs::INTE {
            self.inte = value & 0xFF;
        } else if offset == regs::INTF {
            self.intf = value & 0xFF;
        }
    }

    /// Return to the power-on state.
    pub fn reset(&mut self)
        ensures
            final(self)@ == PwmState::initial(),
    {
        *self = Pwm::new();
    }
}

impl Default for Pwm {
    fn default() -> (r: Self)
        ensures
            r@ == PwmState::initial(),
    {
        Pwm::new()
    }
}

} // verus!
