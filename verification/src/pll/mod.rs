//! Phase-locked loops: divider registers, power and lock state, and the
//! resulting VCO and output frequencies.
use vstd::prelude::*;

use crate::device::DeviceId;

pub mod cs;
pub mod prim;
pub mod pwr;
pub mod regs;

verus! {

/// System PLL base address.
pub const PLL_SYS_BASE: u32 = 0x5002_8000;

/// USB PLL base address.
pub const PLL_USB_BASE: u32 = 0x5002_C000;

/// Reference clock frequency after power-on.
pub const DEFAULT_REF_FREQ: u32 = 12_000_000;

/// PLL type.
#[derive(Debug, Clone, Copy, PartialEq, Eq, Structural)]
pub enum PllType {
    /// System PLL.
    Sys,
    /// USB PLL.
    Usb,
}

impl Default for PllType {
    fn default() -> (r: Self)
        ensures
            r == PllType::Sys,
    {
        PllType::Sys
    }
}

/// PLL configuration.
#[derive(Debug, Clone, Copy)]
pub struct PllConfig {
    /// Reference divider (1-63).
    pub refdiv: u8,
    /// Feedback divider (16-320).
    pub fbdiv: u16,
    /// Post divider 1 (1-7).
    pub postdiv1: u8,
    /// Post divider 2 (1-7).
    pub postdiv2: u8,
    /// Fractional feedback divider (0-255).
    pub fbdiv_frac: u8,
}

impl Default for PllConfig {
    fn default() -> (r: Self)
        ensures
            r == (PllConfig { refdiv: 1, fbdiv: 133, postdiv1: 6, postdiv2: 2, fbdiv_frac: 0 }),
    {
        PllConfig { refdiv: 1, fbdiv: 133, postdiv1: 6, postdiv2: 2, fbdiv_frac: 0 }
    }
}

/// Default configuration of each PLL.
pub open spec fn default_config(t: PllType) -> PllConfig {
    match t {
        PllType::Sys => PllConfig { refdiv: 1, fbdiv: 133, postdiv1: 6, postdiv2: 2, fbdiv_frac: 0 },
        PllType::Usb => PllConfig { refdiv: 1, fbdiv: 40, postdiv1: 5, postdiv2: 2, fbdiv_frac: 0 },
    }
}

/// Base address of each PLL.
pub open spec fn base_of(t: PllType) -> u32 {
    match t {
        PllType::Sys => PLL_SYS_BASE,
        PllType::Usb => PLL_USB_BASE,
    }
}

/// PLL controller.
#[derive(Debug)]
pub struct Pll {
    /// PLL type.
    pub pll_type: PllType,
    /// Base address.
    pub base: u32,
    /// CS register.
    pub cs: u32,
    /// PWR register.
    pub pwr: u32,
    /// FBDIV_INT register.
    pub fbdiv_int: u32,
    /// FBDIV_FRAC register.
    pub fbdiv_frac: u32,
    /// PRIM register.
    pub prim: u32,
    /// PRIM2 register.
    pub prim2: u32,
    /// Reference clock frequency.
    pub ref_freq: u32,
    /// Output frequency.
    pub output_freq: u32,
    /// VCO frequency.
    pub vco_freq: u32,
    /// Lock status.
    pub locked: bool,
    /// Configuration.
    pub config: PllConfig,
}

/// Abstract state of a PLL.
pub ghost struct PllState {
    pub pll_type: PllType,
    pub base: u32,
    pub cs: u32,
    pub pwr: u32,
    pub fbdiv_int: u32,
    pub fbdiv_frac: u32,
    pub prim: u32,
    pub prim2: u32,
    pub ref_freq: u32,
    pub output_freq: u32,
    pub vco_freq: u32,
    pub locked: bool,
    pub config: PllConfig,
}

impl View for Pll {
    type V = PllState;

    open spec fn view(&self) -> PllState {
        PllState {
            pll_type: self.pll_type,
            base: self.base,
            cs: self.cs,
            pwr: self.pwr,
            fbdiv_int: self.fbdiv_int,
            fbdiv_frac: self.fbdiv_frac,
            prim: self.prim,
            prim2: self.prim2,
            ref_freq: self.ref_freq,
            output_freq: self.output_freq,
            vco_freq: self.vco_freq,
            locked: self.locked,
            config: self.config,
        }
    }
}

impl PllState {
    pub open spec fn initial(t: PllType) -> PllState {
        let c = default_config(t);
        PllState {
            pll_type: t,
            base: base_of(t),
            cs: 1u32 << cs::REFDIV_SHIFT,
            pwr: pwr::PD,
            fbdiv_int: c.fbdiv as u32,
            fbdiv_frac: c.fbdiv_frac as u32,
            prim: ((c.postdiv1 as u32) << prim::POSTDIV1_SHIFT) | ((c.postdiv2 as u32)
                << prim::POSTDIV2_SHIFT),
            prim2: 0,
            ref_freq: DEFAULT_REF_FREQ,
            output_freq: 0,
            vco_freq: 0,
            locked: false,
            config: c,
        }
    }

    pub open spec fn powered(self) -> bool {
        self.pwr & pwr::PD == 0
    }

    pub open spec fn bypass(self) -> bool {
        self.cs & cs::BYPASS != 0
    }

    pub open spec fn refdiv(self) -> u8 {
        ((self.cs >> cs::REFDIV_SHIFT) & cs::REFDIV_MASK) as u8
    }

    pub open spec fn fbdiv(self) -> u16 {
        self.fbdiv_int as u16
    }

    pub open spec fn postdiv1(self) -> u8 {
        ((self.prim >> prim::POSTDIV1_SHIFT) & prim::POSTDIV1_MASK) as u8
    }

    pub open spec fn postdiv2(self) -> u8 {
        ((self.prim >> 4u32) & 0x7) as u8
    }

    /// A divider that stops the clock is zero.
    pub open spec fn stopped(self) -> bool {
        self.refdiv() == 0 || self.postdiv1() == 0 || self.postdiv2() == 0
    }

    /// VCO frequency: reference divided by REFDIV, times FBDIV.
    pub open spec fn vco(self) -> int {
        (self.ref_freq / (self.refdiv() as u32)) * self.fbdiv()
    }

    /// The frequency computation stays within 32 bits.
    pub open spec fn calc_ok(self) -> bool {
        self.stopped() || self.vco() <= u32::MAX
    }

    /// Frequencies recomputed from the dividers: VCO = ref / REFDIV * FBDIV,
    /// output = VCO / (POSTDIV1 * POSTDIV2); both zero when a divider is zero.
    pub open spec fn with_frequencies(self) -> PllState {
        if self.stopped() {
            PllState { output_freq: 0, vco_freq: 0, ..self }
        } else {
            PllState {
                vco_freq: self.vco() as u32,
                output_freq: ((self.vco() as u32) as int / (self.postdiv1() * self.postdiv2())) as u32,
                ..self
            }
        }
    }

    /// Lock follows power and bypass: a powered, unbypassed PLL locks and
    /// recomputes its frequencies; otherwise it is unlocked.
    pub open spec fn lock_updated(self) -> PllState {
        if self.powered() && !self.bypass() {
            PllState { locked: true, ..self }.with_frequencies()
        } else {
            PllState { locked: false, ..self }
        }
    }

    pub open spec fn read_value(self, offset: u32) -> u32 {
        if offset == regs::CS {
            if self.locked { self.cs | cs::LOCK } else { self.cs & !cs::LOCK }
        } else if offset == regs::PWR {
            self.pwr
        } else if offset == regs::FBDIV_INT {
            self.fbdiv_int
        } else if offset == regs::FBDIV_FRAC {
            self.fbdiv_frac
        } else if offset == regs::PRIM {
            self.prim
        } else if offset == regs::PRIM2 {
            self.prim2
        } else {
            0
        }
    }

    /// Register contents after a write, before any recomputation.
    pub open spec fn written(self, offset: u32, value: u32) -> PllState {
        if offset == regs::CS {
            PllState {
                cs: value & !cs::LOCK,
                config: PllConfig {
                    refdiv: ((value >> cs::REFDIV_SHIFT) & cs::REFDIV_MASK) as u8,
                    ..self.config
                },
                ..self
            }
        } else if offset == regs::PWR {
            PllState { pwr: value, ..self }
        } else if offset == regs::FBDIV_INT {
            PllState {
                fbdiv_int: value & 0x1FF,
                config: PllConfig { fbdiv: (value & 0x1FF) as u16, ..self.config },
                ..self
            }
        } else if offset == regs::FBDIV_FRAC {
            PllState {
                fbdiv_frac: value & 0xFF,
                config: PllConfig { fbdiv_frac: (value & 0xFF) as u8, ..self.config },
                ..self
            }
        } else if offset == regs::PRIM {
            PllState {
                prim: value,
                config: PllConfig {
                    postdiv1: ((value >> prim::POSTDIV1_SHIFT) & prim::POSTDIV1_MASK) as u8,
                    postdiv2: ((value >> prim::POSTDIV2_SHIFT) & prim::POSTDIV2_MASK) as u8,
                    ..self.config
                },
                ..self
            }
        } else if offset == regs::PRIM2 {
            PllState { prim2: value, ..self }
        } else {
            self
        }
    }

    /// A write to PWR updates the lock; writes to FBDIV_INT and PRIM
    /// recompute the frequencies.
    pub open spec fn after_write(self, offset: u32, value: u32) -> PllState {
        let t = self.written(offset, value);
        if offset == regs::PWR {
            t.lock_updated()
        } else if offset == regs::FBDIV_INT || offset == regs::PRIM {
            t.with_frequencies()
        } else {
            t
        }
    }

    /// The write's recomputation, if any, stays within 32 bits.
    pub open spec fn write_ok(self, offset: u32, value: u32) -> bool {
        let t = self.written(offset, value);
        (offset == regs::PWR && t.powered() && !t.bypass()) || offset == regs::FBDIV_INT || offset
            == regs::PRIM ==> t.calc_ok()
    }

    pub open spec fn after_tick(self) -> PllState {
        if self.powered() && !self.bypass() && !self.locked {
            self.lock_updated()
        } else {
            self
        }
    }
}

/// A powered, unbypassed PLL is locked after one tick, and the CS register
/// then reports LOCK.
pub proof fn lemma_tick_locks(s: PllState)
    requires
        s.powered(),
        !s.bypass(),
    ensures
        s.after_tick().locked,
        s.after_tick().read_value(regs::CS) & cs::LOCK == cs::LOCK,
{
    crate::bits::lemma_word_facts(s.after_tick().cs, cs::LOCK);
}

impl Pll {
    /// Create a PLL controller, powered down with its default dividers.
    pub fn new(pll_type: PllType) -> (r: Self)
        ensures
            r@ == PllState::initial(pll_type),
    {
        let base = match pll_type {
            PllType::Sys => PLL_SYS_BASE,
            PllType::Usb => PLL_USB_BASE,
        };
        let config = match pll_type {
            PllType::Sys => PllConfig { refdiv: 1, fbdiv: 133, postdiv1: 6, postdiv2: 2, fbdiv_frac: 0 },
            PllType::Usb => PllConfig { refdiv: 1, fbdiv: 40, postdiv1: 5, postdiv2: 2, fbdiv_frac: 0 },
        };
        Pll {
            pll_type,
            base,
            cs: 1u32 << cs::REFDIV_SHIFT,
            pwr: pwr::PD,
            fbdiv_int: config.fbdiv as u32,
            fbdiv_frac: config.fbdiv_frac as u32,
            prim: ((config.postdiv1 as u32) << prim::POSTDIV1_SHIFT) | ((config.postdiv2 as u32)
                << prim::POSTDIV2_SHIFT),
            prim2: 0,
            ref_freq: DEFAULT_REF_FREQ,
            output_freq: 0,
            vco_freq: 0,
            locked: false,
            config,
        }
    }

    /// Device identifier.
    pub fn id(&self) -> (r: DeviceId)
        ensures
            r == DeviceId::PLL,
    {
        DeviceId::PLL
    }

    /// Get base address.
    pub fn base(&self) -> (r: u32)
        ensures
            r == self.base,
    {
        self.base
    }

    /// Check if PLL is powered (PD bit clear).
    pub fn is_powered(&self) -> (r: bool)
        ensures
            r == self@.powered(),
    {
        (self.pwr & pwr::PD) == 0
    }

    /// Check if PLL is locked.
    pub fn is_locked(&self) -> (r: bool)
        ensures
            r == self.locked,
    {
        self.locked
    }

    /// Check if bypass is enabled.
    pub fn is_bypass(&self) -> (r: bool)
        ensures
            r == self@.bypass(),
    {
        (self.cs & cs::BYPASS) != 0
    }

    /// Get reference divider.
    pub fn get_refdiv(&self) -> (r: u8)
        ensures
            r == self@.refdiv(),
    {
        ((self.cs >> cs::REFDIV_SHIFT) & cs::REFDIV_MASK) as u8
    }

    /// Get feedback divider.
    pub fn get_fbdiv(&self) -> (r: u16)
        ensures
            r == self@.fbdiv(),
    {
        self.fbdiv_int as u16
    }

    /// Get post divider 1.
    pub fn get_postdiv1(&self) -> (r: u8)
        ensures
            r == self@.postdiv1(),
    {
        ((self.prim >> prim::POSTDIV1_SHIFT) & prim::POSTDIV1_MASK) as u8
    }

    /// Get post divider 2.
    pub fn get_postdiv2(&self) -> (r: u8)
        ensures
            r == self@.postdiv2(),
    {
        ((self.prim >> prim::POSTDIV2_SHIFT) & 0x7) as u8
    }

    /// Recompute the VCO and output frequencies from the dividers.
    pub fn calculate_frequency(&mut self)
        requires
            old(self)@.calc_ok(),
        ensures
            final(self)@ == old(self)@.with_frequencies(),
    {
        let refdiv = self.get_refdiv() as u32;
        let fbdiv = self.get_fbdiv() as u32;
        let postdiv1 = self.get_postdiv1() as u32;
        let postdiv2 = self.get_postdiv2() as u32;
        if refdiv == 0 || postdiv1 == 0 || postdiv2 == 0 {
            self.output_freq = 0;
            self.vco_freq = 0;
            return;
        }
        assert(postdiv1 <= 255 && postdiv2 <= 255);
        assert(0 < postdiv1 * postdiv2 <= 255 * 255) by (nonlinear_arith)
            requires 0 < postdiv1 <= 255, 0 < postdiv2 <= 255;
        self.vco_freq = (self.ref_freq / refdiv) * fbdiv;
        self.output_freq = self.vco_freq / (postdiv1 * postdiv2);
    }

    /// Get output frequency.
    pub fn get_output_freq(&self) -> (r: u32)
        ensures
            r == self.output_freq,
    {
        self.output_freq
    }

    /// Get VCO frequency.
    pub fn get_vco_freq(&self) -> (r: u32)
        ensures
            r == self.vco_freq,
    {
        self.vco_freq
    }

    /// Set the reference clock frequency and recompute.
    pub fn set_ref_freq(&mut self, freq: u32)
        requires
            (PllState { ref_freq: freq, ..old(self)@ }).calc_ok(),
        ensures
            final(self)@ == (PllState { ref_freq: freq, ..old(self)@ }).with_frequencies(),
    {
        self.ref_freq = freq;
        self.calculate_frequency();
    }

    /// Lock when powered and not bypassed, else unlock.
    fn update_lock(&mut self)
        requires
            old(self)@.powered() && !old(self)@.bypass() ==> old(self)@.calc_ok(),
        ensures
            final(self)@ == old(self)@.lock_updated(),
    {
        if self.is_powered() && !self.is_bypass() {
            self.locked = true;
            self.calculate_frequency();
        } else {
            self.locked = false;
        }
    }

    /// Acquire lock when powered, not bypassed and not yet locked.
    pub fn tick(&mut self)
        requires
            old(self)@.powered() && !old(self)@.bypass() ==> old(self)@.calc_ok(),
        ensures
            final(self)@ == old(self)@.after_tick(),
    {
        if self.is_powered() && !self.is_bypass() && !self.locked {
            self.update_lock();
        }
    }

    /// Register read; CS reports the lock state in its LOCK bit.
    pub fn read(&mut self, addr: u32) -> (r: u32)
        requires
            addr >= old(self).base,
        ensures
            r == old(self)@.read_value((addr - old(self).base) as u32),
            final(self)@ == old(self)@,
    {
        let offset = addr - self.base;
        if offset == regs::CS {
            if self.locked {
                self.cs | cs::LOCK
            } else {
                self.cs & !cs::LOCK
            }
        } else if offset == regs::PWR {
            self.pwr
        } else if offset == regs::FBDIV_INT {
            self.fbdiv_int
        } else if offset == regs::FBDIV_FRAC {
            self.fbdiv_frac
        } else if offset == regs::PRIM {
            self.prim
        } else if offset == regs::PRIM2 {
            self.prim2
        } else {
            0
        }
    }

    /// Register write.
    pub fn write(&mut self, addr: u32, value: u32)
        requires
            addr >= old(self).base,
            old(self)@.write_ok((addr - old(self).base) as u32, value),
        ensures
            final(self)@ == old(self)@.after_write((addr - old(self).base) as u32, value),
    {
        let offset = addr - self.base;
        if offset == regs::CS {
            self.cs = value & !cs::LOCK;
            self.config.refdiv = ((value >> cs::REFDIV_SHIFT) & cs::REFDIV_MASK) as u8;
        } else if offset == regs::PWR {
            self.pwr = value;
            self.update_lock();
        } else if offset == regs::FBDIV_INT {
            self.fbdiv_int = value & 0x1FF;
            self.config.fbdiv = self.fbdiv_int as u16;
            self.calculate_frequency();
        } else if offset == regs::FBDIV_FRAC {
            self.fbdiv_frac = value & 0xFF;
            self.config.fbdiv_frac = self.fbdiv_frac as u8;
        } else if offset == regs::PRIM {
            self.prim = value;
            self.config.postdiv1 = ((value >> prim::POSTDIV1_SHIFT) & prim::POSTDIV1_MASK) as u8;
            self.config.postdiv2 = ((value >> prim::POSTDIV2_SHIFT) & prim::POSTDIV2_MASK) as u8;
            self.calculate_frequency();
        } else if offset == regs::PRIM2 {
            self.prim2 = value;
        }
    }

    /// Return to the power-on state of the same PLL.
    pub fn reset(&mut self)
        ensures
            final(self)@ == PllState::initial(old(self).pll_type),
    {
        let t = self.pll_type;
        *self = Pll::new(t);
    }
}

impl Default for Pll {
    fn default() -> (r: Self)
        ensures
            r@ == PllState::initial(PllType::Sys),
    {
        Pll::new(PllType::Sys)
    }
}

} // verus!
