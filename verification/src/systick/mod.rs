//! SysTick timers of both cores: a 24-bit down counter with reload, count
//! flag and interrupt.
use vstd::prelude::*;

use crate::device::DeviceId;

pub mod calib;
pub mod csr;
pub mod regs;

verus! {

/// SysTick base address of core 0.
pub const SYSTICK_BASE_CORE0: u32 = 0xE000_E010;

/// SysTick base address of core 1.
pub const SYSTICK_BASE_CORE1: u32 = 0xE002_E010;

/// Calibration value: ten milliseconds of the 12 MHz reference.
pub const TEN_MS_AT_12MHZ: u32 = 120_000;

/// SysTick timer of one core.
#[derive(Debug, Clone, Copy)]
pub struct SystickCore {
    /// Control and status register.
    pub csr: u32,
    /// Reload value register.
    pub rvr: u32,
    /// Current value register.
    pub cvr: u32,
    /// Calibration value register.
    pub calib: u32,
    /// Counter value (unused by the model).
    pub counter: u32,
    /// Interrupt pending.
    pub interrupt_pending: bool,
}

/// A core's timer at power-on (with the given calibration value).
pub open spec fn core_initial(calib: u32) -> SystickCore {
    SystickCore { csr: 0, rvr: 0, cvr: 0, calib: calib, counter: 0, interrupt_pending: false }
}

impl SystickCore {
    pub open spec fn enabled(self) -> bool {
        self.csr & csr::ENABLE != 0
    }

    pub open spec fn interrupt_enabled(self) -> bool {
        self.csr & csr::TICKINT != 0
    }

    /// One clock: an enabled counter counts down; at zero it reloads, sets
    /// COUNTFLAG and raises the interrupt when enabled.
    pub open spec fn ticked(self) -> SystickCore {
        if !self.enabled() {
            self
        } else if self.cvr > 0 {
            SystickCore { cvr: (self.cvr - 1) as u32, ..self }
        } else {
            SystickCore {
                cvr: self.rvr & 0x00FF_FFFF,
                csr: self.csr | csr::COUNTFLAG,
                interrupt_pending: if self.interrupt_enabled() { true } else { self.interrupt_pending },
                ..self
            }
        }
    }

    /// The tick reloads the counter.
    pub open spec fn wraps(self) -> bool {
        self.enabled() && self.cvr == 0
    }

    pub open spec fn csr_written(self, value: u32) -> SystickCore {
        SystickCore {
            csr: (self.csr & csr::COUNTFLAG) | (value & 0x0001_0007),
            cvr: if value & csr::ENABLE == 0 { 0 } else { self.cvr },
            ..self
        }
    }

    pub open spec fn read_value(self, offset: u32) -> u32 {
        if offset == regs::CSR {
            self.csr
        } else if offset == regs::RVR {
            self.rvr
        } else if offset == regs::CVR {
            self.cvr
        } else if offset == regs::CALIB {
            self.calib
        } else {
            0
        }
    }

    /// Reading CSR clears COUNTFLAG.
    pub open spec fn after_read(self, offset: u32) -> SystickCore {
        if offset == regs::CSR {
            SystickCore { csr: self.csr & !csr::COUNTFLAG, ..self }
        } else {
            self
        }
    }

    pub open spec fn after_write(self, offset: u32, value: u32) -> SystickCore {
        if offset == regs::CSR {
            self.csr_written(value)
        } else if offset == regs::RVR {
            SystickCore { rvr: value & 0x00FF_FFFF, ..self }
        } else if offset == regs::CVR {
            SystickCore { cvr: 0, csr: self.csr & !csr::COUNTFLAG, ..self }
        } else {
            self
        }
    }

    /// Create a core's timer: disabled, zero reload and count.
    pub fn new() -> (r: Self)
        ensures
            r == core_initial(TEN_MS_AT_12MHZ),
    {
        assert(120_000u32 & 0x00FF_FFFFu32 == 120_000u32) by (bit_vector);
        SystickCore {
            csr: 0,
            rvr: 0,
            cvr: 0,
            calib: (12_000_000 / 100) & calib::TENMS_MASK,
            counter: 0,
            interrupt_pending: false,
        }
    }

    /// Check if enabled.
    pub fn is_enabled(&self) -> (r: bool)
        ensures
            r == self.enabled(),
    {
        (self.csr & csr::ENABLE) != 0
    }

    /// Check if the interrupt is enabled.
    pub fn is_interrupt_enabled(&self) -> (r: bool)
        ensures
            r == self.interrupt_enabled(),
    {
        (self.csr & csr::TICKINT) != 0
    }

    /// Clock source (true = CPU clock, false = external).
    pub fn get_clock_source(&self) -> (r: bool)
        ensures
            r == (self.csr & csr::CLKSOURCE != 0),
    {
        (self.csr & csr::CLKSOURCE) != 0
    }

    /// Reload value (24 bits).
    pub fn get_reload(&self) -> (r: u32)
        ensures
            r == self.rvr & 0x00FF_FFFF,
    {
        self.rvr & 0x00FF_FFFF
    }

    /// Current value (24 bits).
    pub fn get_current(&self) -> (r: u32)
        ensures
            r == self.cvr & 0x00FF_FFFF,
    {
        self.cvr & 0x00FF_FFFF
    }

    /// Check if interrupt pending.
    pub fn is_interrupt_pending(&self) -> (r: bool)
        ensures
            r == self.interrupt_pending,
    {
        self.interrupt_pending
    }

    /// Clear interrupt.
    pub fn clear_interrupt(&mut self)
        ensures
            *final(self) == (SystickCore { interrupt_pending: false, ..*old(self) }),
    {
        self.interrupt_pending = false;
    }

    /// One clock; true when the counter wrapped (reloaded).
    pub fn tick(&mut self) -> (r: bool)
        ensures
            r == old(self).wraps(),
            *final(self) == old(self).ticked(),
    {
        if !self.is_enabled() {
            return false;
        }
        if self.cvr > 0 {
            self.cvr = self.cvr - 1;
        } else {
            self.cvr = self.get_reload();
            let c = self.csr;
            assert((c | 0x1_0000u32) & 0x2u32 == c & 0x2u32) by (bit_vector);
            self.csr = self.csr | csr::COUNTFLAG;
            if self.is_interrupt_enabled() {
                self.interrupt_pending = true;
            }
            return true;
        }
        false
    }

    /// Read CSR; COUNTFLAG clears on read.
    pub fn read_csr(&mut self) -> (r: u32)
        ensures
            r == old(self).csr,
            *final(self) == old(self).after_read(regs::CSR),
    {
        let c = self.csr;
        self.csr = self.csr & !csr::COUNTFLAG;
        c
    }

    /// Write CSR; disabling clears the counter.
    pub fn write_csr(&mut self, value: u32)
        ensures
            *final(self) == old(self).csr_written(value),
    {
        self.csr = (self.csr & csr::COUNTFLAG) | (value & 0x0001_0007);
        if (value & csr::ENABLE) == 0 {
            self.cvr = 0;
        }
    }

    /// Write the reload value (24 bits).
    pub fn write_rvr(&mut self, value: u32)
        ensures
            *final(self) == (SystickCore { rvr: value & 0x00FF_FFFF, ..*old(self) }),
    {
        self.rvr = value & 0x00FF_FFFF;
    }

    /// Any write to CVR clears it and COUNTFLAG.
    pub fn write_cvr(&mut self, _value: u32)
        ensures
            *final(self) == old(self).after_write(regs::CVR, _value),
    {
        self.cvr = 0;
        self.csr = self.csr & !csr::COUNTFLAG;
    }

    /// Register read at an offset from the core's base.
    pub fn read(&mut self, offset: u32) -> (r: u32)
        ensures
            r == old(self).read_value(offset),
            *final(self) == old(self).after_read(offset),
    {
        if offset == regs::CSR {
            self.read_csr()
        } else if offset == regs::RVR {
            self.rvr
        } else if offset == regs::CVR {
            self.cvr
        } else if offset == regs::CALIB {
            self.calib
        } else {
            0
        }
    }

    /// Register write at an offset from the core's base; CALIB is read-only.
    pub fn write(&mut self, offset: u32, value: u32)
        ensures
            *final(self) == old(self).after_write(offset, value),
    {
        if offset == regs::CSR {
            self.write_csr(value);
        } else if offset == regs::RVR {
            self.write_rvr(value);
        } else if offset == regs::CVR {
            self.write_cvr(value);
        }
    }

    /// Return to the power-on state, keeping the calibration value.
    pub fn reset(&mut self)
        ensures
            *final(self) == core_initial(old(self).calib),
    {
        let c = self.calib;
        *self = SystickCore::new();
        self.calib = c;
    }
}

/// A count down from the reload value takes reload + 1 ticks to wrap again:
/// after the wrap that loads `n`, `n` ticks bring the counter to zero without
/// wrapping.
pub proof fn lemma_count_down(c: SystickCore, n: nat)
    requires
        c.enabled(),
        c.cvr == n,
    ensures
        count_down(c, n).cvr == 0,
        count_down(c, n).enabled(),
    decreases n,
{
    if n > 0 {
        lemma_count_down(c.ticked(), (n - 1) as nat);
    }
}

/// The timer after `n` ticks.
pub open spec fn count_down(c: SystickCore, n: nat) -> SystickCore
    decreases n,
{
    if n == 0 {
        c
    } else {
        count_down(c.ticked(), (n - 1) as nat)
    }
}

impl Default for SystickCore {
    fn default() -> (r: Self)
        ensures
            r == core_initial(TEN_MS_AT_12MHZ),
    {
        SystickCore::new()
    }
}

/// SysTick timers of both cores.
#[derive(Debug)]
pub struct Systick {
    /// Core 0 SysTick.
    pub core0: SystickCore,
    /// Core 1 SysTick.
    pub core1: SystickCore,
}

/// Core whose SysTick window holds the address.
pub open spec fn core_of(addr: u32) -> int {
    if addr >= SYSTICK_BASE_CORE1 { 1 } else { 0 }
}

impl Systick {
    /// Timer of the selected core (core 1 for any index but 0).
    pub open spec fn core_at(&self, core: int) -> SystickCore {
        if core == 0 { self.core0 } else { self.core1 }
    }

    /// Create both cores' timers.
    pub fn new() -> (r: Self)
        ensures
            r.core0 == core_initial(TEN_MS_AT_12MHZ),
            r.core1 == core_initial(TEN_MS_AT_12MHZ),
    {
        Systick { core0: SystickCore::new(), core1: SystickCore::new() }
    }

    /// Device identifier.
    pub fn id(&self) -> (r: DeviceId)
        ensures
            r == DeviceId::SYSTICK,
    {
        DeviceId::SYSTICK
    }

    /// Timer of a core: core 0 for index 0, core 1 otherwise.
    pub fn get_core(&self, core: usize) -> (r: &SystickCore)
        ensures
            *r == self.core_at(core as int),
    {
        match core {
            0 => &self.core0,
            _ => &self.core1,
        }
    }

    /// Mutable timer of a core: core 0 for index 0, core 1 otherwise.
    pub fn get_core_mut(&mut self, core: usize) -> (r: &mut SystickCore)
        ensures
            *r == old(self).core_at(core as int),
            core == 0 ==> *final(self) == (Systick { core0: *final(r), core1: old(self).core1 }),
            core != 0 ==> *final(self) == (Systick { core0: old(self).core0, core1: *final(r) }),
    {
        match core {
            0 => &mut self.core0,
            _ => &mut self.core1,
        }
    }

    /// Clock both timers; which of them wrapped.
    pub fn tick(&mut self) -> (r: (bool, bool))
        ensures
            r == (old(self).core0.wraps(), old(self).core1.wraps()),
            final(self).core0 == old(self).core0.ticked(),
            final(self).core1 == old(self).core1.ticked(),
    {
        let core0_wrap = self.core0.tick();
        let core1_wrap = self.core1.tick();
        (core0_wrap, core1_wrap)
    }

    /// Check if an interrupt is pending for a core.
    pub fn is_interrupt_pending(&self, core: usize) -> (r: bool)
        ensures
            r == self.core_at(core as int).interrupt_pending,
    {
        self.get_core(core).is_interrupt_pending()
    }

    /// Clear the interrupt of a core.
    pub fn clear_interrupt(&mut self, core: usize)
        ensures
            core == 0 ==> final(self).core0 == (SystickCore { interrupt_pending: false, ..old(self).core0 })
                && final(self).core1 == old(self).core1,
            core != 0 ==> final(self).core1 == (SystickCore { interrupt_pending: false, ..old(self).core1 })
                && final(self).core0 == old(self).core0,
    {
        self.get_core_mut(core).clear_interrupt();
    }

    /// Register read; the address selects the core's window.
    pub fn read(&mut self, addr: u32) -> (r: u32)
        requires
            addr >= SYSTICK_BASE_CORE0,
        ensures
            core_of(addr) == 0 ==> r == old(self).core0.read_value((addr - SYSTICK_BASE_CORE0) as u32)
                && final(self).core0 == old(self).core0.after_read((addr - SYSTICK_BASE_CORE0) as u32)
                && final(self).core1 == old(self).core1,
            core_of(addr) == 1 ==> r == old(self).core1.read_value((addr - SYSTICK_BASE_CORE1) as u32)
                && final(self).core1 == old(self).core1.after_read((addr - SYSTICK_BASE_CORE1) as u32)
                && final(self).core0 == old(self).core0,
    {
        if addr >= SYSTICK_BASE_CORE1 {
            self.core1.read(addr - SYSTICK_BASE_CORE1)
        } else {
            self.core0.read(addr - SYSTICK_BASE_CORE0)
        }
    }

    /// Register write; the address selects the core's window.
    pub fn write(&mut self, addr: u32, value: u32)
        requires
            addr >= SYSTICK_BASE_CORE0,
        ensures
            core_of(addr) == 0 ==> final(self).core0 == old(self).core0.after_write(
                (addr - SYSTICK_BASE_CORE0) as u32,
                value,
            ) && final(self).core1 == old(self).core1,
            core_of(addr) == 1 ==> final(self).core1 == old(self).core1.after_write(
                (addr - SYSTICK_BASE_CORE1) as u32,
                value,
            ) && final(self).core0 == old(self).core0,
    {
        if addr >= SYSTICK_BASE_CORE1 {
            self.core1.write(addr - SYSTICK_BASE_CORE1, value);
        } else {
            self.core0.write(addr - SYSTICK_BASE_CORE0, value);
        }
    }

    /// Reset both timers, keeping their calibration values.
    pub fn reset(&mut self)
        ensures
            final(self).core0 == core_initial(old(self).core0.calib),
            final(self).core1 == core_initial(old(self).core1.calib),
    {
        self.core0.reset();
        self.core1.reset();
    }
}

impl Default for Systick {
    fn default() -> (r: Self)
        ensures
            r.core0 == core_initial(TEN_MS_AT_12MHZ),
            r.core1 == core_initial(TEN_MS_AT_12MHZ),
    {
        Systick::new()
    }
}

} // verus!
