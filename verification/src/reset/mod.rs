//! Reset controller: per-peripheral reset and reset-done bits, watchdog
//! selection and the delayed completion of pending resets.
use vstd::prelude::*;

use crate::device::DeviceId;

pub mod regs;
pub mod reset;
pub mod reset_done;
pub mod wdsel;

verus! {

/// Reset controller base address.
pub const RESETS_BASE: u32 = 0x4002_0000;

/// Peripherals that can be reset.
#[derive(Debug, Clone, Copy, PartialEq, Eq, Structural)]
pub enum ResetPeripheral {
    Usbctrl,
    Uart0,
    Uart1,
    Spi0,
    Spi1,
    I2c0,
    I2c1,
    Adc,
    Pwm,
    Sio,
    Pio0,
    Pio1,
    Timer0,
    Timer1,
    Hstx,
    Timer2,
    Timer3,
    Trng,
    Tbman,
    PllUsb,
    PllSys,
}

/// Bit of a peripheral in the RESET register.
pub open spec fn reset_bit_of(p: ResetPeripheral) -> u32 {
    match p {
        ResetPeripheral::Usbctrl => reset::USBCTRL,
        ResetPeripheral::Uart0 => reset::UART0,
        ResetPeripheral::Uart1 => reset::UART1,
        ResetPeripheral::Spi0 => reset::SPI0,
        ResetPeripheral::Spi1 => reset::SPI1,
        ResetPeripheral::I2c0 => reset::I2C0,
        ResetPeripheral::I2c1 => reset::I2C1,
        ResetPeripheral::Adc => reset::ADC,
        ResetPeripheral::Pwm => reset::PWM,
        ResetPeripheral::Sio => reset::SIO,
        ResetPeripheral::Pio0 => reset::PIO0,
        ResetPeripheral::Pio1 => reset::PIO1,
        ResetPeripheral::Timer0 => reset::TIMER0,
        ResetPeripheral::Timer1 => reset::TIMER1,
        ResetPeripheral::Hstx => reset::HSTX,
        ResetPeripheral::Timer2 => reset::TIMER2,
        ResetPeripheral::Timer3 => reset::TIMER3,
        ResetPeripheral::Trng => reset::TRNG,
        ResetPeripheral::Tbman => reset::TBMAN,
        ResetPeripheral::PllUsb => reset::PLL_USB,
        ResetPeripheral::PllSys => reset::PLL_SYS,
    }
}

/// Bit of a peripheral in RESET_DONE (none for HSTX and timers 2 and 3).
pub open spec fn done_bit_of(p: ResetPeripheral) -> u32 {
    match p {
        ResetPeripheral::Usbctrl => reset_done::USBCTRL,
        ResetPeripheral::Uart0 => reset_done::UART0,
        ResetPeripheral::Uart1 => reset_done::UART1,
        ResetPeripheral::Spi0 => reset_done::SPI0,
        ResetPeripheral::Spi1 => reset_done::SPI1,
        ResetPeripheral::I2c0 => reset_done::I2C0,
        ResetPeripheral::I2c1 => reset_done::I2C1,
        ResetPeripheral::Adc => reset_done::ADC,
        ResetPeripheral::Pwm => reset_done::PWM,
        ResetPeripheral::Sio => reset_done::SIO,
        ResetPeripheral::Pio0 => reset_done::PIO0,
        ResetPeripheral::Pio1 => reset_done::PIO1,
        ResetPeripheral::Timer0 => reset_done::TIMER0,
        ResetPeripheral::Timer1 => reset_done::TIMER1,
        ResetPeripheral::Hstx => 0,
        ResetPeripheral::Timer2 => 0,
        ResetPeripheral::Timer3 => 0,
        ResetPeripheral::Trng => reset_done::TRNG,
        ResetPeripheral::Tbman => reset_done::TBMAN,
        ResetPeripheral::PllUsb => reset_done::PLL_USB,
        ResetPeripheral::PllSys => reset_done::PLL_SYS,
    }
}

/// Bit of a peripheral in WDSEL (none for HSTX and timers 2 and 3).
pub open spec fn wdsel_bit_of(p: ResetPeripheral) -> u32 {
    match p {
        ResetPeripheral::Usbctrl => wdsel::USBCTRL,
        ResetPeripheral::Uart0 => wdsel::UART0,
        ResetPeripheral::Uart1 => wdsel::UART1,
        ResetPeripheral::Spi0 => wdsel::SPI0,
        ResetPeripheral::Spi1 => wdsel::SPI1,
        ResetPeripheral::I2c0 => wdsel::I2C0,
        ResetPeripheral::I2c1 => wdsel::I2C1,
        ResetPeripheral::Adc => wdsel::ADC,
        ResetPeripheral::Pwm => wdsel::PWM,
        ResetPeripheral::Sio => wdsel::SIO,
        ResetPeripheral::Pio0 => wdsel::PIO0,
        ResetPeripheral::Pio1 => wdsel::PIO1,
        ResetPeripheral::Timer0 => wdsel::TIMER0,
        ResetPeripheral::Timer1 => wdsel::TIMER1,
        ResetPeripheral::Trng => wdsel::TRNG,
        ResetPeripheral::Tbman => wdsel::TBMAN,
        ResetPeripheral::PllUsb => wdsel::PLL_USB,
        ResetPeripheral::PllSys => wdsel::PLL_SYS,
        _ => 0,
    }
}

impl ResetPeripheral {
    /// Bit of the peripheral in the RESET register.
    pub fn reset_bit(&self) -> (r: u32)
        ensures
            r == reset_bit_of(*self),
    {
        match self {
            ResetPeripheral::Usbctrl => reset::USBCTRL,
            ResetPeripheral::Uart0 => reset::UART0,
            ResetPeripheral::Uart1 => reset::UART1,
            ResetPeripheral::Spi0 => reset::SPI0,
            ResetPeripheral::Spi1 => reset::SPI1,
            ResetPeripheral::I2c0 => reset::I2C0,
            ResetPeripheral::I2c1 => reset::I2C1,
            ResetPeripheral::Adc => reset::ADC,
            ResetPeripheral::Pwm => reset::PWM,
            ResetPeripheral::Sio => reset::SIO,
            ResetPeripheral::Pio0 => reset::PIO0,
            ResetPeripheral::Pio1 => reset::PIO1,
            ResetPeripheral::Timer0 => reset::TIMER0,
            ResetPeripheral::Timer1 => reset::TIMER1,
            ResetPeripheral::Hstx => reset::HSTX,
            ResetPeripheral::Timer2 => reset::TIMER2,
            ResetPeripheral::Timer3 => reset::TIMER3,
            ResetPeripheral::Trng => reset::TRNG,
            ResetPeripheral::Tbman => reset::TBMAN,
            ResetPeripheral::PllUsb => reset::PLL_USB,
            ResetPeripheral::PllSys => reset::PLL_SYS,
        }
    }

    /// Bit of the peripheral in RESET_DONE.
    pub fn done_bit(&self) -> (r: u32)
        ensures
            r == done_bit_of(*self),
    {
        match self {
            ResetPeripheral::Usbctrl => reset_done::USBCTRL,
            ResetPeripheral::Uart0 => reset_done::UART0,
            ResetPeripheral::Uart1 => reset_done::UART1,
            ResetPeripheral::Spi0 => reset_done::SPI0,
            ResetPeripheral::Spi1 => reset_done::SPI1,
            ResetPeripheral::I2c0 => reset_done::I2C0,
            ResetPeripheral::I2c1 => reset_done::I2C1,
            ResetPeripheral::Adc => reset_done::ADC,
            ResetPeripheral::Pwm => reset_done::PWM,
            ResetPeripheral::Sio => reset_done::SIO,
            ResetPeripheral::Pio0 => reset_done::PIO0,
            ResetPeripheral::Pio1 => reset_done::PIO1,
            ResetPeripheral::Timer0 => reset_done::TIMER0,
            ResetPeripheral::Timer1 => reset_done::TIMER1,
            ResetPeripheral::Hstx => 0,
            ResetPeripheral::Timer2 => 0,
            ResetPeripheral::Timer3 => 0,
            ResetPeripheral::Trng => reset_done::TRNG,
            ResetPeripheral::Tbman => reset_done::TBMAN,
            ResetPeripheral::PllUsb => reset_done::PLL_USB,
            ResetPeripheral::PllSys => reset_done::PLL_SYS,
        }
    }
}

/// Reset controller.
#[derive(Debug)]
pub struct Reset {
    /// Reset register.
    pub reset: u32,
    /// Watchdog select register.
    pub wdsel: u32,
    /// Reset done status register.
    pub reset_done: u32,
    /// Reset done for TBMAN.
    pub reset_done_tbman: u32,
    /// Resets still completing.
    pub pending_reset: u32,
    /// Cycles since the pending resets were asserted.
    pub reset_cycles: u32,
}

/// Abstract state of the reset controller.
pub ghost struct ResetState {
    pub reset: u32,
    pub wdsel: u32,
    pub reset_done: u32,
    pub reset_done_tbman: u32,
    pub pending_reset: u32,
    pub reset_cycles: u32,
}

impl View for Reset {
    type V = ResetState;

    open spec fn view(&self) -> ResetState {
        ResetState {
            reset: self.reset,
            wdsel: self.wdsel,
            reset_done: self.reset_done,
            reset_done_tbman: self.reset_done_tbman,
            pending_reset: self.pending_reset,
            reset_cycles: self.reset_cycles,
        }
    }
}

impl ResetState {
    pub open spec fn initial() -> ResetState {
        ResetState {
            reset: 0,
            wdsel: 0,
            reset_done: 0xFFFF_FFFF,
            reset_done_tbman: 1,
            pending_reset: 0,
            reset_cycles: 0,
        }
    }

    pub open spec fn asserted(self, p: ResetPeripheral) -> ResetState {
        ResetState {
            reset: self.reset | reset_bit_of(p),
            pending_reset: self.pending_reset | reset_bit_of(p),
            reset_done: self.reset_done & !done_bit_of(p),
            reset_cycles: 0,
            ..self
        }
    }

    pub open spec fn deasserted(self, p: ResetPeripheral) -> ResetState {
        ResetState {
            reset: self.reset & !reset_bit_of(p),
            reset_done: self.reset_done | done_bit_of(p),
            ..self
        }
    }

    /// One cycle: pending resets complete on the second cycle.
    pub open spec fn after_tick(self) -> ResetState {
        if self.pending_reset == 0 {
            self
        } else if self.reset_cycles + 1 >= 2 {
            ResetState {
                reset_done: 0xFFFF_FFFF,
                reset_done_tbman: 1,
                pending_reset: 0,
                reset_cycles: 0,
                ..self
            }
        } else {
            ResetState { reset_cycles: (self.reset_cycles + 1) as u32, ..self }
        }
    }

    pub open spec fn read_value(self, offset: u32) -> u32 {
        if offset == regs::RESET {
            self.reset
        } else if offset == regs::WDSEL {
            self.wdsel
        } else if offset == regs::RESET_DONE {
            self.reset_done
        } else if offset == regs::RESET_DONE_TBMAN {
            self.reset_done_tbman
        } else {
            0
        }
    }

    pub open spec fn after_write(self, offset: u32, value: u32) -> ResetState {
        if offset == regs::RESET {
            if value != 0 {
                ResetState {
                    reset: value,
                    pending_reset: value,
                    reset_done: self.reset_done & !value,
                    reset_cycles: 0,
                    ..self
                }
            } else {
                ResetState { reset: 0, pending_reset: 0, reset_done: 0xFFFF_FFFF, ..self }
            }
        } else if offset == regs::WDSEL {
            ResetState { wdsel: value, ..self }
        } else {
            self
        }
    }
}

/// Resetting a peripheral (assert then deassert) leaves it out of reset with
/// its reset-done bit set.
pub proof fn lemma_reset_device_completes(s: ResetState, p: ResetPeripheral)
    ensures
        s.asserted(p).deasserted(p).reset & reset_bit_of(p) == 0,
        s.asserted(p).deasserted(p).reset_done & done_bit_of(p) == done_bit_of(p),
{
    crate::bits::lemma_word_facts(s.reset, reset_bit_of(p));
    crate::bits::lemma_word_facts(s.reset_done, done_bit_of(p));
}

/// Two cycles after a reset is asserted, every reset is done.
pub proof fn lemma_reset_done_after_two_ticks(s: ResetState, p: ResetPeripheral)
    ensures
        s.asserted(p).after_tick().reset_done == s.asserted(p).reset_done,
        s.asserted(p).after_tick().after_tick().reset_done == 0xFFFF_FFFF,
{
    assert(reset_bit_of(p) != 0);
    crate::bits::lemma_word_facts(s.pending_reset, reset_bit_of(p));
}

impl Reset {
    /// Create a reset controller with every reset done.
    pub fn new() -> (r: Self)
        ensures
            r@ == ResetState::initial(),
    {
        Reset {
            reset: 0,
            wdsel: 0,
            reset_done: 0xFFFF_FFFF,
            reset_done_tbman: 1,
            pending_reset: 0,
            reset_cycles: 0,
        }
    }

    /// Device identifier.
    pub fn id(&self) -> (r: DeviceId)
        ensures
            r == DeviceId::RESETS,
    {
        DeviceId::RESETS
    }

    /// Assert reset for a peripheral.
    pub fn assert_reset(&mut self, peripheral: ResetPeripheral)
        ensures
            final(self)@ == old(self)@.asserted(peripheral),
    {
        let bit = peripheral.reset_bit();
        self.reset = self.reset | bit;
        self.pending_reset = self.pending_reset | bit;
        self.reset_done = self.reset_done & !peripheral.done_bit();
        self.reset_cycles = 0;
    }

    /// Deassert reset for a peripheral.
    pub fn deassert_reset(&mut self, peripheral: ResetPeripheral)
        ensures
            final(self)@ == old(self)@.deasserted(peripheral),
    {
        let bit = peripheral.reset_bit();
        self.reset = self.reset & !bit;
        self.reset_done = self.reset_done | peripheral.done_bit();
    }

    /// Reset a peripheral (assert then deassert).
    pub fn reset_device(&mut self, peripheral: ResetPeripheral)
        ensures
            final(self)@ == old(self)@.asserted(peripheral).deasserted(peripheral),
    {
        self.assert_reset(peripheral);
        self.deassert_reset(peripheral);
    }

    /// Check if a peripheral is in reset.
    pub fn is_in_reset(&self, peripheral: ResetPeripheral) -> (r: bool)
        ensures
            r == (self.reset & reset_bit_of(peripheral) != 0),
    {
        (self.reset & peripheral.reset_bit()) != 0
    }

    /// Check if a peripheral's reset is done.
    pub fn is_reset_done(&self, peripheral: ResetPeripheral) -> (r: bool)
        ensures
            r == (self.reset_done & done_bit_of(peripheral) != 0),
    {
        (self.reset_done & peripheral.done_bit()) != 0
    }

    /// Select or deselect a peripheral for watchdog resets.
    pub fn set_wdsel(&mut self, peripheral: ResetPeripheral, enable: bool)
        ensures
            final(self)@ == (ResetState {
                wdsel: if enable {
                    old(self).wdsel | wdsel_bit_of(peripheral)
                } else {
                    old(self).wdsel & !wdsel_bit_of(peripheral)
                },
                ..old(self)@
            }),
    {
        let wdsel_bit = match peripheral {
            ResetPeripheral::Usbctrl => wdsel::USBCTRL,
            ResetPeripheral::Uart0 => wdsel::UART0,
            ResetPeripheral::Uart1 => wdsel::UART1,
            ResetPeripheral::Spi0 => wdsel::SPI0,
            ResetPeripheral::Spi1 => wdsel::SPI1,
            ResetPeripheral::I2c0 => wdsel::I2C0,
            ResetPeripheral::I2c1 => wdsel::I2C1,
            ResetPeripheral::Adc => wdsel::ADC,
            ResetPeripheral::Pwm => wdsel::PWM,
            ResetPeripheral::Sio => wdsel::SIO,
            ResetPeripheral::Pio0 => wdsel::PIO0,
            ResetPeripheral::Pio1 => wdsel::PIO1,
            ResetPeripheral::Timer0 => wdsel::TIMER0,
            ResetPeripheral::Timer1 => wdsel::TIMER1,
            ResetPeripheral::Trng => wdsel::TRNG,
            ResetPeripheral::Tbman => wdsel::TBMAN,
            ResetPeripheral::PllUsb => wdsel::PLL_USB,
            ResetPeripheral::PllSys => wdsel::PLL_SYS,
            _ => 0,
        };
        if enable {
            self.wdsel = self.wdsel | wdsel_bit;
        } else {
            self.wdsel = self.wdsel & !wdsel_bit;
        }
    }

    /// Watchdog reset: every selected peripheral goes into reset.
    pub fn watchdog_reset(&mut self)
        ensures
            final(self)@ == (ResetState {
                reset: old(self).reset | old(self).wdsel,
                pending_reset: old(self).wdsel,
                reset_done: 0,
                ..old(self)@
            }),
    {
        self.reset = self.reset | self.wdsel;
        self.pending_reset = self.wdsel;
        self.reset_done = 0;
    }

    /// Advance pending resets by one cycle.
    pub fn tick(&mut self)
        requires
            old(self).pending_reset != 0 ==> old(self).reset_cycles < u32::MAX,
        ensures
            final(self)@ == old(self)@.after_tick(),
    {
        if self.pending_reset != 0 {
            self.reset_cycles = self.reset_cycles + 1;
            if self.reset_cycles >= 2 {
                self.reset_done = 0xFFFF_FFFF;
                self.reset_done_tbman = 1;
                self.pending_reset = 0;
                self.reset_cycles = 0;
            }
        }
    }

    /// Register read.
    pub fn read(&mut self, addr: u32) -> (r: u32)
        requires
            addr >= RESETS_BASE,
        ensures
            r == old(self)@.read_value((addr - RESETS_BASE) as u32),
            final(self)@ == old(self)@,
    {
        let offset = addr - RESETS_BASE;
        if offset == regs::RESET {
            self.reset
        } else if offset == regs::WDSEL {
            self.wdsel
        } else if offset == regs::RESET_DONE {
            self.reset_done
        } else if offset == regs::RESET_DONE_TBMAN {
            self.reset_done_tbman
        } else {
            0
        }
    }

    /// Register write.
    pub fn write(&mut self, addr: u32, value: u32)
        requires
            addr >= RESETS_BASE,
        ensures
            final(self)@ == old(self)@.after_write((addr - RESETS_BASE) as u32, value),
    {
        let offset = addr - RESETS_BASE;
        if offset == regs::RESET {
            self.reset = value;
            if value != 0 {
                self.pending_reset = value;
                self.reset_done = self.reset_done & !value;
                self.reset_cycles = 0;
            } else {
                self.pending_reset = 0;
                self.reset_done = 0xFFFF_FFFF;
            }
        } else if offset == regs::WDSEL {
            self.wdsel = value;
        }
    }

    /// Return to the power-on state.
    pub fn reset(&mut self)
        ensures
            final(self)@ == ResetState::initial(),
    {
        *self = Reset::new();
    }
}

impl Default for Reset {
    fn default() -> (r: Self)
        ensures
            r@ == ResetState::initial(),
    {
        Reset::new()
    }
}

} // verus!
