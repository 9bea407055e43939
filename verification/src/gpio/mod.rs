//! GPIO bank: per-pin overrides and function select, edge/level interrupts, and SIO access.
use vstd::prelude::*;

use crate::device::DeviceId;

pub mod regs;

verus! {

/// GPIO base address.
pub const GPIO_BASE: u32 = 0x4001_4000;

/// Number of pins (30 IO_BANK0, 6 QSPI, 12 reserved).
pub const NUM_PINS: usize = 48;

/// Pins that have interrupt state (eight per interrupt register, four registers).
pub const NUM_IRQ_PINS: usize = 32;

/// CTRL bits that the control register stores.
pub const CTRL_FIELDS_MASK: u32 = 0x3333_F0FE;

/// GPIO function select values.
#[derive(Debug, Clone, Copy, PartialEq, Eq, Structural)]
pub enum GpioFunction {
    Jtag,
    Spi,
    Uart,
    I2c,
    Pwm,
    Sio,
    Pio0,
    Pio1,
    Gpck,
    Usb,
    Null,
}

/// Function that a FUNCSEL value selects; unknown values select none.
pub open spec fn function_from(v: u8) -> GpioFunction {
    if v == 0 {
        GpioFunction::Jtag
    } else if v == 1 {
        GpioFunction::Spi
    } else if v == 2 {
        GpioFunction::Uart
    } else if v == 3 {
        GpioFunction::I2c
    } else if v == 4 {
        GpioFunction::Pwm
    } else if v == 5 {
        GpioFunction::Sio
    } else if v == 6 {
        GpioFunction::Pio0
    } else if v == 7 {
        GpioFunction::Pio1
    } else if v == 8 {
        GpioFunction::Gpck
    } else if v == 9 {
        GpioFunction::Usb
    } else {
        GpioFunction::Null
    }
}

/// FUNCSEL encoding of a function.
pub open spec fn function_bits(f: GpioFunction) -> u32 {
    match f {
        GpioFunction::Jtag => 0,
        GpioFunction::Spi => 1,
        GpioFunction::Uart => 2,
        GpioFunction::I2c => 3,
        GpioFunction::Pwm => 4,
        GpioFunction::Sio => 5,
        GpioFunction::Pio0 => 6,
        GpioFunction::Pio1 => 7,
        GpioFunction::Gpck => 8,
        GpioFunction::Usb => 9,
        GpioFunction::Null => 0xF,
    }
}

impl GpioFunction {
    /// FUNCSEL encoding.
    pub fn bits(&self) -> (r: u32)
        ensures
            r == function_bits(*self),
    {
        match self {
            GpioFunction::Jtag => 0,
            GpioFunction::Spi => 1,
            GpioFunction::Uart => 2,
            GpioFunction::I2c => 3,
            GpioFunction::Pwm => 4,
            GpioFunction::Sio => 5,
            GpioFunction::Pio0 => 6,
            GpioFunction::Pio1 => 7,
            GpioFunction::Gpck => 8,
            GpioFunction::Usb => 9,
            GpioFunction::Null => 0xF,
        }
    }
}

impl From<u8> for GpioFunction {
    fn from(value: u8) -> (r: Self)
        ensures
            r == function_from(value),
    {
        if value == 0 {
            GpioFunction::Jtag
        } else if value == 1 {
            GpioFunction::Spi
        } else if value == 2 {
            GpioFunction::Uart
        } else if value == 3 {
            GpioFunction::I2c
        } else if value == 4 {
            GpioFunction::Pwm
        } else if value == 5 {
            GpioFunction::Sio
        } else if value == 6 {
            GpioFunction::Pio0
        } else if value == 7 {
            GpioFunction::Pio1
        } else if value == 8 {
            GpioFunction::Gpck
        } else if value == 9 {
            GpioFunction::Usb
        } else {
            GpioFunction::Null
        }
    }
}

impl vstd::std_specs::convert::FromSpecImpl<u8> for GpioFunction {
    open spec fn obeys_from_spec() -> bool {
        true
    }

    open spec fn from_spec(v: u8) -> Self {
        function_from(v)
    }
}

/// Override values.
#[derive(Debug, Clone, Copy, PartialEq, Eq, Structural)]
pub enum OverrideValue {
    Normal,
    Invert,
    Low,
    High,
}

pub open spec fn override_from(v: u8) -> OverrideValue {
    if v == 1 {
        OverrideValue::Invert
    } else if v == 2 {
        OverrideValue::Low
    } else if v == 3 {
        OverrideValue::High
    } else {
        OverrideValue::Normal
    }
}

pub open spec fn override_bits(o: OverrideValue) -> u32 {
    match o {
        OverrideValue::Normal => 0,
        OverrideValue::Invert => 1,
        OverrideValue::Low => 2,
        OverrideValue::High => 3,
    }
}

/// Signal after an override.
pub open spec fn apply_override(o: OverrideValue, v: bool) -> bool {
    match o {
        OverrideValue::Normal => v,
        OverrideValue::Invert => !v,
        OverrideValue::Low => false,
        OverrideValue::High => true,
    }
}

impl OverrideValue {
    /// Register encoding.
    pub fn bits(&self) -> (r: u32)
        ensures
            r == override_bits(*self),
    {
        match self {
            OverrideValue::Normal => 0,
            OverrideValue::Invert => 1,
            OverrideValue::Low => 2,
            OverrideValue::High => 3,
        }
    }

    /// Apply the override to a signal.
    pub fn apply(&self, v: bool) -> (r: bool)
        ensures
            r == apply_override(*self, v),
    {
        match self {
            OverrideValue::Normal => v,
            OverrideValue::Invert => !v,
            OverrideValue::Low => false,
            OverrideValue::High => true,
        }
    }
}

impl From<u8> for OverrideValue {
    fn from(value: u8) -> (r: Self)
        ensures
            r == override_from(value),
    {
        if value == 1 {
            OverrideValue::Invert
        } else if value == 2 {
            OverrideValue::Low
        } else if value == 3 {
            OverrideValue::High
        } else {
            OverrideValue::Normal
        }
    }
}

impl vstd::std_specs::convert::FromSpecImpl<u8> for OverrideValue {
    open spec fn obeys_from_spec() -> bool {
        true
    }

    open spec fn from_spec(v: u8) -> Self {
        override_from(v)
    }
}

/// Drive strength values.
#[derive(Debug, Clone, Copy, PartialEq, Eq, Structural)]
pub enum DriveStrength {
    Ma2,
    Ma4,
    Ma8,
    Ma12,
}

pub open spec fn drive_from(v: u8) -> DriveStrength {
    if v == 0 {
        DriveStrength::Ma2
    } else if v == 2 {
        DriveStrength::Ma8
    } else if v == 3 {
        DriveStrength::Ma12
    } else {
        DriveStrength::Ma4
    }
}

pub open spec fn drive_bits(d: DriveStrength) -> u32 {
    match d {
        DriveStrength::Ma2 => 0,
        DriveStrength::Ma4 => 1,
        DriveStrength::Ma8 => 2,
        DriveStrength::Ma12 => 3,
    }
}

impl DriveStrength {
    /// Register encoding.
    pub fn bits(&self) -> (r: u32)
        ensures
            r == drive_bits(*self),
    {
        match self {
            DriveStrength::Ma2 => 0,
            DriveStrength::Ma4 => 1,
            DriveStrength::Ma8 => 2,
            DriveStrength::Ma12 => 3,
        }
    }
}

impl From<u8> for DriveStrength {
    fn from(value: u8) -> (r: Self)
        ensures
            r == drive_from(value),
    {
        if value == 0 {
            DriveStrength::Ma2
        } else if value == 2 {
            DriveStrength::Ma8
        } else if value == 3 {
            DriveStrength::Ma12
        } else {
            DriveStrength::Ma4
        }
    }
}

impl vstd::std_specs::convert::FromSpecImpl<u8> for DriveStrength {
    open spec fn obeys_from_spec() -> bool {
        true
    }

    open spec fn from_spec(v: u8) -> Self {
        drive_from(v)
    }
}

/// Single GPIO pin state.
#[derive(Debug, Clone, Copy)]
pub struct GpioPin {
    pub direction: bool,
    pub output_value: bool,
    pub input_value: bool,
    pub prev_input_value: bool,
    pub oe_override: OverrideValue,
    pub out_override: OverrideValue,
    pub in_override: OverrideValue,
    pub irq_override: OverrideValue,
    pub function: GpioFunction,
    pub pull_up: bool,
    pub pull_down: bool,
    pub drive_strength: DriveStrength,
    pub input_enable: bool,
    pub oe_peripheral: bool,
    pub out_peripheral: bool,
    pub slew_fast: bool,
    pub schmitt: bool,
    pub irq_rise: bool,
    pub irq_fall: bool,
    pub irq_level_high: bool,
    pub irq_level_low: bool,
}

/// A pin as it is at power-on.
pub open spec fn default_pin() -> GpioPin {
    GpioPin {
        direction: false,
        output_value: false,
        input_value: false,
        prev_input_value: false,
        oe_override: OverrideValue::Normal,
        out_override: OverrideValue::Normal,
        in_override: OverrideValue::Normal,
        irq_override: OverrideValue::Normal,
        function: GpioFunction::Null,
        pull_up: false,
        pull_down: false,
        drive_strength: DriveStrength::Ma4,
        input_enable: true,
        oe_peripheral: false,
        out_peripheral: false,
        slew_fast: false,
        schmitt: true,
        irq_rise: false,
        irq_fall: false,
        irq_level_high: false,
        irq_level_low: false,
    }
}

impl Default for GpioPin {
    fn default() -> (r: Self)
        ensures
            r == default_pin(),
    {
        GpioPin {
            direction: false,
            output_value: false,
            input_value: false,
            prev_input_value: false,
            oe_override: OverrideValue::Normal,
            out_override: OverrideValue::Normal,
            in_override: OverrideValue::Normal,
            irq_override: OverrideValue::Normal,
            function: GpioFunction::Null,
            pull_up: false,
            pull_down: false,
            drive_strength: DriveStrength::Ma4,
            input_enable: true,
            oe_peripheral: false,
            out_peripheral: false,
            slew_fast: false,
            schmitt: true,
            irq_rise: false,
            irq_fall: false,
            irq_level_high: false,
            irq_level_low: false,
        }
    }
}

/// Value the pin presents: the (overridden) output when the (overridden) output
/// enable is on, else the (overridden) input.
pub open spec fn pin_value(p: GpioPin) -> bool {
    if apply_override(p.oe_override, p.direction) {
        apply_override(p.out_override, p.output_value)
    } else {
        apply_override(p.in_override, p.input_value)
    }
}

/// The pin's current and previous inputs meet one of its interrupt conditions.
pub open spec fn irq_condition(p: GpioPin) -> bool {
    let cur = p.input_value;
    let prev = p.prev_input_value;
    ||| p.irq_level_high && cur
    ||| p.irq_level_low && !cur
    ||| p.irq_rise && cur && !prev
    ||| p.irq_fall && !cur && prev
}

/// Bit of a pin in its interrupt register.
pub open spec fn irq_bit(pin: int) -> u32 {
    1u32 << (((pin % 8) * 4) as u32)
}

pub open spec fn b2u(b: bool) -> u32 {
    if b {
        1
    } else {
        0
    }
}

/// CTRL register value of a pin.
pub open spec fn ctrl_value(p: GpioPin) -> u32 {
    (override_bits(p.irq_override) << 28u32) | (override_bits(p.in_override) << 24u32) | (
    override_bits(p.oe_override) << 20u32) | (override_bits(p.out_override) << 16u32) | (
    function_bits(p.function) << 12u32) | (b2u(p.pull_down) << 7u32) | (b2u(p.pull_up) << 6u32)
        | (drive_bits(p.drive_strength) << 4u32) | (b2u(p.input_enable) << 3u32) | (b2u(
        p.slew_fast,
    ) << 2u32) | (b2u(p.schmitt) << 1u32)
}

/// Pin after a CTRL register write.
pub open spec fn ctrl_written(p: GpioPin, value: u32) -> GpioPin {
    GpioPin {
        irq_override: override_from(((value >> 28u32) & 3) as u8),
        in_override: override_from(((value >> 24u32) & 3) as u8),
        oe_override: override_from(((value >> 20u32) & 3) as u8),
        out_override: override_from(((value >> 16u32) & 3) as u8),
        function: function_from(((value >> 12u32) & 0xF) as u8),
        pull_down: (value >> 7u32) & 1 != 0,
        pull_up: (value >> 6u32) & 1 != 0,
        drive_strength: drive_from(((value >> 4u32) & 3) as u8),
        input_enable: (value >> 3u32) & 1 != 0,
        slew_fast: (value >> 2u32) & 1 != 0,
        schmitt: (value >> 1u32) & 1 != 0,
        ..p
    }
}

/// Pin after a pad register write.
pub open spec fn pad_written(p: GpioPin, value: u32) -> GpioPin {
    GpioPin {
        pull_up: (value >> 6u32) & 1 != 0,
        pull_down: (value >> 7u32) & 1 != 0,
        input_enable: (value >> 3u32) & 1 != 0,
        drive_strength: drive_from(((value >> 4u32) & 3) as u8),
        slew_fast: (value >> 2u32) & 1 != 0,
        schmitt: (value >> 1u32) & 1 != 0,
        ..p
    }
}

/// GPIO device.
#[derive(Debug)]
pub struct Gpio {
    pub pins: [GpioPin; 48],
    pub intr: [u32; 4],
    pub proc0_inte: [u32; 4],
    pub proc0_intf: [u32; 4],
    pub proc0_ints: [u32; 4],
    pub proc1_inte: [u32; 4],
    pub proc1_intf: [u32; 4],
    pub proc1_ints: [u32; 4],
    pub dormant_wake_inte: [u32; 4],
    pub dormant_wake_intf: [u32; 4],
    pub dormant_wake_ints: [u32; 4],
    pub pads: [u32; 48],
}

/// Abstract state of the GPIO bank.
#[verifier::ext_equal]
pub ghost struct GpioState {
    pub pins: Seq<GpioPin>,
    pub intr: Seq<u32>,
    pub proc0_inte: Seq<u32>,
    pub proc0_intf: Seq<u32>,
    pub proc0_ints: Seq<u32>,
    pub proc1_inte: Seq<u32>,
    pub proc1_intf: Seq<u32>,
    pub proc1_ints: Seq<u32>,
    pub dormant_wake_inte: Seq<u32>,
    pub dormant_wake_intf: Seq<u32>,
    pub dormant_wake_ints: Seq<u32>,
    pub pads: Seq<u32>,
}

impl View for Gpio {
    type V = GpioState;

    open spec fn view(&self) -> GpioState {
        GpioState {
            pins: self.pins@,
            intr: self.intr@,
            proc0_inte: self.proc0_inte@,
            proc0_intf: self.proc0_intf@,
            proc0_ints: self.proc0_ints@,
            proc1_inte: self.proc1_inte@,
            proc1_intf: self.proc1_intf@,
            proc1_ints: self.proc1_ints@,
            dormant_wake_inte: self.dormant_wake_inte@,
            dormant_wake_intf: self.dormant_wake_intf@,
            dormant_wake_ints: self.dormant_wake_ints@,
            pads: self.pads@,
        }
    }
}

pub open spec fn zeros4() -> Seq<u32> {
    Seq::new(4, |i: int| 0u32)
}

/// Masked status: raw bits that are enabled, plus forced bits.
pub open spec fn masked(raw: Seq<u32>, en: Seq<u32>, force: Seq<u32>) -> Seq<u32> {
    Seq::new(4, |i: int| (raw[i] & en[i]) | force[i])
}

impl GpioState {
    pub open spec fn initial() -> GpioState {
        GpioState {
            pins: Seq::new(NUM_PINS as nat, |i: int| default_pin()),
            intr: zeros4(),
            proc0_inte: zeros4(),
            proc0_intf: zeros4(),
            proc0_ints: zeros4(),
            proc1_inte: zeros4(),
            proc1_intf: zeros4(),
            proc1_ints: zeros4(),
            dormant_wake_inte: zeros4(),
            dormant_wake_intf: zeros4(),
            dormant_wake_ints: zeros4(),
            pads: Seq::new(NUM_PINS as nat, |i: int| 0u32),
        }
    }

    pub open spec fn wf(self) -> bool {
        &&& self.pins.len() == NUM_PINS
        &&& self.pads.len() == NUM_PINS
        &&& self.intr.len() == 4
        &&& self.proc0_inte.len() == 4
        &&& self.proc0_intf.len() == 4
        &&& self.proc0_ints.len() == 4
        &&& self.proc1_inte.len() == 4
        &&& self.proc1_intf.len() == 4
        &&& self.proc1_ints.len() == 4
        &&& self.dormant_wake_inte.len() == 4
        &&& self.dormant_wake_intf.len() == 4
        &&& self.dormant_wake_ints.len() == 4
    }

    /// Processor and dormant-wake status recomputed from the raw interrupts.
    pub open spec fn with_ints(self) -> GpioState {
        GpioState {
            proc0_ints: masked(self.intr, self.proc0_inte, self.proc0_intf),
            proc1_ints: masked(self.intr, self.proc1_inte, self.proc1_intf),
            dormant_wake_ints: masked(self.intr, self.dormant_wake_inte, self.dormant_wake_intf),
            ..self
        }
    }

    pub open spec fn with_pin(self, pin: int, p: GpioPin) -> GpioState {
        GpioState { pins: self.pins.update(pin, p), ..self }
    }

    /// Pin after an external input change (the old input becomes the previous one).
    pub open spec fn input_pin(self, pin: int, value: bool) -> GpioPin {
        GpioPin { prev_input_value: self.pins[pin].input_value, input_value: value, ..self.pins[pin] }
    }

    /// An input change on `pin` does not raise an interrupt on a pin without interrupt state.
    pub open spec fn input_ok(self, pin: int, value: bool) -> bool {
        0 <= pin < NUM_PINS && irq_condition(self.input_pin(pin, value)) ==> pin < NUM_IRQ_PINS
    }

    /// State after the interrupt check of `pin`.
    pub open spec fn interrupt_updated(self, pin: int) -> GpioState {
        if irq_condition(self.pins[pin]) {
            GpioState {
                intr: self.intr.update(pin / 8, self.intr[pin / 8] | irq_bit(pin)),
                ..self
            }.with_ints()
        } else {
            self.with_ints()
        }
    }

    pub open spec fn after_input(self, pin: int, value: bool) -> GpioState {
        if 0 <= pin < NUM_PINS {
            self.with_pin(pin, self.input_pin(pin, value)).interrupt_updated(pin)
        } else {
            self
        }
    }

    pub open spec fn pending(self, pin: int) -> bool {
        0 <= pin < NUM_IRQ_PINS && (self.intr[pin / 8] >> (((pin % 8) * 4) as u32)) & 1 != 0
    }

    pub open spec fn after_clear(self, pin: int) -> GpioState {
        if 0 <= pin < NUM_IRQ_PINS {
            GpioState {
                intr: self.intr.update(pin / 8, self.intr[pin / 8] & !irq_bit(pin)),
                ..self
            }.with_ints()
        } else {
            self
        }
    }

    /// STATUS register of a pin with interrupt state.
    pub open spec fn status_value(self, pin: int) -> u32 {
        let p = self.pins[pin];
        ((self.proc0_ints[pin / 8] >> (((pin % 8) * 4) as u32)) & 1) | (b2u(p.input_value) << 7u32)
            | (b2u(p.direction) << 6u32) | (b2u(p.oe_peripheral) << 5u32) | (b2u(pin_value(p))
            << 4u32) | (b2u(p.out_peripheral) << 3u32) | (b2u(p.input_value) << 2u32) | (b2u(
            p.input_enable,
        ) << 1u32)
    }

    pub open spec fn in_bank(offset: u32, start: u32) -> bool {
        start <= offset <= start + 15
    }

    pub open spec fn read_value(self, offset: u32) -> u32 {
        if offset < 0xF0 {
            let pin = (offset / 8) as int;
            if offset % 8 == 0 {
                self.status_value(pin)
            } else if offset % 8 == 4 {
                ctrl_value(self.pins[pin])
            } else {
                0
            }
        } else if Self::in_bank(offset, regs::INTR0) {
            self.intr[(offset - regs::INTR0) / 4]
        } else if Self::in_bank(offset, regs::PROC0_INTE0) {
            self.proc0_inte[(offset - regs::PROC0_INTE0) / 4]
        } else if Self::in_bank(offset, regs::PROC0_INTF0) {
            self.proc0_intf[(offset - regs::PROC0_INTF0) / 4]
        } else if Self::in_bank(offset, regs::PROC0_INTS0) {
            self.proc0_ints[(offset - regs::PROC0_INTS0) / 4]
        } else if Self::in_bank(offset, regs::PROC1_INTE0) {
            self.proc1_inte[(offset - regs::PROC1_INTE0) / 4]
        } else if Self::in_bank(offset, regs::PROC1_INTF0) {
            self.proc1_intf[(offset - regs::PROC1_INTF0) / 4]
        } else if Self::in_bank(offset, regs::PROC1_INTS0) {
            self.proc1_ints[(offset - regs::PROC1_INTS0) / 4]
        } else {
            0
        }
    }

    pub open spec fn after_write(self, offset: u32, value: u32) -> GpioState {
        if offset < 0xF0 {
            let pin = (offset / 8) as int;
            if offset % 8 == 4 {
                self.with_pin(pin, ctrl_written(self.pins[pin], value))
            } else {
                self
            }
        } else if Self::in_bank(offset, regs::INTR0) {
            let i = (offset - regs::INTR0) / 4;
            GpioState { intr: self.intr.update(i, self.intr[i] & !value), ..self }.with_ints()
        } else if Self::in_bank(offset, regs::PROC0_INTE0) {
            GpioState {
                proc0_inte: self.proc0_inte.update((offset - regs::PROC0_INTE0) / 4, value),
                ..self
            }.with_ints()
        } else if Self::in_bank(offset, regs::PROC0_INTF0) {
            GpioState {
                proc0_intf: self.proc0_intf.update((offset - regs::PROC0_INTF0) / 4, value),
                ..self
            }.with_ints()
        } else if Self::in_bank(offset, regs::PROC1_INTE0) {
            GpioState {
                proc1_inte: self.proc1_inte.update((offset - regs::PROC1_INTE0) / 4, value),
                ..self
            }.with_ints()
        } else if Self::in_bank(offset, regs::PROC1_INTF0) {
            GpioState {
                proc1_intf: self.proc1_intf.update((offset - regs::PROC1_INTF0) / 4, value),
                ..self
            }.with_ints()
        } else {
            self
        }
    }
}

/// An input rising on a pin with its rise interrupt enabled leaves the pin's
/// interrupt pending.
pub proof fn lemma_rising_edge_pends(s: GpioState, pin: int)
    requires
        s.wf(),
        0 <= pin < NUM_IRQ_PINS,
        s.pins[pin].irq_rise,
        !s.pins[pin].input_value,
    ensures
        s.after_input(pin, true).pending(pin),
{
    let t = s.with_pin(pin, s.input_pin(pin, true));
    assert(irq_condition(t.pins[pin]));
    let x = t.intr[pin / 8];
    let k = ((pin % 8) * 4) as u32;
    assert((x | (1u32 << k)) >> k & 1 != 0) by (bit_vector)
        requires
            k < 32,
    ;
}

/// Clearing a pin's interrupt leaves it not pending and every other pin's
/// interrupt as it was.
pub proof fn lemma_clear_unpends(s: GpioState, pin: int, other: int)
    requires
        s.wf(),
        0 <= pin < NUM_IRQ_PINS,
        0 <= other < NUM_IRQ_PINS,
        other != pin,
    ensures
        !s.after_clear(pin).pending(pin),
        s.after_clear(pin).pending(other) == s.pending(other),
{
    let x = s.intr[pin / 8];
    let k = ((pin % 8) * 4) as u32;
    let j = ((other % 8) * 4) as u32;
    assert((x & !(1u32 << k)) >> k & 1 == 0 && (j != k ==> (x & !(1u32 << k)) >> j & 1 == x >> j
        & 1)) by (bit_vector)
        requires
            k < 32,
            j < 32,
    ;
}

fn b2u_exec(b: bool) -> (r: u32)
    ensures
        r == b2u(b),
{
    if b {
        1
    } else {
        0
    }
}

impl Gpio {
    pub open spec fn wf(&self) -> bool {
        self@.wf()
    }

    /// Create a new GPIO device.
    pub fn new() -> (r: Self)
        ensures
            r@ == GpioState::initial(),
    {
        let p = GpioPin::default();
        let r = Gpio {
            pins: [p; 48],
            intr: [0u32; 4],
            proc0_inte: [0u32; 4],
            proc0_intf: [0u32; 4],
            proc0_ints: [0u32; 4],
            proc1_inte: [0u32; 4],
            proc1_intf: [0u32; 4],
            proc1_ints: [0u32; 4],
            dormant_wake_inte: [0u32; 4],
            dormant_wake_intf: [0u32; 4],
            dormant_wake_ints: [0u32; 4],
            pads: [0u32; 48],
        };
        assert(r@ =~= GpioState::initial());
        r
    }

    /// Device identifier.
    pub fn id(&self) -> (r: DeviceId)
        ensures
            r == DeviceId::GPIO,
    {
        DeviceId::GPIO
    }

    /// Number of pins.
    pub fn pin_count(&self) -> (r: usize)
        ensures
            r == NUM_PINS,
    {
        NUM_PINS
    }

    /// Set a pin's direction (true = output).
    pub fn set_dir(&mut self, pin: usize, output: bool)
        ensures
            final(self)@ == if pin < NUM_PINS {
                old(self)@.with_pin(pin as int, GpioPin { direction: output, ..old(self)@.pins[pin as int] })
            } else {
                old(self)@
            },
    {
        if pin < NUM_PINS {
            self.pins[pin].direction = output;
        }
    }

    /// Set a pin's output value.
    pub fn set_output(&mut self, pin: usize, value: bool)
        ensures
            final(self)@ == if pin < NUM_PINS {
                old(self)@.with_pin(pin as int, GpioPin { output_value: value, ..old(self)@.pins[pin as int] })
            } else {
                old(self)@
            },
    {
        if pin < NUM_PINS {
            self.pins[pin].output_value = value;
        }
    }

    /// Drive a pin's input from outside and run the interrupt detection.
    pub fn set_input(&mut self, pin: usize, value: bool)
        requires
            old(self).wf(),
            old(self)@.input_ok(pin as int, value),
        ensures
            final(self).wf(),
            final(self)@ == old(self)@.after_input(pin as int, value),
    {
        if pin < NUM_PINS {
            let p = self.pins[pin];
            self.pins[pin] = GpioPin { prev_input_value: p.input_value, input_value: value, ..p };
            assert(self@ == old(self)@.with_pin(pin as int, old(self)@.input_pin(pin as int, value)));
            self.update_interrupt(pin);
        }
    }

    /// Value the pin presents, after overrides.
    pub fn get_value(&self, pin: usize) -> (r: bool)
        ensures
            r == (pin < NUM_PINS && pin_value(self.pins@[pin as int])),
    {
        if pin < NUM_PINS {
            let p = self.pins[pin];
            let out_val = p.out_override.apply(p.output_value);
            let oe = p.oe_override.apply(p.direction);
            if oe {
                out_val
            } else {
                p.in_override.apply(p.input_value)
            }
        } else {
            false
        }
    }

    /// A pin's state; none for a pin that does not exist.
    pub fn get_pin(&self, pin: usize) -> (r: Option<&GpioPin>)
        ensures
            r == if pin < NUM_PINS { Some(&self.pins@[pin as int]) } else { None },
    {
        if pin < NUM_PINS {
            Some(&self.pins[pin])
        } else {
            None
        }
    }

    /// Mutable access to a pin's state; none for a pin that does not exist.
    pub fn get_pin_mut(&mut self, pin: usize) -> (r: Option<&mut GpioPin>)
        ensures
            pin < NUM_PINS <==> r is Some,
            pin >= NUM_PINS ==> final(self)@ == old(self)@,
            r matches Some(p) ==> *p == old(self)@.pins[pin as int],
    {
        if pin < NUM_PINS {
            Some(&mut self.pins[pin])
        } else {
            None
        }
    }

    /// Raise the pin's interrupt when its conditions hold, then recompute the status.
    fn update_interrupt(&mut self, pin: usize)
        requires
            old(self).wf(),
            pin < NUM_PINS,
            irq_condition(old(self)@.pins[pin as int]) ==> pin < NUM_IRQ_PINS,
        ensures
            final(self).wf(),
            final(self)@ == old(self)@.interrupt_updated(pin as int),
    {
        let p = self.pins[pin];
        let current = p.input_value;
        let prev = p.prev_input_value;
        let rising = current && !prev;
        let falling = !current && prev;
        let mut irq_triggered = false;
        if p.irq_level_high && current {
            irq_triggered = true;
        }
        if p.irq_level_low && !current {
            irq_triggered = true;
        }
        if p.irq_rise && rising {
            irq_triggered = true;
        }
        if p.irq_fall && falling {
            irq_triggered = true;
        }
        if irq_triggered {
            let reg_idx = pin / 8;
            let bit_idx = (pin % 8) * 4;
            self.intr[reg_idx] = self.intr[reg_idx] | (1u32 << (bit_idx as u32));
        }
        self.update_proc_ints();
    }

    /// Recompute the masked interrupt status of both processors and dormant wake.
    fn update_proc_ints(&mut self)
        requires
            old(self).wf(),
        ensures
            final(self).wf(),
            final(self)@ == old(self)@.with_ints(),
    {
        let mut i: usize = 0;
        while i < 4
            invariant
                0 <= i <= 4,
                self.wf(),
                self.pins@ == old(self).pins@,
                self.pads@ == old(self).pads@,
                self.intr@ == old(self).intr@,
                self.proc0_inte@ == old(self).proc0_inte@,
                self.proc0_intf@ == old(self).proc0_intf@,
                self.proc1_inte@ == old(self).proc1_inte@,
                self.proc1_intf@ == old(self).proc1_intf@,
                self.dormant_wake_inte@ == old(self).dormant_wake_inte@,
                self.dormant_wake_intf@ == old(self).dormant_wake_intf@,
                forall|k: int|
                    0 <= k < i ==> self.proc0_ints@[k] == (self.intr@[k] & self.proc0_inte@[k])
                        | self.proc0_intf@[k],
                forall|k: int|
                    0 <= k < i ==> self.proc1_ints@[k] == (self.intr@[k] & self.proc1_inte@[k])
                        | self.proc1_intf@[k],
                forall|k: int|
                    0 <= k < i ==> self.dormant_wake_ints@[k] == (self.intr@[k]
                        & self.dormant_wake_inte@[k]) | self.dormant_wake_intf@[k],
            decreases 4 - i,
        {
            self.proc0_ints[i] = (self.intr[i] & self.proc0_inte[i]) | self.proc0_intf[i];
            self.proc1_ints[i] = (self.intr[i] & self.proc1_inte[i]) | self.proc1_intf[i];
            self.dormant_wake_ints[i] = (self.intr[i] & self.dormant_wake_inte[i])
                | self.dormant_wake_intf[i];
            i = i + 1;
        }
        assert(self@ =~= old(self)@.with_ints());
    }

    /// Select which input events raise a pin's interrupt.
    pub fn configure_irq(&mut self, pin: usize, rise: bool, fall: bool, level_high: bool, level_low: bool)
        ensures
            final(self)@ == if pin < NUM_PINS {
                old(self)@.with_pin(
                    pin as int,
                    GpioPin {
                        irq_rise: rise,
                        irq_fall: fall,
                        irq_level_high: level_high,
                        irq_level_low: level_low,
                        ..old(self)@.pins[pin as int]
                    },
                )
            } else {
                old(self)@
            },
    {
        if pin < NUM_PINS {
            let p = self.pins[pin];
            self.pins[pin] = GpioPin {
                irq_rise: rise,
                irq_fall: fall,
                irq_level_high: level_high,
                irq_level_low: level_low,
                ..p
            };
        }
    }

    /// The pin's raw interrupt is pending.
    pub fn has_interrupt(&self, pin: usize) -> (r: bool)
        requires
            self.wf(),
        ensures
            r == self@.pending(pin as int),
    {
        if pin >= NUM_PINS {
            return false;
        }
        let reg_idx = pin / 8;
        if reg_idx >= 4 {
            return false;
        }
        let bit_idx = (pin % 8) * 4;
        (self.intr[reg_idx] >> (bit_idx as u32)) & 1 != 0
    }

    /// Clear the pin's raw interrupt and recompute the status.
    pub fn clear_interrupt(&mut self, pin: usize)
        requires
            old(self).wf(),
        ensures
            final(self).wf(),
            final(self)@ == old(self)@.after_clear(pin as int),
    {
        if pin >= NUM_PINS {
            return;
        }
        let reg_idx = pin / 8;
        if reg_idx >= 4 {
            return;
        }
        let bit_idx = (pin % 8) * 4;
        self.intr[reg_idx] = self.intr[reg_idx] & !(1u32 << (bit_idx as u32));
        self.update_proc_ints();
    }

    /// STATUS register of a pin with interrupt state.
    fn read_status(&self, pin: usize) -> (r: u32)
        requires
            self.wf(),
            pin < NUM_IRQ_PINS,
        ensures
            r == self@.status_value(pin as int),
    {
        let p = self.pins[pin];
        let v = self.get_value(pin);
        ((self.proc0_ints[pin / 8] >> (((pin % 8) * 4) as u32)) & 1) | (b2u_exec(p.input_value)
            << 7u32) | (b2u_exec(p.direction) << 6u32) | (b2u_exec(p.oe_peripheral) << 5u32) | (
        b2u_exec(v) << 4u32) | (b2u_exec(p.out_peripheral) << 3u32) | (b2u_exec(p.input_value)
            << 2u32) | (b2u_exec(p.input_enable) << 1u32)
    }

    /// CTRL register of a pin; 0 for a pin that does not exist.
    fn read_ctrl(&self, pin: usize) -> (r: u32)
        ensures
            r == if pin < NUM_PINS { ctrl_value(self.pins@[pin as int]) } else { 0 },
    {
        if pin >= NUM_PINS {
            return 0;
        }
        let p = self.pins[pin];
        (p.irq_override.bits() << 28u32) | (p.in_override.bits() << 24u32) | (p.oe_override.bits()
            << 20u32) | (p.out_override.bits() << 16u32) | (p.function.bits() << 12u32) | (
        b2u_exec(p.pull_down) << 7u32) | (b2u_exec(p.pull_up) << 6u32) | (p.drive_strength.bits()
            << 4u32) | (b2u_exec(p.input_enable) << 3u32) | (b2u_exec(p.slew_fast) << 2u32) | (
        b2u_exec(p.schmitt) << 1u32)
    }

    /// Decode a CTRL register write into the pin's configuration.
    fn write_ctrl(&mut self, pin: usize, value: u32)
        ensures
            final(self)@ == if pin < NUM_PINS {
                old(self)@.with_pin(pin as int, ctrl_written(old(self)@.pins[pin as int], value))
            } else {
                old(self)@
            },
    {
        if pin >= NUM_PINS {
            return;
        }
        let p = self.pins[pin];
        self.pins[pin] = GpioPin {
            irq_override: OverrideValue::from(((value >> 28u32) & 3) as u8),
            in_override: OverrideValue::from(((value >> 24u32) & 3) as u8),
            oe_override: OverrideValue::from(((value >> 20u32) & 3) as u8),
            out_override: OverrideValue::from(((value >> 16u32) & 3) as u8),
            function: GpioFunction::from(((value >> 12u32) & 0xF) as u8),
            pull_down: (value >> 7u32) & 1 != 0,
            pull_up: (value >> 6u32) & 1 != 0,
            drive_strength: DriveStrength::from(((value >> 4u32) & 3) as u8),
            input_enable: (value >> 3u32) & 1 != 0,
            slew_fast: (value >> 2u32) & 1 != 0,
            schmitt: (value >> 1u32) & 1 != 0,
            ..p
        };
    }

    /// Pad control register; 0 for a pad that does not exist.
    fn read_pad(&self, pin: usize) -> (r: u32)
        ensures
            r == if pin < NUM_PINS { self.pads@[pin as int] } else { 0 },
    {
        if pin >= NUM_PINS {
            return 0;
        }
        self.pads[pin]
    }

    /// Store a pad control register and apply it to the pin.
    fn write_pad(&mut self, pin: usize, value: u32)
        ensures
            final(self)@ == if pin < NUM_PINS {
                GpioState {
                    pads: old(self)@.pads.update(pin as int, value),
                    pins: old(self)@.pins.update(pin as int, pad_written(old(self)@.pins[pin as int], value)),
                    ..old(self)@
                }
            } else {
                old(self)@
            },
    {
        if pin >= NUM_PINS {
            return;
        }
        self.pads[pin] = value;
        let p = self.pins[pin];
        self.pins[pin] = GpioPin {
            pull_up: (value >> 6u32) & 1 != 0,
            pull_down: (value >> 7u32) & 1 != 0,
            input_enable: (value >> 3u32) & 1 != 0,
            drive_strength: DriveStrength::from(((value >> 4u32) & 3) as u8),
            slew_fast: (value >> 2u32) & 1 != 0,
            schmitt: (value >> 1u32) & 1 != 0,
            ..p
        };
    }

    /// Register read.
    pub fn read(&mut self, addr: u32) -> (r: u32)
        requires
            old(self).wf(),
            addr >= GPIO_BASE,
        ensures
            r == old(self)@.read_value((addr - GPIO_BASE) as u32),
            final(self)@ == old(self)@,
    {
        let offset = addr - GPIO_BASE;
        if offset < 0xF0 {
            let pin = (offset / regs::GPIO_STRIDE) as usize;
            let reg_offset = offset % regs::GPIO_STRIDE;
            return if reg_offset == regs::GPIO_STATUS_OFFSET {
                self.read_status(pin)
            } else if reg_offset == regs::GPIO_CTRL_OFFSET {
                self.read_ctrl(pin)
            } else {
                0
            };
        }
        if regs::INTR0 <= offset && offset <= regs::INTR0 + 15 {
            self.intr[((offset - regs::INTR0) / 4) as usize]
        } else if regs::PROC0_INTE0 <= offset && offset <= regs::PROC0_INTE0 + 15 {
            self.proc0_inte[((offset - regs::PROC0_INTE0) / 4) as usize]
        } else if regs::PROC0_INTF0 <= offset && offset <= regs::PROC0_INTF0 + 15 {
            self.proc0_intf[((offset - regs::PROC0_INTF0) / 4) as usize]
        } else if regs::PROC0_INTS0 <= offset && offset <= regs::PROC0_INTS0 + 15 {
            self.proc0_ints[((offset - regs::PROC0_INTS0) / 4) as usize]
        } else if regs::PROC1_INTE0 <= offset && offset <= regs::PROC1_INTE0 + 15 {
            self.proc1_inte[((offset - regs::PROC1_INTE0) / 4) as usize]
        } else if regs::PROC1_INTF0 <= offset && offset <= regs::PROC1_INTF0 + 15 {
            self.proc1_intf[((offset - regs::PROC1_INTF0) / 4) as usize]
        } else if regs::PROC1_INTS0 <= offset && offset <= regs::PROC1_INTS0 + 15 {
            self.proc1_ints[((offset - regs::PROC1_INTS0) / 4) as usize]
        } else {
            0
        }
    }

    /// Register write.
    pub fn write(&mut self, addr: u32, value: u32)
        requires
            old(self).wf(),
            addr >= GPIO_BASE,
        ensures
            final(self).wf(),
            final(self)@ == old(self)@.after_write((addr - GPIO_BASE) as u32, value),
    {
        let offset = addr - GPIO_BASE;
        if offset < 0xF0 {
            let pin = (offset / regs::GPIO_STRIDE) as usize;
            let reg_offset = offset % regs::GPIO_STRIDE;
            if reg_offset == regs::GPIO_CTRL_OFFSET {
                self.write_ctrl(pin, value);
            }
            return;
        }
        if regs::INTR0 <= offset && offset <= regs::INTR0 + 15 {
            let idx = ((offset - regs::INTR0) / 4) as usize;
            self.intr[idx] = self.intr[idx] & !value;
            self.update_proc_ints();
        } else if regs::PROC0_INTE0 <= offset && offset <= regs::PROC0_INTE0 + 15 {
            self.proc0_inte[((offset - regs::PROC0_INTE0) / 4) as usize] = value;
            self.update_proc_ints();
        } else if regs::PROC0_INTF0 <= offset && offset <= regs::PROC0_INTF0 + 15 {
            self.proc0_intf[((offset - regs::PROC0_INTF0) / 4) as usize] = value;
            self.update_proc_ints();
        } else if regs::PROC1_INTE0 <= offset && offset <= regs::PROC1_INTE0 + 15 {
            self.proc1_inte[((offset - regs::PROC1_INTE0) / 4) as usize] = value;
            self.update_proc_ints();
        } else if regs::PROC1_INTF0 <= offset && offset <= regs::PROC1_INTF0 + 15 {
            self.proc1_intf[((offset - regs::PROC1_INTF0) / 4) as usize] = value;
            self.update_proc_ints();
        }
    }

    /// Return to the power-on state.
    pub fn reset(&mut self)
        ensures
            final(self)@ == GpioState::initial(),
    {
        *self = Gpio::new();
    }
}

impl Default for Gpio {
    fn default() -> (r: Self)
        ensures
            r@ == GpioState::initial(),
    {
        Gpio::new()
    }
}

/// SIO GPIO registers (direct access).
pub struct SioGpio {
    pub gpio_out: u32,
    pub gpio_oe_set: u32,
    pub gpio_oe_clr: u32,
    pub gpio_in: u32,
}

impl SioGpio {
    /// SIO base address.
    pub const BASE: u32 = 0xD000_0000;
    pub const GPIO_OUT: u32 = 0x010;
    pub const GPIO_OUT_SET: u32 = 0x014;
    pub const GPIO_OUT_CLR: u32 = 0x018;
    pub const GPIO_OUT_XOR: u32 = 0x01C;
    pub const GPIO_OE: u32 = 0x020;
    pub const GPIO_OE_SET: u32 = 0x024;
    pub const GPIO_OE_CLR: u32 = 0x028;
    pub const GPIO_OE_XOR: u32 = 0x02C;
    pub const GPIO_IN: u32 = 0x004;

    /// Create with all registers clear.
    pub fn new() -> (r: Self)
        ensures
            r.gpio_out == 0 && r.gpio_oe_set == 0 && r.gpio_oe_clr == 0 && r.gpio_in == 0,
    {
        SioGpio { gpio_out: 0, gpio_oe_set: 0, gpio_oe_clr: 0, gpio_in: 0 }
    }

    /// Register read: output, input, or output enable.
    pub fn read(&self, offset: u32) -> (r: u32)
        ensures
            r == if offset == 0x010 {
                self.gpio_out
            } else if offset == 0x004 {
                self.gpio_in
            } else if offset == 0x020 {
                self.gpio_oe_set
            } else {
                0
            },
    {
        if offset == 0x010 {
            self.gpio_out
        } else if offset == 0x004 {
            self.gpio_in
        } else if offset == 0x020 {
            self.gpio_oe_set
        } else {
            0
        }
    }

    /// Register write: plain, set, clear and toggle forms of output and output enable.
    pub fn write(&mut self, offset: u32, value: u32)
        ensures
            final(self).gpio_in == old(self).gpio_in,
            final(self).gpio_oe_clr == old(self).gpio_oe_clr,
            final(self).gpio_out == if offset == 0x010 {
                value
            } else if offset == 0x014 {
                old(self).gpio_out | value
            } else if offset == 0x018 {
                old(self).gpio_out & !value
            } else if offset == 0x01C {
                old(self).gpio_out ^ value
            } else {
                old(self).gpio_out
            },
            final(self).gpio_oe_set == if offset == 0x020 {
                value
            } else if offset == 0x024 {
                old(self).gpio_oe_set | value
            } else if offset == 0x028 {
                old(self).gpio_oe_set & !value
            } else if offset == 0x02C {
                old(self).gpio_oe_set ^ value
            } else {
                old(self).gpio_oe_set
            },
    {
        if offset == 0x010 {
            self.gpio_out = value;
        } else if offset == 0x014 {
            self.gpio_out = self.gpio_out | value;
        } else if offset == 0x018 {
            self.gpio_out = self.gpio_out & !value;
        } else if offset == 0x01C {
            self.gpio_out = self.gpio_out ^ value;
        } else if offset == 0x020 {
            self.gpio_oe_set = value;
        } else if offset == 0x024 {
            self.gpio_oe_set = self.gpio_oe_set | value;
        } else if offset == 0x028 {
            self.gpio_oe_set = self.gpio_oe_set & !value;
        } else if offset == 0x02C {
            self.gpio_oe_set = self.gpio_oe_set ^ value;
        }
    }
}

impl Default for SioGpio {
    fn default() -> (r: Self)
        ensures
            r.gpio_out == 0 && r.gpio_oe_set == 0 && r.gpio_oe_clr == 0 && r.gpio_in == 0,
    {
        SioGpio::new()
    }
}

} // verus!
