//! SAR ADC peripheral of the RP2350 with its register interface.
use vstd::prelude::*;

use crate::device::DeviceId;

pub mod cs;
pub mod fcs;
pub mod regs;

verus! {

/// ADC base address.
pub const ADC_BASE: u32 = 0x4004_C000;

/// Number of inputs: four analog pins and the temperature sensor.
pub const NUM_CHANNELS: usize = 5;

/// Depth of the sample FIFO.
pub const FIFO_DEPTH: usize = 16;

/// Mask of the CS bits that software can write.
pub const CS_WRITE_MASK: u32 = 0x0007_770F;

/// Mask of the FCS bits that software can write.
pub const FCS_WRITE_MASK: u32 = 0x0F00_131F;

/// Value returned by a FIFO read when the FIFO is empty (error bit).
pub const FIFO_EMPTY_ERR: u32 = 0x8000;

/// Largest value a 12-bit conversion can produce.
pub const MAX_SAMPLE: u16 = 4095;

/// ADC device.
#[derive(Debug)]
pub struct Adc {
    /// Control and status register.
    pub cs: u32,
    /// FIFO control and status.
    pub fcs: u32,
    /// Clock divider.
    pub div: u32,
    /// Raw interrupt status.
    pub intr: u32,
    /// Interrupt enable.
    pub inte: u32,
    /// Interrupt force.
    pub intf: u32,
    /// Input values (12-bit).
    pub channels: [u16; 5],
    /// Last conversion result.
    pub result: u16,
    /// Sample FIFO; reads take the most recently pushed sample.
    pub fifo: Vec<u16>,
}

/// Abstract state of the ADC.
#[verifier::ext_equal]
pub ghost struct AdcState {
    pub cs: u32,
    pub fcs: u32,
    pub div: u32,
    pub intr: u32,
    pub inte: u32,
    pub intf: u32,
    pub channels: Seq<u16>,
    pub result: u16,
    pub fifo: Seq<u16>,
}

impl View for Adc {
    type V = AdcState;

    open spec fn view(&self) -> AdcState {
        AdcState {
            cs: self.cs,
            fcs: self.fcs,
            div: self.div,
            intr: self.intr,
            inte: self.inte,
            intf: self.intf,
            channels: self.channels@,
            result: self.result,
            fifo: self.fifo@,
        }
    }
}

impl AdcState {
    /// The state that `Adc::new` produces.
    pub open spec fn initial() -> AdcState {
        AdcState {
            cs: 0,
            fcs: 0,
            div: 0,
            intr: 0,
            inte: 0,
            intf: 0,
            channels: seq![0u16, 0u16, 0u16, 0u16, 0u16],
            result: 0,
            fifo: Seq::empty(),
        }
    }

    /// The FIFO never holds more than its depth.
    pub open spec fn wf(self) -> bool {
        &&& self.channels.len() == NUM_CHANNELS
        &&& self.fifo.len() <= FIFO_DEPTH
    }

    /// Input selected by CS.AINSEL.
    pub open spec fn channel(self) -> u32 {
        (self.cs & cs::AINSEL_MASK) >> cs::AINSEL_SHIFT
    }

    pub open spec fn ts_enabled(self) -> bool {
        self.cs & cs::TS_EN != 0
    }

    /// A conversion reads an existing input: either the selected one or the
    /// temperature sensor.
    pub open spec fn can_convert(self) -> bool {
        self.channel() < NUM_CHANNELS || self.ts_enabled()
    }

    /// The value a conversion samples.
    pub open spec fn sample(self) -> u16 {
        if self.channel() == 4 || self.ts_enabled() {
            self.channels[4]
        } else {
            self.channels[self.channel() as int]
        }
    }

    /// State after one conversion: the sample becomes the result, READY is set,
    /// START_ONCE is cleared, and the sample is queued when the FIFO is enabled
    /// and not full.
    pub open spec fn converted(self) -> AdcState {
        let v = self.sample();
        AdcState {
            result: v,
            cs: (self.cs | cs::READY) & !cs::START_ONCE,
            fifo: if self.fcs & fcs::EN != 0 && self.fifo.len() < FIFO_DEPTH {
                self.fifo.push(v)
            } else {
                self.fifo
            },
            ..self
        }
    }

    /// FCS as read: the stored bits plus FULL, EMPTY and the FIFO level.
    pub open spec fn fcs_value(self) -> u32 {
        let full: u32 = if self.fifo.len() >= FIFO_DEPTH { fcs::FULL } else { 0 };
        let empty: u32 = if self.fifo.len() == 0 { fcs::EMPTY } else { 0 };
        ((self.fcs | full) | empty) | ((self.fifo.len() as u32) << 24u32)
    }

    /// Value a register read at `offset` returns.
    pub open spec fn read_value(self, offset: u32) -> u32 {
        if offset == regs::CS {
            self.cs
        } else if offset == regs::RESULT {
            self.result as u32
        } else if offset == regs::FCS {
            self.fcs_value()
        } else if offset == regs::FIFO {
            if self.fifo.len() > 0 {
                self.fifo[0] as u32
            } else {
                FIFO_EMPTY_ERR
            }
        } else if offset == regs::DIV {
            self.div
        } else if offset == regs::INTR {
            self.intr
        } else if offset == regs::INTE {
            self.inte
        } else if offset == regs::INTF {
            self.intf
        } else if offset == regs::INTS {
            (self.intr & self.inte) | self.intf
        } else {
            0
        }
    }

    /// State after a register read at `offset`: only a FIFO read changes it.
    pub open spec fn after_read(self, offset: u32) -> AdcState {
        if offset == regs::FIFO && self.fifo.len() > 0 {
            AdcState { fifo: self.fifo.drop_first(), ..self }
        } else {
            self
        }
    }

    /// CS after a software write, before any triggered conversion.
    pub open spec fn with_cs(self, value: u32) -> AdcState {
        AdcState { cs: value & CS_WRITE_MASK, ..self }
    }

    /// A CS write starts a conversion when it raises START_ONCE.
    pub open spec fn cs_write_starts(self, value: u32) -> bool {
        value & cs::START_ONCE != 0 && self.cs & cs::START_ONCE == 0
    }

    /// A write at `offset` cannot make the device sample a missing input.
    pub open spec fn write_ok(self, offset: u32, value: u32) -> bool {
        offset == regs::CS && self.cs_write_starts(value) ==> self.with_cs(value).can_convert()
    }

    /// State after a register write.
    pub open spec fn after_write(self, offset: u32, value: u32) -> AdcState {
        if offset == regs::CS {
            if self.cs_write_starts(value) {
                self.with_cs(value).converted()
            } else {
                self.with_cs(value)
            }
        } else if offset == regs::FCS {
            AdcState { fcs: value & FCS_WRITE_MASK, ..self }
        } else if offset == regs::DIV {
            AdcState { div: value, ..self }
        } else if offset == regs::INTR {
            AdcState { intr: self.intr & !value, ..self }
        } else if offset == regs::INTE {
            AdcState { inte: value & 0x03, ..self }
        } else if offset == regs::INTF {
            AdcState { intf: value & 0x03, ..self }
        } else {
            self
        }
    }

    /// Continuous mode converts on every tick while enabled.
    pub open spec fn ticking(self) -> bool {
        self.cs & cs::START_MANY != 0 && self.cs & cs::EN != 0
    }
}

proof fn lemma_channel_bound(x: u32)
    ensures
        (x & cs::AINSEL_MASK) >> cs::AINSEL_SHIFT < 8,
{
    assert((x & 0x7000u32) >> 12u32 < 8) by (bit_vector);
}

/// A conversion puts the sampled input in RESULT, flags READY and clears
/// START_ONCE; with the FIFO enabled and not full the sample joins the back of
/// the FIFO, so FIFO reads give samples oldest first; the FIFO stays within
/// its depth.
pub proof fn lemma_conversion_reports_sample(s: AdcState)
    requires
        s.wf(),
        s.can_convert(),
    ensures
        s.converted().read_value(regs::RESULT) == s.sample() as u32,
        s.converted().cs & cs::READY != 0,
        s.converted().cs & cs::START_ONCE == 0,
        s.fcs & fcs::EN != 0 && s.fifo.len() < FIFO_DEPTH ==> s.converted().fifo == s.fifo.push(
            s.sample(),
        ),
        s.fcs & fcs::EN != 0 && s.fifo.len() > 0 ==> s.converted().read_value(regs::FIFO)
            == s.fifo[0] as u32,
        s.fcs & fcs::EN != 0 && s.fifo.len() == 0 ==> s.converted().read_value(regs::FIFO)
            == s.sample() as u32,
        s.converted().wf(),
{
    let x = s.cs;
    assert((x | 0x100u32) & !0x4u32 & 0x100u32 != 0 && (x | 0x100u32) & !0x4u32 & 0x4u32 == 0)
        by (bit_vector);
}

/// Reading RESULT after selecting input `c` (below the temperature sensor,
/// with the sensor off) and starting a conversion gives the value set for `c`.
pub proof fn lemma_one_shot_reads_input(s: AdcState, value: u32)
    requires
        s.wf(),
        s.cs & cs::START_ONCE == 0,
        value & cs::START_ONCE != 0,
        value & cs::TS_EN == 0,
        ((value & CS_WRITE_MASK) & cs::AINSEL_MASK) >> cs::AINSEL_SHIFT < 4,
    ensures
        s.after_write(regs::CS, value).read_value(regs::RESULT) == s.channels[(((value
            & CS_WRITE_MASK) & cs::AINSEL_MASK) >> cs::AINSEL_SHIFT) as int] as u32,
{
    let t = s.with_cs(value);
    let w = value;
    let m = CS_WRITE_MASK;
    assert(w & 0x2u32 == 0 ==> (w & m) & 0x2u32 == 0) by (bit_vector);
    assert(t.can_convert());
}

impl Adc {
    /// The FIFO never holds more than its depth.
    pub open spec fn wf(&self) -> bool {
        self@.wf()
    }

    /// Create a new ADC device.
    pub fn new() -> (r: Self)
        ensures
            r@ == AdcState::initial(),
            r.wf(),
    {
        Adc {
            cs: 0,
            fcs: 0,
            div: 0,
            intr: 0,
            inte: 0,
            intf: 0,
            channels: [0u16; 5],
            result: 0,
            fifo: Vec::with_capacity(16),
        }
    }

    /// Device identifier.
    pub fn id(&self) -> (r: DeviceId)
        ensures
            r == DeviceId::ADC,
    {
        DeviceId::ADC
    }

    /// Value of an input; 0 for an input that does not exist.
    pub fn get_value(&self, channel: usize) -> (r: u16)
        ensures
            r == if channel < NUM_CHANNELS { self.channels@[channel as int] } else { 0 },
    {
        if channel < NUM_CHANNELS {
            self.channels[channel]
        } else {
            0
        }
    }

    /// Set an input value, clamped to 12 bits; an input that does not exist is ignored.
    pub fn set_value(&mut self, channel: usize, value: u16)
        ensures
            final(self)@ == (if channel < NUM_CHANNELS {
                AdcState {
                    channels: old(self)@.channels.update(
                        channel as int,
                        if value > MAX_SAMPLE { MAX_SAMPLE } else { value },
                    ),
                    ..old(self)@
                }
            } else {
                old(self)@
            }),
    {
        if channel < NUM_CHANNELS {
            self.channels[channel] = if value > MAX_SAMPLE { MAX_SAMPLE } else { value };
        }
    }

    /// CS.EN is set.
    pub fn is_enabled(&self) -> (r: bool)
        ensures
            r == (self.cs & cs::EN != 0),
    {
        (self.cs & cs::EN) != 0
    }

    /// Input selected by CS.AINSEL.
    pub fn get_channel(&self) -> (r: usize)
        ensures
            r == self@.channel(),
            r < 8,
    {
        proof {
            lemma_channel_bound(self.cs);
        }
        ((self.cs & cs::AINSEL_MASK) >> cs::AINSEL_SHIFT) as usize
    }

    /// CS.TS_EN is set.
    pub fn is_temp_sensor_enabled(&self) -> (r: bool)
        ensures
            r == self@.ts_enabled(),
    {
        (self.cs & cs::TS_EN) != 0
    }

    /// CS.READY is set.
    pub fn is_ready(&self) -> (r: bool)
        ensures
            r == (self.cs & cs::READY != 0),
    {
        (self.cs & cs::READY) != 0
    }

    /// Start a single conversion.
    pub fn start_once(&mut self)
        requires
            old(self).wf(),
            old(self)@.can_convert(),
        ensures
            final(self).wf(),
            final(self)@ == (AdcState { cs: old(self).cs | cs::START_ONCE, ..old(self)@ }).converted(),
    {
        proof {
            let c = self.cs;
            assert(((c | 0x4u32) & 0x7000u32) == (c & 0x7000u32) && ((c | 0x4u32) & 0x2u32) == (c
                & 0x2u32)) by (bit_vector);
        }
        self.cs = self.cs | cs::START_ONCE;
        self.do_conversion();
    }

    /// Perform one conversion.
    fn do_conversion(&mut self)
        requires
            old(self).wf(),
            old(self)@.can_convert(),
        ensures
            final(self).wf(),
            final(self)@ == old(self)@.converted(),
    {
        let channel = self.get_channel();
        let value = if channel == 4 || self.is_temp_sensor_enabled() {
            self.channels[4]
        } else {
            self.channels[channel]
        };
        self.result = value;
        self.cs = self.cs | cs::READY;
        if (self.fcs & fcs::EN) != 0 && self.fifo.len() < FIFO_DEPTH {
            self.fifo.push(value);
        }
        self.cs = self.cs & !cs::START_ONCE;
    }

    /// Continuous mode: convert when START_MANY and EN are both set.
    pub fn tick(&mut self)
        requires
            old(self).wf(),
            old(self)@.ticking() ==> old(self)@.can_convert(),
        ensures
            final(self).wf(),
            final(self)@ == if old(self)@.ticking() {
                old(self)@.converted()
            } else {
                old(self)@
            },
    {
        if (self.cs & cs::START_MANY) != 0 && self.is_enabled() {
            self.do_conversion();
        }
    }

    /// Take the oldest FIFO entry; an empty FIFO reads as the error bit.
    fn read_fifo(&mut self) -> (r: u32)
        requires
            old(self).wf(),
        ensures
            final(self).wf(),
            r == old(self)@.read_value(regs::FIFO),
            final(self)@ == old(self)@.after_read(regs::FIFO),
    {
        if self.fifo.len() > 0 {
            let val = self.fifo.remove(0);
            val as u32
        } else {
            FIFO_EMPTY_ERR
        }
    }

    /// An enabled interrupt is raised, or one is forced.
    pub fn has_interrupt(&self) -> (r: bool)
        ensures
            r == ((self.intr & self.inte) != 0 || self.intf != 0),
    {
        (self.intr & self.inte) != 0 || self.intf != 0
    }

    /// Register read.
    pub fn read(&mut self, addr: u32) -> (r: u32)
        requires
            old(self).wf(),
            addr >= ADC_BASE,
        ensures
            final(self).wf(),
            r == old(self)@.read_value((addr - ADC_BASE) as u32),
            final(self)@ == old(self)@.after_read((addr - ADC_BASE) as u32),
    {
        let offset = addr - ADC_BASE;
        if offset == regs::CS {
            self.cs
        } else if offset == regs::RESULT {
            self.result as u32
        } else if offset == regs::FCS {
            let full: u32 = if self.fifo.len() >= FIFO_DEPTH { fcs::FULL } else { 0 };
            let empty: u32 = if self.fifo.len() == 0 { fcs::EMPTY } else { 0 };
            ((self.fcs | full) | empty) | ((self.fifo.len() as u32) << 24u32)
        } else if offset == regs::FIFO {
            self.read_fifo()
        } else if offset == regs::DIV {
            self.div
        } else if offset == regs::INTR {
            self.intr
        } else if offset == regs::INTE {
            self.inte
        } else if offset == regs::INTF {
            self.intf
        } else if offset == regs::INTS {
            (self.intr & self.inte) | self.intf
        } else {
            0
        }
    }

    /// Register write.
    pub fn write(&mut self, addr: u32, value: u32)
        requires
            old(self).wf(),
            addr >= ADC_BASE,
            old(self)@.write_ok((addr - ADC_BASE) as u32, value),
        ensures
            final(self).wf(),
            final(self)@ == old(self)@.after_write((addr - ADC_BASE) as u32, value),
    {
        let offset = addr - ADC_BASE;
        if offset == regs::CS {
            let old_cs = self.cs;
            self.cs = value & CS_WRITE_MASK;
            if (value & cs::START_ONCE) != 0 && (old_cs & cs::START_ONCE) == 0 {
                self.do_conversion();
            }
        } else if offset == regs::FCS {
            self.fcs = value & FCS_WRITE_MASK;
        } else if offset == regs::DIV {
            self.div = value;
        } else if offset == regs::INTR {
            self.intr = self.intr & !value;
        } else if offset == regs::INTE {
            self.inte = value & 0x03;
        } else if offset == regs::INTF {
            self.intf = value & 0x03;
        }
    }

    /// Return to the power-on state.
    pub fn reset(&mut self)
        ensures
            final(self)@ == AdcState::initial(),
            final(self).wf(),
    {
        *self = Adc::new();
    }
}

impl Default for Adc {
    fn default() -> (r: Self)
        ensures
            r@ == AdcState::initial(),
    {
        Adc::new()
    }
}

} // verus!
