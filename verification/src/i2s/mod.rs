//! I2S audio controller: format decoding, sample FIFOs and clock configuration.
use vstd::prelude::*;

use crate::device::DeviceId;

pub mod ctrl;
pub mod fmt;
pub mod regs;

verus! {

/// I2S base addresses.
pub const I2S0_BASE: u32 = 0x5000_8000;

pub const I2S1_BASE: u32 = 0x5000_C000;

/// FIFO depth.
pub const FIFO_DEPTH: usize = 32;

/// Data width.
#[derive(Debug, Clone, Copy, PartialEq, Eq, Structural)]
pub enum DataWidth {
    Bits8,
    Bits16,
    Bits24,
    Bits32,
}

impl Default for DataWidth {
    fn default() -> (r: Self)
        ensures
            r == DataWidth::Bits16,
    {
        DataWidth::Bits16
    }
}

/// Audio format.
#[derive(Debug, Clone, Copy, PartialEq, Eq, Structural)]
pub enum AudioFormat {
    I2S,
    LeftJustified,
    RightJustified,
}

impl Default for AudioFormat {
    fn default() -> (r: Self)
        ensures
            r == AudioFormat::I2S,
    {
        AudioFormat::I2S
    }
}

/// Data width that FMT bits 2:0 select (unknown encodings select 16 bits).
pub open spec fn width_from(bits: u32) -> DataWidth {
    if bits == 0 {
        DataWidth::Bits8
    } else if bits == 2 {
        DataWidth::Bits24
    } else if bits == 3 {
        DataWidth::Bits32
    } else {
        DataWidth::Bits16
    }
}

/// Audio format that FMT bits 6:5 select (the reserved encoding selects I2S).
pub open spec fn format_from(bits: u32) -> AudioFormat {
    if bits == 1 {
        AudioFormat::LeftJustified
    } else if bits == 2 {
        AudioFormat::RightJustified
    } else {
        AudioFormat::I2S
    }
}

/// Channel count that FMT bits 4:3 select.
pub open spec fn channels_from(bits: u32) -> u8 {
    if bits == 0 {
        1
    } else if bits == 1 {
        2
    } else if bits == 2 {
        4
    } else if bits == 3 {
        8
    } else {
        2
    }
}

/// Packed stereo sample: left in the low half, right in the high half.
pub open spec fn pack_sample(left: i16, right: i16) -> u32 {
    ((left as u32) & 0xFFFF) | ((right as u32) << 16u32)
}

/// Left and right halves of a packed sample.
pub open spec fn unpack_sample(sample: u32) -> (i16, i16) {
    ((sample & 0xFFFF) as i16, ((sample >> 16u32) & 0xFFFF) as i16)
}

/// I2S channel state. The FIFOs hand out the oldest queued word first.
#[derive(Debug, Clone)]
pub struct I2sChannel {
    pub tx_fifo: Vec<u32>,
    pub rx_fifo: Vec<u32>,
    pub tx_enabled: bool,
    pub rx_enabled: bool,
    pub tx_pause: bool,
    pub rx_pause: bool,
    pub tx_count: u64,
    pub rx_count: u64,
}

impl Default for I2sChannel {
    fn default() -> (r: Self)
        ensures
            r.tx_fifo@.len() == 0,
            r.rx_fifo@.len() == 0,
            !r.tx_enabled && !r.rx_enabled && !r.tx_pause && !r.rx_pause,
            r.tx_count == 0 && r.rx_count == 0,
    {
        I2sChannel {
            tx_fifo: Vec::with_capacity(FIFO_DEPTH),
            rx_fifo: Vec::with_capacity(FIFO_DEPTH),
            tx_enabled: false,
            rx_enabled: false,
            tx_pause: false,
            rx_pause: false,
            tx_count: 0,
            rx_count: 0,
        }
    }
}

/// I2S controller.
#[derive(Debug)]
pub struct I2s {
    pub id: u8,
    pub base: u32,
    pub ctrl: u32,
    pub fmt: u32,
    pub intcr: u32,
    pub intsr: u32,
    pub dma: u32,
    pub clock_enabled: bool,
    pub ratio: u32,
    pub data_width: DataWidth,
    pub audio_format: AudioFormat,
    pub channels: u8,
    pub channel: I2sChannel,
    pub sample_rate: u32,
    pub mclk_freq: u32,
}

/// Abstract state of the controller.
#[verifier::ext_equal]
pub ghost struct I2sState {
    pub id: u8,
    pub base: u32,
    pub ctrl: u32,
    pub fmt: u32,
    pub intcr: u32,
    pub intsr: u32,
    pub dma: u32,
    pub clock_enabled: bool,
    pub ratio: u32,
    pub data_width: DataWidth,
    pub audio_format: AudioFormat,
    pub channels: u8,
    pub tx_fifo: Seq<u32>,
    pub rx_fifo: Seq<u32>,
    pub tx_enabled: bool,
    pub rx_enabled: bool,
    pub tx_pause: bool,
    pub rx_pause: bool,
    pub tx_count: u64,
    pub rx_count: u64,
    pub sample_rate: u32,
    pub mclk_freq: u32,
}

impl View for I2s {
    type V = I2sState;

    open spec fn view(&self) -> I2sState {
        I2sState {
            id: self.id,
            base: self.base,
            ctrl: self.ctrl,
            fmt: self.fmt,
            intcr: self.intcr,
            intsr: self.intsr,
            dma: self.dma,
            clock_enabled: self.clock_enabled,
            ratio: self.ratio,
            data_width: self.data_width,
            audio_format: self.audio_format,
            channels: self.channels,
            tx_fifo: self.channel.tx_fifo@,
            rx_fifo: self.channel.rx_fifo@,
            tx_enabled: self.channel.tx_enabled,
            rx_enabled: self.channel.rx_enabled,
            tx_pause: self.channel.tx_pause,
            rx_pause: self.channel.rx_pause,
            tx_count: self.channel.tx_count,
            rx_count: self.channel.rx_count,
            sample_rate: self.sample_rate,
            mclk_freq: self.mclk_freq,
        }
    }
}

impl I2sState {
    pub open spec fn initial(id: u8) -> I2sState {
        I2sState {
            id: id,
            base: if id == 0 { I2S0_BASE } else { I2S1_BASE },
            ctrl: 0,
            fmt: 0x8,
            intcr: 0,
            intsr: 0,
            dma: 0,
            clock_enabled: false,
            ratio: 256,
            data_width: DataWidth::Bits16,
            audio_format: AudioFormat::I2S,
            channels: 2,
            tx_fifo: Seq::empty(),
            rx_fifo: Seq::empty(),
            tx_enabled: false,
            rx_enabled: false,
            tx_pause: false,
            rx_pause: false,
            tx_count: 0,
            rx_count: 0,
            sample_rate: 48000,
            mclk_freq: 12_288_000,
        }
    }

    pub open spec fn enabled(self) -> bool {
        self.ctrl & ctrl::I2S_EN != 0
    }

    pub open spec fn tx_on(self) -> bool {
        self.ctrl & ctrl::TX_EN != 0 && self.tx_enabled
    }

    pub open spec fn rx_on(self) -> bool {
        self.ctrl & ctrl::RX_EN != 0 && self.rx_enabled
    }

    /// The master clock for `ratio` and `rate` fits in 32 bits.
    pub open spec fn mclk_ok(ratio: u32, rate: u32) -> bool {
        ratio * rate <= u32::MAX
    }

    pub open spec fn with_rate(self, rate: u32) -> I2sState {
        I2sState { sample_rate: rate, mclk_freq: (self.ratio * rate) as u32, ..self }
    }

    /// A word is queued for transmit when there is room, and counted.
    pub open spec fn after_tx_write(self, data: u32) -> I2sState {
        if self.tx_fifo.len() < FIFO_DEPTH {
            I2sState {
                tx_fifo: self.tx_fifo.push(data),
                tx_count: (self.tx_count + 1) as u64,
                ..self
            }
        } else {
            self
        }
    }

    pub open spec fn rx_popped(self) -> Option<u32> {
        if self.rx_fifo.len() > 0 {
            Some(self.rx_fifo[0])
        } else {
            None
        }
    }

    pub open spec fn after_rx_read(self) -> I2sState {
        if self.rx_fifo.len() > 0 {
            I2sState {
                rx_fifo: self.rx_fifo.drop_first(),
                rx_count: (self.rx_count + 1) as u64,
                ..self
            }
        } else {
            self
        }
    }

    pub open spec fn with_format(self, value: u32) -> I2sState {
        I2sState {
            fmt: value,
            data_width: width_from((value >> fmt::DATA_WIDTH_SHIFT) & fmt::DATA_WIDTH_MASK),
            audio_format: format_from((value >> fmt::FORMAT_SHIFT) & 0x3),
            channels: channels_from((value >> fmt::CHANNELS_SHIFT) & 0x3),
            ..self
        }
    }

    /// Counters and the master clock stay in range across a register write.
    pub open spec fn write_ok(self, offset: u32, value: u32) -> bool {
        &&& offset == regs::TXDR && self.tx_fifo.len() < FIFO_DEPTH ==> self.tx_count < u64::MAX
        &&& offset == regs::CLOCK ==> Self::mclk_ok(self.ratio, value)
        &&& offset == regs::RATIO ==> Self::mclk_ok(value, self.sample_rate)
    }

    pub open spec fn read_ok(self, offset: u32) -> bool {
        offset == regs::RXDR && self.rx_fifo.len() > 0 ==> self.rx_count < u64::MAX
    }

    pub open spec fn read_value(self, offset: u32) -> u32 {
        if offset == regs::CTRL {
            self.ctrl
        } else if offset == regs::FMT {
            self.fmt
        } else if offset == regs::INTCR {
            self.intcr
        } else if offset == regs::INTSR {
            self.intsr
        } else if offset == regs::DMA {
            self.dma
        } else if offset == regs::RXDR {
            match self.rx_popped() {
                Some(v) => v,
                None => 0,
            }
        } else if offset == regs::TXFIFOLR {
            self.tx_fifo.len() as u32
        } else if offset == regs::RXFIFOLR {
            self.rx_fifo.len() as u32
        } else if offset == regs::IER {
            if self.enabled() { 1 } else { 0 }
        } else if offset == regs::IRER {
            if self.rx_on() { 1 } else { 0 }
        } else if offset == regs::ITER {
            if self.tx_on() { 1 } else { 0 }
        } else if offset == regs::CER {
            if self.clock_enabled { 1 } else { 0 }
        } else if offset == regs::CLOCK {
            self.sample_rate
        } else if offset == regs::RATIO {
            self.ratio
        } else {
            0
        }
    }

    pub open spec fn after_read(self, offset: u32) -> I2sState {
        if offset == regs::RXDR {
            self.after_rx_read()
        } else {
            self
        }
    }

    pub open spec fn after_write(self, offset: u32, value: u32) -> I2sState {
        if offset == regs::CTRL {
            I2sState {
                ctrl: value,
                tx_enabled: value & ctrl::TX_EN != 0,
                rx_enabled: value & ctrl::RX_EN != 0,
                tx_pause: value & ctrl::TX_PAUSE != 0,
                rx_pause: value & ctrl::RX_PAUSE != 0,
                ..self
            }
        } else if offset == regs::FMT {
            self.with_format(value)
        } else if offset == regs::INTCR {
            I2sState { intcr: value, ..self }
        } else if offset == regs::CLR {
            I2sState { tx_fifo: Seq::empty(), rx_fifo: Seq::empty(), ..self }
        } else if offset == regs::DMA {
            I2sState { dma: value, ..self }
        } else if offset == regs::TXDR {
            self.after_tx_write(value)
        } else if offset == regs::IER {
            I2sState {
                ctrl: if value & 1 != 0 { self.ctrl | ctrl::I2S_EN } else { self.ctrl & !ctrl::I2S_EN },
                ..self
            }
        } else if offset == regs::IRER {
            I2sState { rx_enabled: value & 1 != 0, ..self }
        } else if offset == regs::ITER {
            I2sState { tx_enabled: value & 1 != 0, ..self }
        } else if offset == regs::CER {
            I2sState { clock_enabled: value & 1 != 0, ..self }
        } else if offset == regs::CLOCK {
            self.with_rate(value)
        } else if offset == regs::RATIO {
            I2sState { ratio: value, mclk_freq: (value * self.sample_rate) as u32, ..self }
        } else {
            self
        }
    }
}

/// A sample pushed into the receive FIFO is read back whole, and its halves
/// unpack to the pushed left and right values.
pub proof fn lemma_sample_round_trip(left: i16, right: i16)
    ensures
        unpack_sample(pack_sample(left, right)) == (left, right),
{
    let l = left;
    let r = right;
    assert((((((l as u32) & 0xFFFF) | ((r as u32) << 16u32)) & 0xFFFF) as i16) == l && (((((((
    l as u32) & 0xFFFF) | ((r as u32) << 16u32)) >> 16u32) & 0xFFFF) as i16) == r)) by (bit_vector);
}

impl I2s {
    /// Create controller 0 or 1 (any id other than 0 selects 1's address).
    pub fn new(id: u8) -> (r: Self)
        ensures
            r@ == I2sState::initial(id),
    {
        I2s {
            id: id,
            base: if id == 0 { I2S0_BASE } else { I2S1_BASE },
            ctrl: 0,
            fmt: 0x8,
            intcr: 0,
            intsr: 0,
            dma: 0,
            clock_enabled: false,
            ratio: 256,
            data_width: DataWidth::Bits16,
            audio_format: AudioFormat::I2S,
            channels: 2,
            channel: I2sChannel::default(),
            sample_rate: 48000,
            mclk_freq: 12_288_000,
        }
    }

    /// Device identifier.
    pub fn id(&self) -> (r: DeviceId)
        ensures
            r == DeviceId::I2S,
    {
        DeviceId::I2S
    }

    /// Base address.
    pub fn base(&self) -> (r: u32)
        ensures
            r == self.base,
    {
        self.base
    }

    /// CTRL.I2S_EN is set.
    pub fn is_enabled(&self) -> (r: bool)
        ensures
            r == self@.enabled(),
    {
        (self.ctrl & ctrl::I2S_EN) != 0
    }

    /// CTRL.TX_EN and the channel's transmit enable are both set.
    pub fn is_tx_enabled(&self) -> (r: bool)
        ensures
            r == self@.tx_on(),
    {
        (self.ctrl & ctrl::TX_EN) != 0 && self.channel.tx_enabled
    }

    /// CTRL.RX_EN and the channel's receive enable are both set.
    pub fn is_rx_enabled(&self) -> (r: bool)
        ensures
            r == self@.rx_on(),
    {
        (self.ctrl & ctrl::RX_EN) != 0 && self.channel.rx_enabled
    }

    /// Data width.
    pub fn get_data_width(&self) -> (r: DataWidth)
        ensures
            r == self.data_width,
    {
        self.data_width
    }

    /// Audio format.
    pub fn get_audio_format(&self) -> (r: AudioFormat)
        ensures
            r == self.audio_format,
    {
        self.audio_format
    }

    /// Sample rate in Hz.
    pub fn get_sample_rate(&self) -> (r: u32)
        ensures
            r == self.sample_rate,
    {
        self.sample_rate
    }

    /// Set the sample rate; the master clock becomes ratio times the rate.
    pub fn set_sample_rate(&mut self, rate: u32)
        requires
            I2sState::mclk_ok(old(self).ratio, rate),
        ensures
            final(self)@ == old(self)@.with_rate(rate),
    {
        self.sample_rate = rate;
        self.mclk_freq = self.ratio * rate;
    }

    /// Words in the transmit FIFO.
    pub fn tx_fifo_level(&self) -> (r: usize)
        ensures
            r == self@.tx_fifo.len(),
    {
        self.channel.tx_fifo.len()
    }

    /// Words in the receive FIFO.
    pub fn rx_fifo_level(&self) -> (r: usize)
        ensures
            r == self@.rx_fifo.len(),
    {
        self.channel.rx_fifo.len()
    }

    /// Queue a word for transmit; false when the FIFO is full.
    pub fn write_tx_fifo(&mut self, data: u32) -> (r: bool)
        requires
            old(self)@.tx_fifo.len() < FIFO_DEPTH ==> old(self).channel.tx_count < u64::MAX,
        ensures
            r == (old(self)@.tx_fifo.len() < FIFO_DEPTH),
            final(self)@ == old(self)@.after_tx_write(data),
    {
        if self.channel.tx_fifo.len() < FIFO_DEPTH {
            self.channel.tx_fifo.push(data);
            self.channel.tx_count = self.channel.tx_count + 1;
            true
        } else {
            false
        }
    }

    /// Take the oldest received word.
    pub fn read_rx_fifo(&mut self) -> (r: Option<u32>)
        requires
            old(self)@.rx_fifo.len() > 0 ==> old(self).channel.rx_count < u64::MAX,
        ensures
            r == old(self)@.rx_popped(),
            final(self)@ == old(self)@.after_rx_read(),
    {
        if self.channel.rx_fifo.len() > 0 {
            let data = self.channel.rx_fifo.remove(0);
            self.channel.rx_count = self.channel.rx_count + 1;
            Some(data)
        } else {
            None
        }
    }

    /// Simulated input: queue a stereo sample when the receive FIFO has room.
    pub fn push_rx_sample(&mut self, left: i16, right: i16)
        ensures
            final(self)@ == if old(self)@.rx_fifo.len() < FIFO_DEPTH {
                I2sState { rx_fifo: old(self)@.rx_fifo.push(pack_sample(left, right)), ..old(self)@ }
            } else {
                old(self)@
            },
    {
        if self.channel.rx_fifo.len() < FIFO_DEPTH {
            let sample = ((left as u32) & 0xFFFF) | ((right as u32) << 16u32);
            self.channel.rx_fifo.push(sample);
        }
    }

    /// Simulated output: take the oldest queued transmit word as a stereo sample.
    pub fn pop_tx_sample(&mut self) -> (r: Option<(i16, i16)>)
        ensures
            r == if old(self)@.tx_fifo.len() > 0 {
                Some(unpack_sample(old(self)@.tx_fifo[0]))
            } else {
                None
            },
            final(self)@ == if old(self)@.tx_fifo.len() > 0 {
                I2sState { tx_fifo: old(self)@.tx_fifo.drop_first(), ..old(self)@ }
            } else {
                old(self)@
            },
    {
        if self.channel.tx_fifo.len() > 0 {
            let sample = self.channel.tx_fifo.remove(0);
            let left = (sample & 0xFFFF) as i16;
            let right = ((sample >> 16u32) & 0xFFFF) as i16;
            Some((left, right))
        } else {
            None
        }
    }

    /// Empty both FIFOs.
    pub fn clear_fifos(&mut self)
        ensures
            final(self)@ == (I2sState { tx_fifo: Seq::empty(), rx_fifo: Seq::empty(), ..old(self)@ }),
    {
        self.channel.tx_fifo.clear();
        self.channel.rx_fifo.clear();
    }

    /// Advance the audio clock; no state changes in this model.
    pub fn tick(&mut self)
        ensures
            final(self)@ == old(self)@,
    {
        if !self.is_enabled() || !self.clock_enabled {
            return;
        }
    }

    /// An enabled interrupt is raised.
    pub fn has_interrupt(&self) -> (r: bool)
        ensures
            r == ((self.intsr & self.intcr) != 0),
    {
        (self.intsr & self.intcr) != 0
    }

    /// Decode FMT into width, format and channel count.
    fn update_format(&mut self)
        ensures
            final(self)@ == old(self)@.with_format(old(self).fmt),
    {
        let width_bits = (self.fmt >> fmt::DATA_WIDTH_SHIFT) & fmt::DATA_WIDTH_MASK;
        self.data_width = if width_bits == 0 {
            DataWidth::Bits8
        } else if width_bits == 2 {
            DataWidth::Bits24
        } else if width_bits == 3 {
            DataWidth::Bits32
        } else {
            DataWidth::Bits16
        };
        let format_bits = (self.fmt >> fmt::FORMAT_SHIFT) & 0x3;
        self.audio_format = if format_bits == 1 {
            AudioFormat::LeftJustified
        } else if format_bits == 2 {
            AudioFormat::RightJustified
        } else {
            AudioFormat::I2S
        };
        let ch_bits = (self.fmt >> fmt::CHANNELS_SHIFT) & 0x3;
        self.channels = if ch_bits == 0 {
            1
        } else if ch_bits == 1 {
            2
        } else if ch_bits == 2 {
            4
        } else if ch_bits == 3 {
            8
        } else {
            2
        };
    }

    /// Register read; reading RXDR takes a received word (0 when empty).
    pub fn read(&mut self, addr: u32) -> (r: u32)
        requires
            addr >= old(self).base,
            old(self)@.read_ok((addr - old(self).base) as u32),
        ensures
            r == old(self)@.read_value((addr - old(self).base) as u32),
            final(self)@ == old(self)@.after_read((addr - old(self).base) as u32),
    {
        let offset = addr - self.base;
        if offset == regs::CTRL {
            self.ctrl
        } else if offset == regs::FMT {
            self.fmt
        } else if offset == regs::INTCR {
            self.intcr
        } else if offset == regs::INTSR {
            self.intsr
        } else if offset == regs::DMA {
            self.dma
        } else if offset == regs::RXDR {
            match self.read_rx_fifo() {
                Some(v) => v,
                None => 0,
            }
        } else if offset == regs::TXFIFOLR {
            self.channel.tx_fifo.len() as u32
        } else if offset == regs::RXFIFOLR {
            self.channel.rx_fifo.len() as u32
        } else if offset == regs::IER {
            if self.is_enabled() { 1 } else { 0 }
        } else if offset == regs::IRER {
            if self.is_rx_enabled() { 1 } else { 0 }
        } else if offset == regs::ITER {
            if self.is_tx_enabled() { 1 } else { 0 }
        } else if offset == regs::CER {
            if self.clock_enabled { 1 } else { 0 }
        } else if offset == regs::CLOCK {
            self.sample_rate
        } else if offset == regs::RATIO {
            self.ratio
        } else {
            0
        }
    }

    /// Register write.
    pub fn write(&mut self, addr: u32, value: u32)
        requires
            addr >= old(self).base,
            old(self)@.write_ok((addr - old(self).base) as u32, value),
        ensures
            final(self)@ == old(self)@.after_write((addr - old(self).base) as u32, value),
    {
        let offset = addr - self.base;
        if offset == regs::CTRL {
            self.ctrl = value;
            self.channel.tx_enabled = (value & ctrl::TX_EN) != 0;
            self.channel.rx_enabled = (value & ctrl::RX_EN) != 0;
            self.channel.tx_pause = (value & ctrl::TX_PAUSE) != 0;
            self.channel.rx_pause = (value & ctrl::RX_PAUSE) != 0;
        } else if offset == regs::FMT {
            self.fmt = value;
            self.update_format();
        } else if offset == regs::INTCR {
            self.intcr = value;
        } else if offset == regs::CLR {
            self.clear_fifos();
        } else if offset == regs::DMA {
            self.dma = value;
        } else if offset == regs::TXDR {
            self.write_tx_fifo(value);
        } else if offset == regs::IER {
            if value & 1 != 0 {
                self.ctrl = self.ctrl | ctrl::I2S_EN;
            } else {
                self.ctrl = self.ctrl & !ctrl::I2S_EN;
            }
        } else if offset == regs::IRER {
            self.channel.rx_enabled = value & 1 != 0;
        } else if offset == regs::ITER {
            self.channel.tx_enabled = value & 1 != 0;
        } else if offset == regs::CER {
            self.clock_enabled = value & 1 != 0;
        } else if offset == regs::CLOCK {
            self.set_sample_rate(value);
        } else if offset == regs::RATIO {
            self.ratio = value;
            self.mclk_freq = self.ratio * self.sample_rate;
        }
    }

    /// Return to the power-on state, keeping the id and base address.
    pub fn reset(&mut self)
        ensures
            final(self)@ == (I2sState { id: old(self).id, base: old(self).base, ..I2sState::initial(old(self).id) }),
    {
        let id = self.id;
        let base = self.base;
        *self = I2s::new(id);
        self.base = base;
    }
}

impl Default for I2s {
    fn default() -> (r: Self)
        ensures
            r@ == I2sState::initial(0),
    {
        I2s::new(0)
    }
}

} // verus!
