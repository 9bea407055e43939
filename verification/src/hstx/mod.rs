//! HSTX high-speed transmitter: a 64-entry pixel FIFO, line/frame timing and
//! set/clear register aliases.
use vstd::prelude::*;

use crate::device::DeviceId;

pub mod cs;
pub mod fifocfg;
pub mod fifostat;
pub mod irq;
pub mod regs;

verus! {

/// HSTX base address.
pub const HSTX_BASE: u32 = 0x5004_0000;

/// HSTX FIFO depth.
pub const FIFO_DEPTH: usize = 64;

/// HSTX mode.
#[derive(Debug, Clone, Copy, PartialEq, Eq, Structural)]
pub enum HstxMode {
    Disabled,
    Dvi,
    Custom,
}

impl Default for HstxMode {
    fn default() -> (r: Self)
        ensures
            r == HstxMode::Disabled,
    {
        HstxMode::Disabled
    }
}

/// HSTX channel configuration.
#[derive(Debug, Clone, Copy)]
pub struct HstxChannel {
    pub enabled: bool,
    pub invert: bool,
    pub clock_div: u16,
    pub bit_mode: bool,
}

impl Default for HstxChannel {
    fn default() -> (r: Self)
        ensures
            r == (HstxChannel { enabled: false, invert: false, clock_div: 0, bit_mode: false }),
    {
        HstxChannel { enabled: false, invert: false, clock_div: 0, bit_mode: false }
    }
}

/// HSTX peripheral. The FIFO is a ring buffer of `FIFO_DEPTH` words.
#[derive(Debug)]
pub struct Hstx {
    pub cs: u32,
    pub irq: u32,
    pub irqe: u32,
    pub fifocfg: u32,
    pub fifostat: u32,
    pub fifo: [u32; 64],
    pub fifo_wr: usize,
    pub fifo_rd: usize,
    pub fifo_count: usize,
    pub bit: u32,
    pub slow: u32,
    pub expand: u32,
    pub vsync: u32,
    pub hsync: u32,
    pub line: u32,
    pub line_vsync: u32,
    pub line_hsync: u32,
    pub line_first: u32,
    pub line_last: u32,
    pub slowest: u32,
    pub gpoa: u32,
    pub gpob: u32,
    pub mode: HstxMode,
    pub channels: [HstxChannel; 4],
    pub current_line: u32,
    pub current_pixel: u32,
    pub total_lines: u32,
    pub total_pixels: u32,
}

/// Abstract state of the HSTX: the registers and the FIFO contents, oldest first.
#[verifier::ext_equal]
pub ghost struct HstxState {
    pub cs: u32,
    pub irq: u32,
    pub irqe: u32,
    pub fifocfg: u32,
    pub fifostat: u32,
    pub queue: Seq<u32>,
    pub bit: u32,
    pub slow: u32,
    pub expand: u32,
    pub vsync: u32,
    pub hsync: u32,
    pub line: u32,
    pub line_vsync: u32,
    pub line_hsync: u32,
    pub line_first: u32,
    pub line_last: u32,
    pub slowest: u32,
    pub gpoa: u32,
    pub gpob: u32,
    pub mode: HstxMode,
    pub channels: Seq<HstxChannel>,
    pub current_line: u32,
    pub current_pixel: u32,
    pub total_lines: u32,
    pub total_pixels: u32,
}

impl View for Hstx {
    type V = HstxState;

    open spec fn view(&self) -> HstxState {
        HstxState {
            cs: self.cs,
            irq: self.irq,
            irqe: self.irqe,
            fifocfg: self.fifocfg,
            fifostat: self.fifostat,
            queue: Seq::new(
                self.fifo_count as nat,
                |k: int| self.fifo@[(self.fifo_rd + k) % (FIFO_DEPTH as int)],
            ),
            bit: self.bit,
            slow: self.slow,
            expand: self.expand,
            vsync: self.vsync,
            hsync: self.hsync,
            line: self.line,
            line_vsync: self.line_vsync,
            line_hsync: self.line_hsync,
            line_first: self.line_first,
            line_last: self.line_last,
            slowest: self.slowest,
            gpoa: self.gpoa,
            gpob: self.gpob,
            mode: self.mode,
            channels: self.channels@,
            current_line: self.current_line,
            current_pixel: self.current_pixel,
            total_lines: self.total_lines,
            total_pixels: self.total_pixels,
        }
    }
}

impl HstxState {
    pub open spec fn initial() -> HstxState {
        HstxState {
            cs: 0,
            irq: 0,
            irqe: 0,
            fifocfg: 32,
            fifostat: fifostat::EMPTY,
            queue: Seq::empty(),
            bit: 0,
            slow: 0,
            expand: 0,
            vsync: 0,
            hsync: 0,
            line: 0,
            line_vsync: 0,
            line_hsync: 0,
            line_first: 0,
            line_last: 0,
            slowest: 0,
            gpoa: 0,
            gpob: 0,
            mode: HstxMode::Disabled,
            channels: Seq::new(
                4,
                |i: int| HstxChannel { enabled: false, invert: false, clock_div: 0, bit_mode: false },
            ),
            current_line: 0,
            current_pixel: 0,
            total_lines: 525,
            total_pixels: 800,
        }
    }

    pub open spec fn enabled(self) -> bool {
        self.cs & cs::EN != 0
    }

    pub open spec fn threshold(self) -> u32 {
        (self.fifocfg >> fifocfg::THRESH_SHIFT) & fifocfg::THRESH_MASK
    }

    /// Status after the FIFO level changed: EMPTY and FULL follow the level, the
    /// LEVEL field holds the level, and the FIFO interrupt is raised when the
    /// level is at or below the threshold.
    pub open spec fn status_updated(self) -> HstxState {
        let level = self.queue.len();
        let st0 = (self.fifostat & !((fifostat::EMPTY | fifostat::FULL) | fifostat::LEVEL_MASK)) | ((level as u32)
            << fifostat::LEVEL_SHIFT);
        let st1 = if level == 0 { st0 | fifostat::EMPTY } else { st0 };
        let st2 = if level >= FIFO_DEPTH { st1 | fifostat::FULL } else { st1 };
        HstxState {
            fifostat: st2,
            irq: if (level as u32) <= self.threshold() { self.irq | irq::FIFO } else { self.irq },
            ..self
        }
    }

    /// Push: appended unless the FIFO is full, which sets OVER instead.
    pub open spec fn after_push(self, data: u32) -> HstxState {
        if self.queue.len() >= FIFO_DEPTH {
            HstxState { fifostat: self.fifostat | fifostat::OVER, ..self }
        } else {
            HstxState { queue: self.queue.push(data), ..self }.status_updated()
        }
    }

    /// Pop: removes the oldest word unless the FIFO is empty, which sets UNDER instead.
    pub open spec fn after_pop(self) -> HstxState {
        if self.queue.len() == 0 {
            HstxState { fifostat: self.fifostat | fifostat::UNDER, ..self }
        } else {
            HstxState { queue: self.queue.drop_first(), ..self }.status_updated()
        }
    }

    pub open spec fn popped(self) -> Option<u32> {
        if self.queue.len() == 0 {
            None
        } else {
            Some(self.queue[0])
        }
    }

    /// Shifting out a pixel cannot overflow the pixel or line counters.
    pub open spec fn pixel_ok(self) -> bool {
        self.enabled() && self.queue.len() > 0 ==> {
            &&& self.current_pixel < u32::MAX
            &&& self.current_pixel + 1 >= self.total_pixels ==> self.current_line < u32::MAX
        }
    }

    /// One pixel time: while enabled, a word leaves the FIFO and the pixel counter
    /// advances; at the end of a line the line counter advances and LINE and HSYNC
    /// are raised, and at the end of a frame the line counter wraps and VSYNC is raised.
    pub open spec fn after_pixel(self) -> HstxState {
        if !self.enabled() {
            self
        } else if self.queue.len() == 0 {
            self.after_pop()
        } else {
            let s = self.after_pop();
            let px = (self.current_pixel + 1) as u32;
            if px >= s.total_pixels {
                let ln = (self.current_line + 1) as u32;
                if ln >= s.total_lines {
                    HstxState {
                        current_pixel: 0,
                        current_line: 0,
                        irq: s.irq | irq::LINE | irq::VSYNC | irq::HSYNC,
                        ..s
                    }
                } else {
                    HstxState {
                        current_pixel: 0,
                        current_line: ln,
                        irq: s.irq | irq::LINE | irq::HSYNC,
                        ..s
                    }
                }
            } else {
                HstxState { current_pixel: px, ..s }
            }
        }
    }

    pub open spec fn read_value(self, offset: u32) -> u32 {
        if offset == regs::CS {
            self.cs
        } else if offset == regs::IRQ {
            self.irq
        } else if offset == regs::IRQE {
            self.irqe
        } else if offset == regs::FIFOCFG {
            self.fifocfg
        } else if offset == regs::FIFOSTAT {
            self.fifostat
        } else if offset == regs::FIFO {
            match self.popped() {
                Some(v) => v,
                None => 0,
            }
        } else if offset == regs::BIT {
            self.bit
        } else if offset == regs::SLOW {
            self.slow
        } else if offset == regs::EXPAND {
            self.expand
        } else if offset == regs::VSYNC {
            self.vsync
        } else if offset == regs::HSYNC {
            self.hsync
        } else if offset == regs::LINE {
            self.line
        } else if offset == regs::LINE_VSYNC {
            self.line_vsync
        } else if offset == regs::LINE_HSYNC {
            self.line_hsync
        } else if offset == regs::LINE_FIRST {
            self.line_first
        } else if offset == regs::LINE_LAST {
            self.line_last
        } else if offset == regs::SLOWEST {
            self.slowest
        } else if offset == regs::GPOA {
            self.gpoa
        } else if offset == regs::GPOB {
            self.gpob
        } else {
            0
        }
    }

    pub open spec fn after_read(self, offset: u32) -> HstxState {
        if offset == regs::FIFO {
            self.after_pop()
        } else {
            self
        }
    }

    /// Register write. The plain offset of most registers sets bits like its SET
    /// alias; IRQ, FIFOCFG, EXPAND, LINE, LINE_FIRST and LINE_LAST assign.
    pub open spec fn after_write(self, offset: u32, value: u32) -> HstxState {
        if offset == regs::CS || offset == regs::CS_SET {
            HstxState {
                cs: self.cs | value,
                mode: if value & cs::EN != 0 { HstxMode::Dvi } else { self.mode },
                ..self
            }
        } else if offset == regs::CS_CLR {
            HstxState {
                cs: self.cs & !value,
                mode: if value & cs::EN != 0 { HstxMode::Disabled } else { self.mode },
                ..self
            }
        } else if offset == regs::IRQ {
            HstxState { irq: value, ..self }
        } else if offset == regs::IRQ_SET {
            HstxState { irq: self.irq | value, ..self }
        } else if offset == regs::IRQ_CLR {
            HstxState { irq: self.irq & !value, ..self }
        } else if offset == regs::IRQE || offset == regs::IRQE_SET {
            HstxState { irqe: self.irqe | value, ..self }
        } else if offset == regs::IRQE_CLR {
            HstxState { irqe: self.irqe & !value, ..self }
        } else if offset == regs::FIFOCFG {
            HstxState { fifocfg: value, ..self }
        } else if offset == regs::FIFO {
            self.after_push(value)
        } else if offset == regs::BIT || offset == regs::BIT_SET {
            HstxState { bit: self.bit | value, ..self }
        } else if offset == regs::BIT_CLR {
            HstxState { bit: self.bit & !value, ..self }
        } else if offset == regs::SLOW || offset == regs::SLOW_SET {
            HstxState { slow: self.slow | value, ..self }
        } else if offset == regs::SLOW_CLR {
            HstxState { slow: self.slow & !value, ..self }
        } else if offset == regs::EXPAND {
            HstxState { expand: value, ..self }
        } else if offset == regs::EXPAND_SET {
            HstxState { expand: self.expand | value, ..self }
        } else if offset == regs::EXPAND_CLR {
            HstxState { expand: self.expand & !value, ..self }
        } else if offset == regs::VSYNC || offset == regs::VSYNC_SET {
            HstxState { vsync: self.vsync | value, ..self }
        } else if offset == regs::VSYNC_CLR {
            HstxState { vsync: self.vsync & !value, ..self }
        } else if offset == regs::HSYNC || offset == regs::HSYNC_SET {
            HstxState { hsync: self.hsync | value, ..self }
        } else if offset == regs::HSYNC_CLR {
            HstxState { hsync: self.hsync & !value, ..self }
        } else if offset == regs::LINE {
            HstxState { line: value, ..self }
        } else if offset == regs::LINE_SET {
            HstxState { line: self.line | value, ..self }
        } else if offset == regs::LINE_CLR {
            HstxState { line: self.line & !value, ..self }
        } else if offset == regs::LINE_VSYNC || offset == regs::LINE_VSYNC_SET {
            HstxState { line_vsync: self.line_vsync | value, ..self }
        } else if offset == regs::LINE_VSYNC_CLR {
            HstxState { line_vsync: self.line_vsync & !value, ..self }
        } else if offset == regs::LINE_HSYNC || offset == regs::LINE_HSYNC_SET {
            HstxState { line_hsync: self.line_hsync | value, ..self }
        } else if offset == regs::LINE_HSYNC_CLR {
            HstxState { line_hsync: self.line_hsync & !value, ..self }
        } else if offset == regs::LINE_FIRST {
            HstxState { line_first: value, ..self }
        } else if offset == regs::LINE_LAST {
            HstxState { line_last: value, ..self }
        } else if offset == regs::SLOWEST || offset == regs::SLOWEST_SET {
            HstxState { slowest: self.slowest | value, ..self }
        } else if offset == regs::SLOWEST_CLR {
            HstxState { slowest: self.slowest & !value, ..self }
        } else if offset == regs::GPOA || offset == regs::GPOA_SET {
            HstxState { gpoa: self.gpoa | value, ..self }
        } else if offset == regs::GPOA_CLR {
            HstxState { gpoa: self.gpoa & !value, ..self }
        } else if offset == regs::GPOB || offset == regs::GPOB_SET {
            HstxState { gpob: self.gpob | value, ..self }
        } else if offset == regs::GPOB_CLR {
            HstxState { gpob: self.gpob & !value, ..self }
        } else {
            self
        }
    }
}

/// After any change of level, the LEVEL field of FIFOSTAT reads the number of
/// queued words (below the depth, which needs the seventh bit).
pub proof fn lemma_level_field(s: HstxState)
    requires
        s.queue.len() < FIFO_DEPTH,
    ensures
        s.status_updated().fifostat & fifostat::LEVEL_MASK == s.queue.len(),
{
    let x = s.fifostat;
    let l = s.queue.len() as u32;
    assert(l < 64 ==> {
        let st0 = (x & !((0x100u32 | 0x200u32) | 0x3Fu32)) | (l << 0u32);
        &&& st0 & 0x3F == l
        &&& (st0 | 0x100u32) & 0x3F == l
        &&& (st0 | 0x200u32) & 0x3F == l
        &&& ((st0 | 0x100u32) | 0x200u32) & 0x3F == l
    }) by (bit_vector);
}

/// Words pushed into a FIFO with room come out in the order they went in.
pub proof fn lemma_fifo_order(s: HstxState, a: u32, b: u32)
    requires
        s.queue.len() + 2 <= FIFO_DEPTH,
    ensures
        s.after_push(a).after_push(b).queue == s.queue.push(a).push(b),
        s.queue.len() == 0 ==> s.after_push(a).after_push(b).popped() == Some(a),
        s.queue.len() == 0 ==> s.after_push(a).after_push(b).after_pop().popped() == Some(b),
{
}

impl Hstx {
    /// The ring pointers agree with the count.
    pub open spec fn wf(&self) -> bool {
        &&& self.fifo_count <= FIFO_DEPTH
        &&& self.fifo_rd < FIFO_DEPTH
        &&& self.fifo_wr == (self.fifo_rd + self.fifo_count) % (FIFO_DEPTH as int)
    }

    /// Create a new HSTX with VGA timing (525 lines of 800 pixels).
    pub fn new() -> (r: Self)
        ensures
            r@ == HstxState::initial(),
            r.wf(),
    {
        let r = Hstx {
            cs: 0,
            irq: 0,
            irqe: 0,
            fifocfg: 32,
            fifostat: fifostat::EMPTY,
            fifo: [0u32; 64],
            fifo_wr: 0,
            fifo_rd: 0,
            fifo_count: 0,
            bit: 0,
            slow: 0,
            expand: 0,
            vsync: 0,
            hsync: 0,
            line: 0,
            line_vsync: 0,
            line_hsync: 0,
            line_first: 0,
            line_last: 0,
            slowest: 0,
            gpoa: 0,
            gpob: 0,
            mode: HstxMode::Disabled,
            channels: [HstxChannel { enabled: false, invert: false, clock_div: 0, bit_mode: false }; 4],
            current_line: 0,
            current_pixel: 0,
            total_lines: 525,
            total_pixels: 800,
        };
        assert(r@ =~= HstxState::initial());
        r
    }

    /// Device identifier.
    pub fn id(&self) -> (r: DeviceId)
        ensures
            r == DeviceId::HSTX,
    {
        DeviceId::HSTX
    }

    /// CS.EN is set.
    pub fn is_enabled(&self) -> (r: bool)
        ensures
            r == self@.enabled(),
    {
        (self.cs & cs::EN) != 0
    }

    /// FIFO threshold.
    pub fn fifo_threshold(&self) -> (r: u32)
        ensures
            r == self@.threshold(),
    {
        (self.fifocfg >> fifocfg::THRESH_SHIFT) & fifocfg::THRESH_MASK
    }

    /// Words in the FIFO.
    pub fn fifo_level(&self) -> (r: usize)
        ensures
            r == self@.queue.len(),
    {
        self.fifo_count
    }

    /// The FIFO is empty.
    pub fn fifo_empty(&self) -> (r: bool)
        ensures
            r == (self@.queue.len() == 0),
    {
        self.fifo_count == 0
    }

    /// The FIFO is full.
    pub fn fifo_full(&self) -> (r: bool)
        ensures
            r == (self@.queue.len() >= FIFO_DEPTH),
    {
        self.fifo_count >= FIFO_DEPTH
    }

    fn update_fifostat(&mut self)
        requires
            old(self).wf(),
        ensures
            final(self).wf(),
            final(self)@ == old(self)@.status_updated(),
    {
        self.fifostat = (self.fifostat & !((fifostat::EMPTY | fifostat::FULL) | fifostat::LEVEL_MASK)) | ((self.fifo_count
            as u32) << fifostat::LEVEL_SHIFT);
        if self.fifo_empty() {
            self.fifostat = self.fifostat | fifostat::EMPTY;
        }
        if self.fifo_full() {
            self.fifostat = self.fifostat | fifostat::FULL;
        }
        if (self.fifo_count as u32) <= self.fifo_threshold() {
            self.irq = self.irq | irq::FIFO;
        }
    }

    /// Queue a word; false (and OVER set) when the FIFO is full.
    pub fn fifo_push(&mut self, data: u32) -> (r: bool)
        requires
            old(self).wf(),
        ensures
            final(self).wf(),
            r == (old(self)@.queue.len() < FIFO_DEPTH),
            final(self)@ == old(self)@.after_push(data),
    {
        if self.fifo_full() {
            self.fifostat = self.fifostat | fifostat::OVER;
            return false;
        }
        let ghost q = self@.queue;
        self.fifo[self.fifo_wr] = data;
        self.fifo_wr = (self.fifo_wr + 1) % FIFO_DEPTH;
        self.fifo_count = self.fifo_count + 1;
        assert(self@.queue =~= q.push(data));
        self.update_fifostat();
        true
    }

    /// Take the oldest word; none (and UNDER set) when the FIFO is empty.
    pub fn fifo_pop(&mut self) -> (r: Option<u32>)
        requires
            old(self).wf(),
        ensures
            final(self).wf(),
            r == old(self)@.popped(),
            final(self)@ == old(self)@.after_pop(),
    {
        if self.fifo_empty() {
            self.fifostat = self.fifostat | fifostat::UNDER;
            return None;
        }
        let ghost q = self@.queue;
        let data = self.fifo[self.fifo_rd];
        self.fifo_rd = (self.fifo_rd + 1) % FIFO_DEPTH;
        self.fifo_count = self.fifo_count - 1;
        assert forall|k: int| 0 <= k < self.fifo_count implies #[trigger] self@.queue[k] == q.drop_first()[k] by {
            assert((old(self).fifo_rd + k + 1) % 64 == (self.fifo_rd + k) % 64);
        }
        assert(self@.queue =~= q.drop_first());
        self.update_fifostat();
        Some(data)
    }

    /// Shift out one pixel while enabled, advancing the line/frame position.
    pub fn process_pixel(&mut self)
        requires
            old(self).wf(),
            old(self)@.pixel_ok(),
        ensures
            final(self).wf(),
            final(self)@ == old(self)@.after_pixel(),
    {
        if !self.is_enabled() {
            return;
        }
        if let Some(_pixel) = self.fifo_pop() {
            self.current_pixel = self.current_pixel + 1;
            if self.current_pixel >= self.total_pixels {
                self.current_pixel = 0;
                self.current_line = self.current_line + 1;
                self.irq = self.irq | irq::LINE;
                if self.current_line >= self.total_lines {
                    self.current_line = 0;
                    self.irq = self.irq | irq::VSYNC;
                }
                self.irq = self.irq | irq::HSYNC;
                proof {
                    let v = old(self)@.after_pop().irq;
                    assert(((v | 2u32) | 4u32) | 8u32 == (v | 2u32 | 4u32 | 8u32)) by (bit_vector);
                }
            }
        }
    }

    /// Current line.
    pub fn get_current_line(&self) -> (r: u32)
        ensures
            r == self.current_line,
    {
        self.current_line
    }

    /// Current pixel within the line.
    pub fn get_current_pixel(&self) -> (r: u32)
        ensures
            r == self.current_pixel,
    {
        self.current_pixel
    }

    /// Set the frame size in lines and the line size in pixels.
    pub fn set_timing(&mut self, lines: u32, pixels: u32)
        requires
            old(self).wf(),
        ensures
            final(self).wf(),
            final(self)@ == (HstxState { total_lines: lines, total_pixels: pixels, ..old(self)@ }),
    {
        self.total_lines = lines;
        self.total_pixels = pixels;
    }

    /// Register read; reading FIFO takes a word (0 when empty).
    pub fn read(&mut self, addr: u32) -> (r: u32)
        requires
            old(self).wf(),
            addr >= HSTX_BASE,
        ensures
            final(self).wf(),
            r == old(self)@.read_value((addr - HSTX_BASE) as u32),
            final(self)@ == old(self)@.after_read((addr - HSTX_BASE) as u32),
    {
        let offset = addr - HSTX_BASE;
        if offset == regs::CS {
            self.cs
        } else if offset == regs::IRQ {
            self.irq
        } else if offset == regs::IRQE {
            self.irqe
        } else if offset == regs::FIFOCFG {
            self.fifocfg
        } else if offset == regs::FIFOSTAT {
            self.fifostat
        } else if offset == regs::FIFO {
            match self.fifo_pop() {
                Some(v) => v,
                None => 0,
            }
        } else if offset == regs::BIT {
            self.bit
        } else if offset == regs::SLOW {
            self.slow
        } else if offset == regs::EXPAND {
            self.expand
        } else if offset == regs::VSYNC {
            self.vsync
        } else if offset == regs::HSYNC {
            self.hsync
        } else if offset == regs::LINE {
            self.line
        } else if offset == regs::LINE_VSYNC {
            self.line_vsync
        } else if offset == regs::LINE_HSYNC {
            self.line_hsync
        } else if offset == regs::LINE_FIRST {
            self.line_first
        } else if offset == regs::LINE_LAST {
            self.line_last
        } else if offset == regs::SLOWEST {
            self.slowest
        } else if offset == regs::GPOA {
            self.gpoa
        } else if offset == regs::GPOB {
            self.gpob
        } else {
            0
        }
    }

    /// Register write.
    pub fn write(&mut self, addr: u32, value: u32)
        requires
            old(self).wf(),
            addr >= HSTX_BASE,
        ensures
            final(self).wf(),
            final(self)@ == old(self)@.after_write((addr - HSTX_BASE) as u32, value),
    {
        let offset = addr - HSTX_BASE;
        if offset == regs::CS || offset == regs::CS_SET {
            self.cs = self.cs | value;
            if (value & cs::EN) != 0 {
                self.mode = HstxMode::Dvi;
            }
        } else if offset == regs::CS_CLR {
            self.cs = self.cs & !value;
            if (value & cs::EN) != 0 {
                self.mode = HstxMode::Disabled;
            }
        } else if offset == regs::IRQ {
            self.irq = value;
        } else if offset == regs::IRQ_SET {
            self.irq = self.irq | value;
        } else if offset == regs::IRQ_CLR {
            self.irq = self.irq & !value;
        } else if offset == regs::IRQE || offset == regs::IRQE_SET {
            self.irqe = self.irqe | value;
        } else if offset == regs::IRQE_CLR {
            self.irqe = self.irqe & !value;
        } else if offset == regs::FIFOCFG {
            self.fifocfg = value;
        } else if offset == regs::FIFO {
            self.fifo_push(value);
        } else if offset == regs::BIT || offset == regs::BIT_SET {
            self.bit = self.bit | value;
        } else if offset == regs::BIT_CLR {
            self.bit = self.bit & !value;
        } else if offset == regs::SLOW || offset == regs::SLOW_SET {
            self.slow = self.slow | value;
        } else if offset == regs::SLOW_CLR {
            self.slow = self.slow & !value;
        } else if offset == regs::EXPAND {
            self.expand = value;
        } else if offset == regs::EXPAND_SET {
            self.expand = self.expand | value;
        } else if offset == regs::EXPAND_CLR {
            self.expand = self.expand & !value;
        } else if offset == regs::VSYNC || offset == regs::VSYNC_SET {
            self.vsync = self.vsync | value;
        } else if offset == regs::VSYNC_CLR {
            self.vsync = self.vsync & !value;
        } else if offset == regs::HSYNC || offset == regs::HSYNC_SET {
            self.hsync = self.hsync | value;
        } else if offset == regs::HSYNC_CLR {
            self.hsync = self.hsync & !value;
        } else if offset == regs::LINE {
            self.line = value;
        } else if offset == regs::LINE_SET {
            self.line = self.line | value;
        } else if offset == regs::LINE_CLR {
            self.line = self.line & !value;
        } else if offset == regs::LINE_VSYNC || offset == regs::LINE_VSYNC_SET {
            self.line_vsync = self.line_vsync | value;
        } else if offset == regs::LINE_VSYNC_CLR {
            self.line_vsync = self.line_vsync & !value;
        } else if offset == regs::LINE_HSYNC || offset == regs::LINE_HSYNC_SET {
            self.line_hsync = self.line_hsync | value;
        } else if offset == regs::LINE_HSYNC_CLR {
            self.line_hsync = self.line_hsync & !value;
        } else if offset == regs::LINE_FIRST {
            self.line_first = value;
        } else if offset == regs::LINE_LAST {
            self.line_last = value;
        } else if offset == regs::SLOWEST || offset == regs::SLOWEST_SET {
            self.slowest = self.slowest | value;
        } else if offset == regs::SLOWEST_CLR {
            self.slowest = self.slowest & !value;
        } else if offset == regs::GPOA || offset == regs::GPOA_SET {
            self.gpoa = self.gpoa | value;
        } else if offset == regs::GPOA_CLR {
            self.gpoa = self.gpoa & !value;
        } else if offset == regs::GPOB || offset == regs::GPOB_SET {
            self.gpob = self.gpob | value;
        } else if offset == regs::GPOB_CLR {
            self.gpob = self.gpob & !value;
        }
    }

    /// Return to the power-on state.
    pub fn reset(&mut self)
        ensures
            final(self)@ == HstxState::initial(),
            final(self).wf(),
    {
        *self = Hstx::new();
    }
}

impl Default for Hstx {
    fn default() -> (r: Self)
        ensures
            r@ == HstxState::initial(),
    {
        Hstx::new()
    }
}

} // verus!
