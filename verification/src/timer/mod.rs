//! Microsecond timer with four alarms, and the simple SysTick and ARM timers
//! that share its module.
use vstd::prelude::*;

use crate::device::DeviceId;

pub mod arm_timer_control;
pub mod regs;
pub mod systick_csr;

verus! {

/// Timer base address.
pub const TIMER_BASE: u32 = 0x400B_4000;

/// Number of alarms.
pub const NUM_ALARMS: usize = 4;

/// Timer device.
#[derive(Debug)]
pub struct Timer {
    /// Current time (microseconds).
    pub time: u64,
    /// Alarm times.
    pub alarms: [u64; 4],
    /// Armed alarm flags.
    pub armed: u8,
    /// Debug pause control.
    pub dbgpause: u32,
    /// Pause control.
    pub pause: u32,
    /// Locked flag.
    pub locked: bool,
    /// Timer source.
    pub source: u32,
    /// Raw interrupt status.
    pub intr: u32,
    /// Interrupt enable.
    pub inte: u32,
    /// Interrupt force.
    pub intf: u32,
    /// Interrupt status.
    pub ints: u32,
    /// Time increment per tick.
    pub tick_increment: u64,
}

/// Abstract state of the timer.
#[verifier::ext_equal]
pub ghost struct TimerState {
    pub time: u64,
    pub alarms: Seq<u64>,
    pub armed: u8,
    pub dbgpause: u32,
    pub pause: u32,
    pub locked: bool,
    pub source: u32,
    pub intr: u32,
    pub inte: u32,
    pub intf: u32,
    pub ints: u32,
    pub tick_increment: u64,
}

impl View for Timer {
    type V = TimerState;

    open spec fn view(&self) -> TimerState {
        TimerState {
            time: self.time,
            alarms: self.alarms@,
            armed: self.armed,
            dbgpause: self.dbgpause,
            pause: self.pause,
            locked: self.locked,
            source: self.source,
            intr: self.intr,
            inte: self.inte,
            intf: self.intf,
            ints: self.ints,
            tick_increment: self.tick_increment,
        }
    }
}

/// Alarm `i` fires: it is armed and the time has reached it.
pub open spec fn fires(s: TimerState, i: int) -> bool {
    s.armed & (1u8 << i as u8) != 0 && s.time >= s.alarms[i]
}

/// Checking alarm `i`: a firing alarm is disarmed and raises its interrupt.
pub open spec fn check_step(s: TimerState, i: int) -> TimerState {
    if fires(s, i) {
        TimerState { armed: s.armed & !(1u8 << i as u8), intr: s.intr | (1u32 << i as u32), ..s }
    } else {
        s
    }
}

/// The first `n` alarms checked in order.
pub open spec fn check_upto(s: TimerState, n: int) -> TimerState
    decreases n,
{
    if n <= 0 {
        s
    } else {
        check_step(check_upto(s, n - 1), n - 1)
    }
}

/// Some of the first `n` alarms fired.
pub open spec fn fired_upto(s: TimerState, n: int) -> bool
    decreases n,
{
    if n <= 0 {
        false
    } else {
        fired_upto(s, n - 1) || fires(check_upto(s, n - 1), n - 1)
    }
}

impl TimerState {
    pub open spec fn initial() -> TimerState {
        TimerState {
            time: 0,
            alarms: Seq::new(4, |i: int| 0u64),
            armed: 0,
            dbgpause: 0x7,
            pause: 0,
            locked: false,
            source: 0,
            intr: 0,
            inte: 0,
            intf: 0,
            ints: 0,
            tick_increment: 1,
        }
    }

    pub open spec fn wf(self) -> bool {
        self.alarms.len() == NUM_ALARMS
    }

    /// INTS recomputed: enabled raw interrupts or forced ones.
    pub open spec fn ints_updated(self) -> TimerState {
        TimerState { ints: (self.intr & self.inte) | self.intf, ..self }
    }

    /// All alarms checked; INTS follows when one fired.
    pub open spec fn alarms_checked(self) -> TimerState {
        let t = check_upto(self, 4);
        if fired_upto(self, 4) { t.ints_updated() } else { t }
    }

    /// Time advanced by one increment (wrapping).
    pub open spec fn stepped(self) -> TimerState {
        TimerState {
            time: vstd::wrapping::u64_specs::wrapping_add(self.time, self.tick_increment),
            ..self
        }
    }

    pub open spec fn after_tick(self) -> TimerState {
        if self.pause != 0 { self } else { self.stepped().alarms_checked() }
    }

    /// Up to `n` ticks, stopping after the first that fires an alarm.
    pub open spec fn advanced(self, n: nat) -> TimerState
        decreases n,
    {
        if n == 0 {
            self
        } else {
            let t = self.stepped();
            if fired_upto(t, 4) {
                t.alarms_checked()
            } else {
                t.alarms_checked().advanced((n - 1) as nat)
            }
        }
    }

    pub open spec fn read_value(self, offset: u32) -> u32 {
        let hi = (self.time >> 32u64) as u32;
        let lo = self.time as u32;
        if offset == regs::TIMEHR || offset == regs::TIMERAWH || offset == regs::TIMERAWH2 || offset
            == regs::TIMEHR2 {
            hi
        } else if offset == regs::TIMELR || offset == regs::TIMERAWL || offset == regs::TIMERAWL2
            || offset == regs::TIMELR2 {
            lo
        } else if offset == regs::DBGPAUSE {
            self.dbgpause
        } else if offset == regs::PAUSE {
            self.pause
        } else if offset == regs::LOCKED {
            if self.locked { 1 } else { 0 }
        } else if offset == regs::SOURCE {
            self.source
        } else if regs::ALARM0 <= offset <= regs::ALARM3 && offset % 4 == 0 {
            self.alarms[(offset - regs::ALARM0) / 4] as u32
        } else if offset == regs::ARMED {
            self.armed as u32
        } else if offset == regs::INTR {
            self.intr
        } else if offset == regs::INTE {
            self.inte
        } else if offset == regs::INTF {
            self.intf
        } else if offset == regs::INTS {
            self.ints
        } else {
            0
        }
    }

    pub open spec fn after_write(self, offset: u32, value: u32) -> TimerState {
        if offset == regs::DBGPAUSE {
            TimerState { dbgpause: value & 0x7, ..self }
        } else if offset == regs::PAUSE {
            TimerState { pause: value & 1, ..self }
        } else if offset == regs::SOURCE {
            if !self.locked { TimerState { source: value & 1, ..self } } else { self }
        } else if regs::ALARM0 <= offset <= regs::ALARM3 && offset % 4 == 0 {
            let i = (offset - regs::ALARM0) / 4;
            TimerState {
                alarms: self.alarms.update(i, (self.alarms[i] & 0xFFFF_FFFF_0000_0000u64) | (value as u64)),
                armed: self.armed | (1u8 << i as u8),
                ..self
            }
        } else if offset == regs::ARMED {
            TimerState { armed: self.armed & !(value as u8), ..self }
        } else if offset == regs::INTR {
            TimerState { intr: self.intr & !value, ..self }.ints_updated()
        } else if offset == regs::INTE {
            TimerState { inte: value & 0xF, ..self }.ints_updated()
        } else if offset == regs::INTF {
            TimerState { intf: value & 0xF, ..self }.ints_updated()
        } else {
            self
        }
    }
}

/// An armed alarm whose time has come fires on the next check: it is
/// disarmed and its interrupt is raised.
pub proof fn lemma_alarm_fires(s: TimerState, i: int)
    requires
        s.wf(),
        0 <= i < NUM_ALARMS,
        fires(check_upto(s, i), i),
    ensures
        check_upto(s, i + 1).armed & (1u8 << i as u8) == 0,
        check_upto(s, i + 1).intr & (1u32 << i as u32) != 0,
        fired_upto(s, i + 1),
{
    let t = check_upto(s, i);
    crate::bits::lemma_bit_ops(t.intr, i as u32, i as u32);
    let a = t.armed;
    let k = i as u8;
    assert((a & !(1u8 << k)) & (1u8 << k) == 0) by (bit_vector)
        requires k < 4;
}

impl Timer {
    /// Create a timer at time zero with no alarms armed.
    pub fn new() -> (r: Self)
        ensures
            r@ == TimerState::initial(),
    {
        Timer {
            time: 0,
            alarms: [0u64; 4],
            armed: 0,
            dbgpause: 0x7,
            pause: 0,
            locked: false,
            source: 0,
            intr: 0,
            inte: 0,
            intf: 0,
            ints: 0,
            tick_increment: 1,
        }
    }

    /// Device identifier.
    pub fn id(&self) -> (r: DeviceId)
        ensures
            r == DeviceId::TIMER,
    {
        DeviceId::TIMER
    }

    /// Get current time.
    pub fn get_time(&self) -> (r: u64)
        ensures
            r == self.time,
    {
        self.time
    }

    /// Set current time.
    pub fn set_time(&mut self, time: u64)
        ensures
            final(self)@ == (TimerState { time, ..old(self)@ }),
    {
        self.time = time;
    }

    /// One tick: unless paused, time advances and the alarms are checked.
    pub fn tick(&mut self)
        ensures
            final(self)@ == old(self)@.after_tick(),
    {
        if self.pause != 0 {
            return;
        }
        self.time = self.time.wrapping_add(self.tick_increment);
        self.check_alarms();
    }

    /// Up to `ticks` ticks, stopping after the first that fires an alarm;
    /// nothing while paused.
    pub fn advance(&mut self, ticks: u64)
        ensures
            old(self).pause != 0 ==> final(self)@ == old(self)@,
            old(self).pause == 0 ==> final(self)@ == old(self)@.advanced(ticks as nat),
    {
        if self.pause != 0 {
            return;
        }
        let mut k: u64 = 0;
        while k < ticks
            invariant_except_break
                k <= ticks,
                self@.advanced((ticks - k) as nat) == old(self)@.advanced(ticks as nat),
            ensures
                self@ == old(self)@.advanced(ticks as nat),
            decreases ticks - k,
        {
            let ghost before = self@;
            self.time = self.time.wrapping_add(self.tick_increment);
            if self.check_alarms() {
                assert(before.advanced((ticks - k) as nat) == self@);
                break;
            }
            k = k + 1;
        }
    }

    /// Set time increment per tick.
    pub fn set_tick_increment(&mut self, increment: u64)
        ensures
            final(self)@ == (TimerState { tick_increment: increment, ..old(self)@ }),
    {
        self.tick_increment = increment;
    }

    /// Check every alarm; true when one fired.
    fn check_alarms(&mut self) -> (r: bool)
        ensures
            r == fired_upto(old(self)@, 4),
            final(self)@ == old(self)@.alarms_checked(),
    {
        let mut triggered = false;
        let mut i: usize = 0;
        while i < NUM_ALARMS
            invariant
                0 <= i <= NUM_ALARMS,
                self.alarms@.len() == 4,
                self@ == check_upto(old(self)@, i as int),
                triggered == fired_upto(old(self)@, i as int),
            decreases NUM_ALARMS - i,
        {
            if (self.armed & (1u8 << i as u8)) != 0 {
                if self.time >= self.alarms[i] {
                    self.armed = self.armed & !(1u8 << i as u8);
                    self.intr = self.intr | (1u32 << i as u32);
                    triggered = true;
                }
            }
            proof {
                assert(self@ =~= check_step(check_upto(old(self)@, i as int), i as int));
            }
            i = i + 1;
        }
        if triggered {
            self.update_ints();
        }
        triggered
    }

    /// Recompute INTS.
    fn update_ints(&mut self)
        ensures
            final(self)@ == old(self)@.ints_updated(),
    {
        self.ints = (self.intr & self.inte) | self.intf;
    }

    /// A raw interrupt is pending.
    pub fn has_interrupt(&self) -> (r: bool)
        ensures
            r == (self.intr != 0),
    {
        self.intr != 0
    }

    /// A masked interrupt is pending.
    pub fn has_masked_interrupt(&self) -> (r: bool)
        ensures
            r == (self.ints != 0),
    {
        self.ints != 0
    }

    /// Whether an alarm is armed.
    pub fn is_armed(&self, alarm: usize) -> (r: bool)
        requires
            alarm < 8,
        ensures
            r == (self.armed & (1u8 << alarm as u8) != 0),
    {
        (self.armed & (1u8 << alarm as u8)) != 0
    }

    /// Set an alarm time and arm it.
    pub fn set_alarm(&mut self, alarm: usize, value: u64)
        ensures
            alarm < NUM_ALARMS ==> final(self)@ == (TimerState {
                alarms: old(self)@.alarms.update(alarm as int, value),
                armed: old(self).armed | (1u8 << alarm as u8),
                ..old(self)@
            }),
            alarm >= NUM_ALARMS ==> final(self)@ == old(self)@,
    {
        if alarm < NUM_ALARMS {
            self.alarms[alarm] = value;
            self.armed = self.armed | (1u8 << alarm as u8);
        }
    }

    /// Disarm an alarm.
    pub fn clear_alarm(&mut self, alarm: usize)
        ensures
            alarm < NUM_ALARMS ==> final(self)@ == (TimerState {
                armed: old(self).armed & !(1u8 << alarm as u8),
                ..old(self)@
            }),
            alarm >= NUM_ALARMS ==> final(self)@ == old(self)@,
    {
        if alarm < NUM_ALARMS {
            self.armed = self.armed & !(1u8 << alarm as u8);
        }
    }

    /// Upper 32 bits of the time.
    pub fn read_timeh(&self) -> (r: u32)
        ensures
            r == (self.time >> 32u64) as u32,
    {
        (self.time >> 32) as u32
    }

    /// Lower 32 bits of the time.
    pub fn read_timel(&self) -> (r: u32)
        ensures
            r == self.time as u32,
    {
        self.time as u32
    }

    /// Both halves of the time from one reading, high half first.
    pub fn read_time_latched(&mut self) -> (r: (u32, u32))
        ensures
            r == ((old(self).time >> 32u64) as u32, old(self).time as u32),
            final(self)@ == old(self)@,
    {
        let low = self.time as u32;
        let high = (self.time >> 32) as u32;
        (high, low)
    }

    /// Register read.
    pub fn read(&mut self, addr: u32) -> (r: u32)
        requires
            addr >= TIMER_BASE,
        ensures
            r == old(self)@.read_value((addr - TIMER_BASE) as u32),
            final(self)@ == old(self)@,
    {
        let offset = addr - TIMER_BASE;
        if offset == regs::TIMEHR || offset == regs::TIMERAWH || offset == regs::TIMERAWH2
            || offset == regs::TIMEHR2 {
            self.read_timeh()
        } else if offset == regs::TIMELR || offset == regs::TIMERAWL || offset == regs::TIMERAWL2
            || offset == regs::TIMELR2 {
            self.read_timel()
        } else if offset == regs::DBGPAUSE {
            self.dbgpause
        } else if offset == regs::PAUSE {
            self.pause
        } else if offset == regs::LOCKED {
            if self.locked {
                1
            } else {
                0
            }
        } else if offset == regs::SOURCE {
            self.source
        } else if regs::ALARM0 <= offset && offset <= regs::ALARM3 && offset % 4 == 0 {
            self.alarms[((offset - regs::ALARM0) / 4) as usize] as u32
        } else if offset == regs::ARMED {
            self.armed as u32
        } else if offset == regs::INTR {
            self.intr
        } else if offset == regs::INTE {
            self.inte
        } else if offset == regs::INTF {
            self.intf
        } else if offset == regs::INTS {
            self.ints
        } else {
            0
        }
    }

    /// Register write; writing an alarm's low word arms it.
    pub fn write(&mut self, addr: u32, value: u32)
        requires
            addr >= TIMER_BASE,
        ensures
            final(self)@ == old(self)@.after_write((addr - TIMER_BASE) as u32, value),
    {
        let offset = addr - TIMER_BASE;
        if offset == regs::DBGPAUSE {
            self.dbgpause = value & 0x7;
        } else if offset == regs::PAUSE {
            self.pause = value & 1;
        } else if offset == regs::SOURCE {
            if !self.locked {
                self.source = value & 1;
            }
        } else if regs::ALARM0 <= offset && offset <= regs::ALARM3 && offset % 4 == 0 {
            let i = ((offset - regs::ALARM0) / 4) as usize;
            self.alarms[i] = (self.alarms[i] & 0xFFFF_FFFF_0000_0000u64) | (value as u64);
            self.armed = self.armed | (1u8 << i as u8);
        } else if offset == regs::ARMED {
            self.armed = self.armed & !(value as u8);
        } else if offset == regs::INTR {
            self.intr = self.intr & !value;
            self.update_ints();
        } else if offset == regs::INTE {
            self.inte = value & 0xF;
            self.update_ints();
        } else if offset == regs::INTF {
            self.intf = value & 0xF;
            self.update_ints();
        }
    }

    /// Return to the power-on state.
    pub fn reset(&mut self)
        ensures
            final(self)@ == TimerState::initial(),
    {
        *self = Timer::new();
    }
}

impl Default for Timer {
    fn default() -> (r: Self)
        ensures
            r@ == TimerState::initial(),
    {
        Timer::new()
    }
}

/// System timer of a Cortex-M33 core.
#[derive(Debug)]
pub struct SysTick {
    /// Control and status register.
    pub csr: u32,
    /// Reload value register.
    pub rvr: u32,
    /// Current value register.
    pub cvr: u32,
    /// Calibration value register.
    pub calib: u32,
    /// Current counter value.
    pub counter: u32,
}

impl SysTick {
    /// SysTick base address.
    pub const BASE: u32 = 0xE000_E010;

    /// Control and status register offset.
    pub const CSR: u32 = 0x000;

    /// Reload value register offset.
    pub const RVR: u32 = 0x004;

    /// Current value register offset.
    pub const CVR: u32 = 0x008;

    /// Calibration register offset.
    pub const CALIB: u32 = 0x00C;

    /// Create a disabled timer with a 24-bit calibration value.
    pub fn new() -> (r: Self)
        ensures
            r == (SysTick { csr: 0, rvr: 0, cvr: 0, calib: 0x00FF_FFFF, counter: 0 }),
    {
        SysTick { csr: 0, rvr: 0, calib: 0x00FF_FFFF, cvr: 0, counter: 0 }
    }

    pub open spec fn enabled(&self) -> bool {
        self.csr & systick_csr::ENABLE != 0
    }

    /// Check if enabled.
    pub fn is_enabled(&self) -> (r: bool)
        ensures
            r == self.enabled(),
    {
        (self.csr & systick_csr::ENABLE) != 0
    }

    /// Check if the interrupt is enabled.
    pub fn is_interrupt_enabled(&self) -> (r: bool)
        ensures
            r == (self.csr & systick_csr::TICKINT != 0),
    {
        (self.csr & systick_csr::TICKINT) != 0
    }

    /// Check if the processor clock drives the timer.
    pub fn is_processor_clock(&self) -> (r: bool)
        ensures
            r == (self.csr & systick_csr::CLKSOURCE != 0),
    {
        (self.csr & systick_csr::CLKSOURCE) != 0
    }

    /// One clock: a running counter counts down; reaching zero sets
    /// COUNTFLAG, reloads and reports true.
    pub fn tick(&mut self) -> (r: bool)
        ensures
            r == (old(self).enabled() && old(self).counter == 1),
            !old(self).enabled() || old(self).counter == 0 ==> *final(self) == *old(self),
            old(self).enabled() && old(self).counter > 1 ==> *final(self) == (SysTick {
                counter: (old(self).counter - 1) as u32,
                ..*old(self)
            }),
            old(self).enabled() && old(self).counter == 1 ==> *final(self) == (SysTick {
                counter: old(self).rvr,
                csr: old(self).csr | systick_csr::COUNTFLAG,
                ..*old(self)
            }),
    {
        if !self.is_enabled() {
            return false;
        }
        if self.counter > 0 {
            self.counter = self.counter - 1;
            if self.counter == 0 {
                self.csr = self.csr | systick_csr::COUNTFLAG;
                self.counter = self.rvr;
                return true;
            }
        }
        false
    }

    /// Register read; reading CSR clears COUNTFLAG.
    pub fn read(&mut self, offset: u32) -> (r: u32)
        ensures
            offset == Self::CSR ==> r == old(self).csr && *final(self) == (SysTick {
                csr: old(self).csr & !systick_csr::COUNTFLAG,
                ..*old(self)
            }),
            offset != Self::CSR ==> *final(self) == *old(self) && r == (if offset == Self::RVR {
                old(self).rvr
            } else if offset == Self::CVR {
                old(self).cvr
            } else if offset == Self::CALIB {
                old(self).calib
            } else {
                0
            }),
    {
        if offset == Self::CSR {
            let val = self.csr;
            self.csr = self.csr & !systick_csr::COUNTFLAG;
            val
        } else if offset == Self::RVR {
            self.rvr
        } else if offset == Self::CVR {
            self.cvr
        } else if offset == Self::CALIB {
            self.calib
        } else {
            0
        }
    }

    /// Register write; enabling a stopped counter loads the reload value.
    pub fn write(&mut self, offset: u32, value: u32)
        ensures
            offset == Self::CSR ==> *final(self) == (SysTick {
                csr: value & 0x1FFFD,
                counter: if value & systick_csr::ENABLE != 0 && old(self).counter == 0 {
                    old(self).rvr
                } else {
                    old(self).counter
                },
                ..*old(self)
            }),
            offset == Self::RVR ==> *final(self) == (SysTick { rvr: value & 0x00FF_FFFF, ..*old(self) }),
            offset == Self::CVR ==> *final(self) == (SysTick { cvr: 0, counter: old(self).rvr, ..*old(self) }),
            offset != Self::CSR && offset != Self::RVR && offset != Self::CVR ==> *final(self) == *old(self),
    {
        if offset == Self::CSR {
            self.csr = value & 0x1FFFD;
            if (value & systick_csr::ENABLE) != 0 && self.counter == 0 {
                self.counter = self.rvr;
            }
        } else if offset == Self::RVR {
            self.rvr = value & 0x00FF_FFFF;
        } else if offset == Self::CVR {
            self.cvr = 0;
            self.counter = self.rvr;
        }
    }

    /// Interrupt enabled and COUNTFLAG set.
    pub fn has_interrupt(&self) -> (r: bool)
        ensures
            r == (self.csr & systick_csr::TICKINT != 0 && self.csr & systick_csr::COUNTFLAG != 0),
    {
        self.is_interrupt_enabled() && (self.csr & systick_csr::COUNTFLAG) != 0
    }
}

impl Default for SysTick {
    fn default() -> (r: Self)
        ensures
            r == (SysTick { csr: 0, rvr: 0, cvr: 0, calib: 0x00FF_FFFF, counter: 0 }),
    {
        SysTick::new()
    }
}

/// ARM dual timer.
#[derive(Debug)]
pub struct ArmTimer {
    /// Control register.
    pub control: u32,
    /// Load register.
    pub load: u32,
    /// Value register.
    pub value: u32,
    /// Prescaler.
    pub prescaler: u32,
    /// Interrupt clear.
    pub int_clear: bool,
    /// Raw interrupt status.
    pub raw_int: bool,
    /// Masked interrupt status.
    pub masked_int: bool,
    /// Background load.
    pub bg_load: u32,
    /// Counter.
    pub counter: u32,
}

impl ArmTimer {
    /// ARM timer base address.
    pub const BASE: u32 = 0x400B_4000;

    /// Load register offset.
    pub const LOAD: u32 = 0x400;

    /// Value register offset.
    pub const VALUE: u32 = 0x404;

    /// Control register offset.
    pub const CONTROL: u32 = 0x408;

    /// Interrupt clear register offset.
    pub const IRQCLR: u32 = 0x40C;

    /// Raw interrupt register offset.
    pub const IRQRAW: u32 = 0x410;

    /// Masked interrupt register offset.
    pub const IRQMSK: u32 = 0x414;

    /// Background load register offset.
    pub const RELOAD: u32 = 0x418;

    /// Pre-divider register offset.
    pub const PRE_DIVIDER: u32 = 0x41C;

    /// Free-running counter offset.
    pub const FREE_RUNNING: u32 = 0x420;

    /// Create a stopped timer.
    pub fn new() -> (r: Self)
        ensures
            r == (ArmTimer {
                control: 0,
                load: 0,
                value: 0xFFFF_FFFF,
                prescaler: 0,
                int_clear: false,
                raw_int: false,
                masked_int: false,
                bg_load: 0,
                counter: 0,
            }),
    {
        ArmTimer {
            control: 0,
            load: 0,
            value: 0xFFFF_FFFF,
            prescaler: 0,
            int_clear: false,
            raw_int: false,
            masked_int: false,
            bg_load: 0,
            counter: 0,
        }
    }

    pub open spec fn enabled(&self) -> bool {
        self.control & arm_timer_control::ENABLE != 0
    }

    /// Check if enabled.
    pub fn is_enabled(&self) -> (r: bool)
        ensures
            r == self.enabled(),
    {
        (self.control & arm_timer_control::ENABLE) != 0
    }

    /// One clock: a running counter counts down; reaching zero raises the
    /// interrupt, reloads and reports true.
    pub fn tick(&mut self) -> (r: bool)
        ensures
            r == (old(self).enabled() && old(self).counter == 1),
            !old(self).enabled() || old(self).counter == 0 ==> *final(self) == *old(self),
            old(self).enabled() && old(self).counter > 1 ==> *final(self) == (ArmTimer {
                counter: (old(self).counter - 1) as u32,
                ..*old(self)
            }),
            old(self).enabled() && old(self).counter == 1 ==> *final(self) == (ArmTimer {
                counter: old(self).load,
                raw_int: true,
                ..*old(self)
            }),
    {
        if !self.is_enabled() || self.counter == 0 {
            return false;
        }
        self.counter = self.counter - 1;
        if self.counter == 0 {
            self.raw_int = true;
            self.counter = self.load;
            return true;
        }
        false
    }

    /// Register read.
    pub fn read(&mut self, offset: u32) -> (r: u32)
        ensures
            *final(self) == *old(self),
            r == (if offset == Self::LOAD {
                old(self).load
            } else if offset == Self::VALUE {
                old(self).counter
            } else if offset == Self::CONTROL {
                old(self).control
            } else if offset == Self::IRQRAW {
                if old(self).raw_int { 1u32 } else { 0 }
            } else if offset == Self::IRQMSK {
                if old(self).masked_int { 1u32 } else { 0 }
            } else if offset == Self::RELOAD {
                old(self).bg_load
            } else if offset == Self::PRE_DIVIDER {
                old(self).prescaler
            } else {
                0
            }),
    {
        if offset == Self::LOAD {
            self.load
        } else if offset == Self::VALUE {
            self.counter
        } else if offset == Self::CONTROL {
            self.control
        } else if offset == Self::IRQRAW {
            if self.raw_int {
                1
            } else {
                0
            }
        } else if offset == Self::IRQMSK {
            if self.masked_int {
                1
            } else {
                0
            }
        } else if offset == Self::RELOAD {
            self.bg_load
        } else if offset == Self::PRE_DIVIDER {
            self.prescaler
        } else {
            0
        }
    }

    /// Register write; loading restarts the counter.
    pub fn write(&mut self, offset: u32, value: u32)
        ensures
            offset == Self::LOAD ==> *final(self) == (ArmTimer { load: value, counter: value, ..*old(self) }),
            offset == Self::CONTROL ==> *final(self) == (ArmTimer { control: value, ..*old(self) }),
            offset == Self::IRQCLR ==> *final(self) == (ArmTimer { raw_int: false, masked_int: false, ..*old(self) }),
            offset == Self::RELOAD ==> *final(self) == (ArmTimer { bg_load: value, ..*old(self) }),
            offset == Self::PRE_DIVIDER ==> *final(self) == (ArmTimer { prescaler: value, ..*old(self) }),
            offset != Self::LOAD && offset != Self::CONTROL && offset != Self::IRQCLR && offset
                != Self::RELOAD && offset != Self::PRE_DIVIDER ==> *final(self) == *old(self),
    {
        if offset == Self::LOAD {
            self.load = value;
            self.counter = value;
        } else if offset == Self::CONTROL {
            self.control = value;
        } else if offset == Self::IRQCLR {
            self.raw_int = false;
            self.masked_int = false;
        } else if offset == Self::RELOAD {
            self.bg_load = value;
        } else if offset == Self::PRE_DIVIDER {
            self.prescaler = value;
        }
    }
}

impl Default for ArmTimer {
    fn default() -> (r: Self)
        ensures
            r == (ArmTimer {
                control: 0,
                load: 0,
                value: 0xFFFF_FFFF,
                prescaler: 0,
                int_clear: false,
                raw_int: false,
                masked_int: false,
                bg_load: 0,
                counter: 0,
            }),
    {
        ArmTimer::new()
    }
}

} // verus!
