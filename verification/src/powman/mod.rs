//! Power manager: power states driven by CTRL, wake-up, always-on timer
//! alarms, voltage regulator and brown-out detection.
use vstd::prelude::*;

use crate::device::DeviceId;

pub mod bod_ctrl;
pub mod ctrl;
pub mod irq;
pub mod regs;
pub mod status;
pub mod vreg_ctrl;

verus! {

/// Power Manager base address.
pub const POWMAN_BASE: u32 = 0x5004_4000;

/// Power state.
#[derive(Debug, Clone, Copy, PartialEq, Eq, Structural)]
pub enum PowerState {
    Active,
    LowPower,
    Sleep,
    DeepSleep,
}

impl Default for PowerState {
    fn default() -> (r: Self)
        ensures
            r == PowerState::Active,
    {
        PowerState::Active
    }
}

/// The power state that CTRL selects: deep sleep over sleep over low power.
pub open spec fn state_of_ctrl(c: u32) -> PowerState {
    if c & ctrl::DEEPSLEEP != 0 {
        PowerState::DeepSleep
    } else if c & ctrl::SLEEP != 0 {
        PowerState::Sleep
    } else if c & ctrl::LOWPWR != 0 {
        PowerState::LowPower
    } else {
        PowerState::Active
    }
}

/// Millivolts of a 4-bit voltage select field held at bit 4 of `reg`.
pub open spec fn millivolts(reg: u32) -> u32 {
    (800 + ((reg >> 4u32) & 0xF) * 37) as u32
}

/// Power Manager peripheral.
#[derive(Debug)]
pub struct PowerManager {
    /// Control register.
    pub ctrl: u32,
    /// Status register.
    pub status: u32,
    /// IRQ status.
    pub irq: u32,
    /// IRQ enable.
    pub irqe: u32,
    /// Timers.
    pub timers: [u32; 4],
    /// Timer alarms.
    pub timer_alarms: [u32; 4],
    /// Timer alarm triggered flags.
    pub timer_triggered: [bool; 4],
    /// Voltage regulator control.
    pub vreg_ctrl: u32,
    /// Brown-out detection control.
    pub bod_ctrl: u32,
    /// Low-power oscillator control.
    pub lposc_ctrl: u32,
    /// Low-power oscillator frequency.
    pub lposc_freq: u32,
    /// Debug force.
    pub dbg_force: u32,
    /// Power ready.
    pub pow_ready: u32,
    /// Power count.
    pub pow_count: u32,
    /// Power sequence.
    pub pow_seq: u32,
    /// GPIO wake configuration.
    pub gpio_wakeup: [u32; 4],
    /// GPIO watchdog select.
    pub gpio_wdsel: u32,
    /// GPIO wake enable.
    pub gpio_wake: u32,
    /// Processor 0 wake.
    pub proc0_wake: u32,
    /// Processor 1 wake.
    pub proc1_wake: u32,
    /// Processor 0 config.
    pub proc0_config: u32,
    /// Processor 1 config.
    pub proc1_config: u32,
    /// Current power state.
    pub power_state: PowerState,
    /// Cycle counter for timers.
    pub cycle_counter: u64,
}

/// Abstract state of the power manager.
#[verifier::ext_equal]
pub ghost struct PowmanState {
    pub ctrl: u32,
    pub status: u32,
    pub irq: u32,
    pub irqe: u32,
    pub timers: Seq<u32>,
    pub timer_alarms: Seq<u32>,
    pub timer_triggered: Seq<bool>,
    pub vreg_ctrl: u32,
    pub bod_ctrl: u32,
    pub lposc_ctrl: u32,
    pub lposc_freq: u32,
    pub dbg_force: u32,
    pub pow_ready: u32,
    pub pow_count: u32,
    pub pow_seq: u32,
    pub gpio_wakeup: Seq<u32>,
    pub gpio_wdsel: u32,
    pub gpio_wake: u32,
    pub proc0_wake: u32,
    pub proc1_wake: u32,
    pub proc0_config: u32,
    pub proc1_config: u32,
    pub power_state: PowerState,
    pub cycle_counter: u64,
}

impl View for PowerManager {
    type V = PowmanState;

    open spec fn view(&self) -> PowmanState {
        PowmanState {
            ctrl: self.ctrl,
            status: self.status,
            irq: self.irq,
            irqe: self.irqe,
            timers: self.timers@,
            timer_alarms: self.timer_alarms@,
            timer_triggered: self.timer_triggered@,
            vreg_ctrl: self.vreg_ctrl,
            bod_ctrl: self.bod_ctrl,
            lposc_ctrl: self.lposc_ctrl,
            lposc_freq: self.lposc_freq,
            dbg_force: self.dbg_force,
            pow_ready: self.pow_ready,
            pow_count: self.pow_count,
            pow_seq: self.pow_seq,
            gpio_wakeup: self.gpio_wakeup@,
            gpio_wdsel: self.gpio_wdsel,
            gpio_wake: self.gpio_wake,
            proc0_wake: self.proc0_wake,
            proc1_wake: self.proc1_wake,
            proc0_config: self.proc0_config,
            proc1_config: self.proc1_config,
            power_state: self.power_state,
            cycle_counter: self.cycle_counter,
        }
    }
}

/// The power-on state.
pub open spec fn initial_state() -> PowmanState {
    PowmanState {
        ctrl: ctrl::WAKE_EN | ctrl::TIMER_EN,
        status: status::VREG_OK,
        irq: 0,
        irqe: 0,
        timers: seq![0u32, 0u32, 0u32, 0u32],
        timer_alarms: seq![0u32, 0u32, 0u32, 0u32],
        timer_triggered: seq![false, false, false, false],
        vreg_ctrl: vreg_ctrl::EN | (5u32 << vreg_ctrl::VSEL_SHIFT),
        bod_ctrl: 0,
        lposc_ctrl: 0,
        lposc_freq: 32768,
        dbg_force: 0,
        pow_ready: 0,
        pow_count: 0,
        pow_seq: 0,
        gpio_wakeup: seq![0u32, 0u32, 0u32, 0u32],
        gpio_wdsel: 0,
        gpio_wake: 0,
        proc0_wake: 0,
        proc1_wake: 0,
        proc0_config: 0,
        proc1_config: 0,
        power_state: PowerState::Active,
        cycle_counter: 0,
    }
}

impl PowmanState {
    /// Four timers, alarms, triggered flags and GPIO wake words.
    pub open spec fn wf(self) -> bool {
        &&& self.timers.len() == 4
        &&& self.timer_alarms.len() == 4
        &&& self.timer_triggered.len() == 4
        &&& self.gpio_wakeup.len() == 4
    }

    /// Whether the core is in sleep or deep sleep.
    pub open spec fn is_sleeping(self) -> bool {
        self.power_state == PowerState::Sleep || self.power_state == PowerState::DeepSleep
    }

    /// CTRL replaced, with the power state that it selects.
    pub open spec fn with_ctrl(self, c: u32) -> PowmanState {
        PowmanState { ctrl: c, power_state: state_of_ctrl(c), ..self }
    }

    /// The state after a wake-up from `source`.
    pub open spec fn after_wakeup(self, source: u32) -> PowmanState {
        PowmanState {
            ctrl: self.ctrl & !(ctrl::SLEEP | ctrl::DEEPSLEEP),
            power_state: PowerState::Active,
            status: self.status | status::WAKE_PENDING,
            irq: self.irq | (irq::WAKE | source),
            ..self
        }
    }

    /// Whether alarm `i` fires on the next check.
    pub open spec fn alarm_due(self, i: int) -> bool {
        !self.timer_triggered[i] && self.timers[i] >= self.timer_alarms[i] && self.timer_alarms[i]
            != 0
    }

    /// The state after alarm `i` is checked.
    pub open spec fn check_alarm(self, i: int) -> PowmanState {
        if self.alarm_due(i) {
            PowmanState {
                timer_triggered: self.timer_triggered.update(i, true),
                irq: self.irq | (1u32 << (i as u32)),
                status: self.status | (1u32 << ((4 + i) as u32)),
                ..self
            }
        } else {
            self
        }
    }

    /// The state after alarms `0..n` are checked in turn.
    pub open spec fn check_upto(self, n: int) -> PowmanState
        decreases n,
    {
        if n <= 0 {
            self
        } else {
            self.check_upto(n - 1).check_alarm(n - 1)
        }
    }

    /// The state after `cycles` cycles.
    pub open spec fn after_tick(self, cycles: u64) -> PowmanState {
        PowmanState { cycle_counter: (self.cycle_counter + cycles) as u64, ..self }.check_upto(4)
    }

    /// Regulator voltage in millivolts.
    pub open spec fn voltage(self) -> u32 {
        millivolts(self.vreg_ctrl)
    }

    /// Whether brown-out detection is enabled and the regulator is below its threshold.
    pub open spec fn bod_tripped(self) -> bool {
        self.bod_ctrl & bod_ctrl::EN != 0 && millivolts(self.vreg_ctrl) < millivolts(self.bod_ctrl)
    }

    /// STATUS as read: the stored bits with the power state's bits added.
    pub open spec fn status_value(self) -> u32 {
        if self.power_state == PowerState::Sleep {
            self.status | status::SLEEPING
        } else if self.power_state == PowerState::DeepSleep {
            (self.status | status::SLEEPING) | status::DEEPSLEEP
        } else if self.power_state == PowerState::LowPower {
            self.status | status::LOWPWR
        } else {
            self.status
        }
    }

    /// The value a register read returns.
    pub open spec fn read_value(self, offset: u32) -> u32 {
        if offset == regs::CTRL {
            self.ctrl
        } else if offset == regs::STATUS {
            self.status_value()
        } else if offset == regs::IRQ {
            self.irq
        } else if offset == regs::IRQE {
            self.irqe
        } else if offset == regs::TIMER0 {
            self.timers[0]
        } else if offset == regs::TIMER1 {
            self.timers[1]
        } else if offset == regs::TIMER2 {
            self.timers[2]
        } else if offset == regs::TIMER3 {
            self.timers[3]
        } else if offset == regs::TIMER0_ALARM {
            self.timer_alarms[0]
        } else if offset == regs::TIMER1_ALARM {
            self.timer_alarms[1]
        } else if offset == regs::TIMER2_ALARM {
            self.timer_alarms[2]
        } else if offset == regs::TIMER3_ALARM {
            self.timer_alarms[3]
        } else if offset == regs::VREG_CTRL {
            self.vreg_ctrl
        } else if offset == regs::BOD_CTRL {
            self.bod_ctrl
        } else if offset == regs::LPOSC_CTRL {
            self.lposc_ctrl
        } else if offset == regs::LPOSC_FREQ {
            self.lposc_freq
        } else if offset == regs::DBG_FORCE {
            self.dbg_force
        } else if offset == regs::POW_READY {
            self.pow_ready
        } else if offset == regs::POW_COUNT {
            self.pow_count
        } else if offset == regs::POW_SEQ {
            self.pow_seq
        } else if offset == regs::GPIO0 {
            self.gpio_wakeup[0]
        } else if offset == regs::GPIO1 {
            self.gpio_wakeup[1]
        } else if offset == regs::GPIO2 {
            self.gpio_wakeup[2]
        } else if offset == regs::GPIO3 {
            self.gpio_wakeup[3]
        } else if offset == regs::GPIO_WDSEL {
            self.gpio_wdsel
        } else if offset == regs::GPIO_WAKE {
            self.gpio_wake
        } else if offset == regs::PROC0_WAKE {
            self.proc0_wake
        } else if offset == regs::PROC1_WAKE {
            self.proc1_wake
        } else if offset == regs::PROC0_CONFIG {
            self.proc0_config
        } else if offset == regs::PROC1_CONFIG {
            self.proc1_config
        } else {
            0
        }
    }

    /// The state after a register write.
    pub open spec fn after_write(self, offset: u32, value: u32) -> PowmanState {
        if offset == regs::CTRL || offset == regs::CTRL_SET {
            self.with_ctrl(self.ctrl | value)
        } else if offset == regs::CTRL_CLR {
            self.with_ctrl(self.ctrl & !value)
        } else if offset == regs::IRQ {
            PowmanState { irq: value, ..self }
        } else if offset == regs::IRQ_SET {
            PowmanState { irq: self.irq | value, ..self }
        } else if offset == regs::IRQ_CLR {
            PowmanState { irq: self.irq & !value, ..self }
        } else if offset == regs::IRQE || offset == regs::IRQE_SET {
            PowmanState { irqe: self.irqe | value, ..self }
        } else if offset == regs::IRQE_CLR {
            PowmanState { irqe: self.irqe & !value, ..self }
        } else if offset == regs::TIMER0 {
            PowmanState { timers: self.timers.update(0, value), ..self }
        } else if offset == regs::TIMER1 {
            PowmanState { timers: self.timers.update(1, value), ..self }
        } else if offset == regs::TIMER2 {
            PowmanState { timers: self.timers.update(2, value), ..self }
        } else if offset == regs::TIMER3 {
            PowmanState { timers: self.timers.update(3, value), ..self }
        } else if offset == regs::TIMER0_ALARM {
            PowmanState {
                timer_alarms: self.timer_alarms.update(0, value),
                timer_triggered: self.timer_triggered.update(0, false),
                ..self
            }
        } else if offset == regs::TIMER1_ALARM {
            PowmanState {
                timer_alarms: self.timer_alarms.update(1, value),
                timer_triggered: self.timer_triggered.update(1, false),
                ..self
            }
        } else if offset == regs::TIMER2_ALARM {
            PowmanState {
                timer_alarms: self.timer_alarms.update(2, value),
                timer_triggered: self.timer_triggered.update(2, false),
                ..self
            }
        } else if offset == regs::TIMER3_ALARM {
            PowmanState {
                timer_alarms: self.timer_alarms.update(3, value),
                timer_triggered: self.timer_triggered.update(3, false),
                ..self
            }
        } else if offset == regs::VREG_CTRL || offset == regs::VREG_CTRL_SET {
            PowmanState { vreg_ctrl: self.vreg_ctrl | value, ..self }
        } else if offset == regs::VREG_CTRL_CLR {
            PowmanState { vreg_ctrl: self.vreg_ctrl & !value, ..self }
        } else if offset == regs::BOD_CTRL || offset == regs::BOD_CTRL_SET {
            PowmanState { bod_ctrl: self.bod_ctrl | value, ..self }
        } else if offset == regs::BOD_CTRL_CLR {
            PowmanState { bod_ctrl: self.bod_ctrl & !value, ..self }
        } else if offset == regs::LPOSC_CTRL || offset == regs::LPOSC_CTRL_SET {
            PowmanState { lposc_ctrl: self.lposc_ctrl | value, ..self }
        } else if offset == regs::LPOSC_CTRL_CLR {
            PowmanState { lposc_ctrl: self.lposc_ctrl & !value, ..self }
        } else if offset == regs::LPOSC_FREQ {
            PowmanState { lposc_freq: value, ..self }
        } else if offset == regs::DBG_FORCE || offset == regs::DBG_FORCE_SET {
            PowmanState { dbg_force: self.dbg_force | value, ..self }
        } else if offset == regs::DBG_FORCE_CLR {
            PowmanState { dbg_force: self.dbg_force & !value, ..self }
        } else if offset == regs::POW_READY {
            PowmanState { pow_ready: value, ..self }
        } else if offset == regs::POW_COUNT {
            PowmanState { pow_count: value, ..self }
        } else if offset == regs::POW_SEQ || offset == regs::POW_SEQ_SET {
            PowmanState { pow_seq: self.pow_seq | value, ..self }
        } else if offset == regs::POW_SEQ_CLR {
            PowmanState { pow_seq: self.pow_seq & !value, ..self }
        } else if offset == regs::GPIO0 {
            PowmanState { gpio_wakeup: self.gpio_wakeup.update(0, value), ..self }
        } else if offset == regs::GPIO1 {
            PowmanState { gpio_wakeup: self.gpio_wakeup.update(1, value), ..self }
        } else if offset == regs::GPIO2 {
            PowmanState { gpio_wakeup: self.gpio_wakeup.update(2, value), ..self }
        } else if offset == regs::GPIO3 {
            PowmanState { gpio_wakeup: self.gpio_wakeup.update(3, value), ..self }
        } else if offset == regs::GPIO_WDSEL || offset == regs::GPIO_WDSEL_SET {
            PowmanState { gpio_wdsel: self.gpio_wdsel | value, ..self }
        } else if offset == regs::GPIO_WDSEL_CLR {
            PowmanState { gpio_wdsel: self.gpio_wdsel & !value, ..self }
        } else if offset == regs::GPIO_WAKE || offset == regs::GPIO_WAKE_SET {
            PowmanState { gpio_wake: self.gpio_wake | value, ..self }
        } else if offset == regs::GPIO_WAKE_CLR {
            PowmanState { gpio_wake: self.gpio_wake & !value, ..self }
        } else if offset == regs::PROC0_WAKE || offset == regs::PROC0_WAKE_SET {
            PowmanState { proc0_wake: self.proc0_wake | value, ..self }
        } else if offset == regs::PROC0_WAKE_CLR {
            PowmanState { proc0_wake: self.proc0_wake & !value, ..self }
        } else if offset == regs::PROC1_WAKE || offset == regs::PROC1_WAKE_SET {
            PowmanState { proc1_wake: self.proc1_wake | value, ..self }
        } else if offset == regs::PROC1_WAKE_CLR {
            PowmanState { proc1_wake: self.proc1_wake & !value, ..self }
        } else if offset == regs::PROC0_CONFIG || offset == regs::PROC0_CONFIG_SET {
            PowmanState { proc0_config: self.proc0_config | value, ..self }
        } else if offset == regs::PROC0_CONFIG_CLR {
            PowmanState { proc0_config: self.proc0_config & !value, ..self }
        } else if offset == regs::PROC1_CONFIG || offset == regs::PROC1_CONFIG_SET {
            PowmanState { proc1_config: self.proc1_config | value, ..self }
        } else if offset == regs::PROC1_CONFIG_CLR {
            PowmanState { proc1_config: self.proc1_config & !value, ..self }
        } else {
            self
        }
    }
}


/// Checking alarms `0..n` keeps the timers and alarms, sets the triggered flag
/// of each due alarm below `n` and leaves the flags at or above `n`; an alarm
/// that fires raises its IRQ and status bits.
pub proof fn lemma_check_upto_facts(s: PowmanState, n: int)
    requires
        s.wf(),
        0 <= n <= 4,
    ensures
        s.check_upto(n).wf(),
        s.check_upto(n).timers == s.timers,
        s.check_upto(n).timer_alarms == s.timer_alarms,
        s.check_upto(n).power_state == s.power_state,
        s.check_upto(n).ctrl == s.ctrl,
        s.check_upto(n).cycle_counter == s.cycle_counter,
        forall|i: int|
            0 <= i < n ==> #[trigger] s.check_upto(n).timer_triggered[i] == (s.timer_triggered[i]
                || s.alarm_due(i)),
        forall|i: int| n <= i < 4 ==> #[trigger] s.check_upto(n).timer_triggered[i] == s.timer_triggered[i],
        forall|i: int|
            0 <= i < n && s.alarm_due(i) ==> #[trigger] (s.check_upto(n).irq & (1u32 << (i as u32)))
                != 0,
    decreases n,
{
    if n > 0 {
        lemma_check_upto_facts(s, n - 1);
        let t = s.check_upto(n - 1);
        let k = n - 1;
        assert(t.alarm_due(k) == s.alarm_due(k));
        assert forall|i: int| 0 <= i < n && s.alarm_due(i) implies #[trigger] (s.check_upto(n).irq & (1u32 << (i as u32))) != 0 by {
            crate::bits::lemma_bit_ops(t.irq, k as u32, i as u32);
        }
    }
}

/// Checking alarms none of which is due changes nothing.
pub proof fn lemma_check_upto_idle(t: PowmanState, n: int)
    requires
        t.wf(),
        0 <= n <= 4,
        forall|i: int| 0 <= i < n ==> !#[trigger] t.alarm_due(i),
    ensures
        t.check_upto(n) == t,
    decreases n,
{
    if n > 0 {
        lemma_check_upto_idle(t, n - 1);
    }
}

/// An alarm fires once: a second tick, with no register written between,
/// changes nothing but the cycle counter.
pub proof fn lemma_tick_no_retrigger(s: PowmanState, c1: u64, c2: u64)
    requires
        s.wf(),
        s.cycle_counter + c1 + c2 <= u64::MAX,
    ensures
        s.after_tick(c1).after_tick(c2) == (PowmanState {
            cycle_counter: (s.cycle_counter + c1 + c2) as u64,
            ..s.after_tick(c1)
        }),
{
    let s1 = PowmanState { cycle_counter: (s.cycle_counter + c1) as u64, ..s };
    lemma_check_upto_facts(s1, 4);
    let t = s1.check_upto(4);
    let t1 = PowmanState { cycle_counter: (t.cycle_counter + c2) as u64, ..t };
    assert forall|i: int| 0 <= i < 4 implies !#[trigger] t1.alarm_due(i) by {
        assert(t.timer_triggered[i] == (s1.timer_triggered[i] || s1.alarm_due(i)));
    }
    lemma_check_upto_idle(t1, 4);
}

/// A tick after alarm `k` is written fires it exactly when its timer has
/// reached a nonzero alarm value, raising its IRQ bit.
pub proof fn lemma_rearmed_alarm(s: PowmanState, k: int, value: u32, cycles: u64)
    requires
        s.wf(),
        0 <= k < 4,
        s.cycle_counter + cycles <= u64::MAX,
    ensures
        ({
            let armed = s.after_write((regs::TIMER0_ALARM + 4 * k) as u32, value);
            &&& !armed.timer_triggered[k]
            &&& armed.after_tick(cycles).timer_triggered[k] == (s.timers[k] >= value && value != 0)
            &&& (s.timers[k] >= value && value != 0) ==> armed.after_tick(cycles).irq & (1u32 << (
            k as u32)) != 0
        }),
{
    let armed = s.after_write((regs::TIMER0_ALARM + 4 * k) as u32, value);
    assert(armed.wf());
    assert(armed.timers == s.timers);
    assert(armed.timer_alarms[k] == value);
    let a1 = PowmanState { cycle_counter: (armed.cycle_counter + cycles) as u64, ..armed };
    lemma_check_upto_facts(a1, 4);
}

/// Any register write leaves the power state the one that CTRL selects, if
/// it was so before.
pub proof fn lemma_power_state_follows_ctrl(s: PowmanState, offset: u32, value: u32)
    requires
        s.power_state == state_of_ctrl(s.ctrl),
    ensures
        s.after_write(offset, value).power_state == state_of_ctrl(s.after_write(offset, value).ctrl),
{
}

/// Setting CTRL bits that were clear and clearing them again restores CTRL
/// and the power state.
pub proof fn lemma_ctrl_set_then_clear(s: PowmanState, value: u32)
    requires
        s.ctrl & value == 0,
        s.power_state == state_of_ctrl(s.ctrl),
    ensures
        s.after_write(regs::CTRL_SET, value).after_write(regs::CTRL_CLR, value).ctrl == s.ctrl,
        s.after_write(regs::CTRL_SET, value).after_write(regs::CTRL_CLR, value).power_state
            == s.power_state,
{
    let x = s.ctrl;
    assert(x & value == 0 ==> (x | value) & !value == x) by (bit_vector);
}

/// A wake-up leaves the core active, with CTRL selecting neither sleep nor
/// deep sleep, the wake interrupt and every source bit raised, and a wake
/// pending.
pub proof fn lemma_wakeup_activates(s: PowmanState, source: u32)
    ensures
        !s.after_wakeup(source).is_sleeping(),
        state_of_ctrl(s.after_wakeup(source).ctrl) != PowerState::Sleep,
        state_of_ctrl(s.after_wakeup(source).ctrl) != PowerState::DeepSleep,
        s.after_wakeup(source).irq & irq::WAKE != 0,
        s.after_wakeup(source).irq & source == source,
        s.after_wakeup(source).status & status::WAKE_PENDING != 0,
{
    let c = s.ctrl;
    let q = s.irq;
    let t = s.status;
    assert((c & !(1u32 | 4u32)) & 4u32 == 0 && (c & !(1u32 | 4u32)) & 1u32 == 0 && (q | (0x800u32
        | source)) & 0x800u32 != 0 && (q | (0x800u32 | source)) & source == source && (t | 8u32)
        & 8u32 != 0) by (bit_vector);
}

/// STATUS as read shows the power state: SLEEPING in sleep and deep sleep,
/// DEEPSLEEP in deep sleep, LOWPWR in low power.
pub proof fn lemma_status_shows_power_state(s: PowmanState)
    ensures
        s.is_sleeping() ==> s.status_value() & status::SLEEPING != 0,
        s.power_state == PowerState::DeepSleep ==> s.status_value() & status::DEEPSLEEP != 0,
        s.power_state == PowerState::LowPower ==> s.status_value() & status::LOWPWR != 0,
{
    let x = s.status;
    assert((x | 1u32) & 1u32 != 0 && ((x | 1u32) | 4u32) & 1u32 != 0 && ((x | 1u32) | 4u32) & 4u32
        != 0 && (x | 2u32) & 2u32 != 0) by (bit_vector);
}

/// With brown-out detection enabled it trips exactly when its voltage select
/// is above the regulator's.
pub proof fn lemma_bod_compares_selects(s: PowmanState)
    requires
        s.bod_ctrl & bod_ctrl::EN != 0,
    ensures
        s.bod_tripped() <==> ((s.vreg_ctrl >> 4u32) & 0xF) < ((s.bod_ctrl >> 4u32) & 0xF),
{
    crate::bits::lemma_word_facts(s.vreg_ctrl >> 4u32, 0);
    crate::bits::lemma_word_facts(s.bod_ctrl >> 4u32, 0);
}

impl Default for PowerManager {
    fn default() -> (r: Self)
        ensures
            r@ == initial_state(),
    {
        PowerManager::new()
    }
}

impl PowerManager {
    /// Create a new Power Manager.
    pub fn new() -> (r: Self)
        ensures
            r@ == initial_state(),
    {
        let r = PowerManager {
            ctrl: ctrl::WAKE_EN | ctrl::TIMER_EN,
            status: status::VREG_OK,
            irq: 0,
            irqe: 0,
            timers: [0; 4],
            timer_alarms: [0; 4],
            timer_triggered: [false; 4],
            vreg_ctrl: vreg_ctrl::EN | (5u32 << vreg_ctrl::VSEL_SHIFT),
            bod_ctrl: 0,
            lposc_ctrl: 0,
            lposc_freq: 32768,
            dbg_force: 0,
            pow_ready: 0,
            pow_count: 0,
            pow_seq: 0,
            gpio_wakeup: [0; 4],
            gpio_wdsel: 0,
            gpio_wake: 0,
            proc0_wake: 0,
            proc1_wake: 0,
            proc0_config: 0,
            proc1_config: 0,
            power_state: PowerState::Active,
            cycle_counter: 0,
        };
        assert(r@ =~= initial_state());
        r
    }

    /// Check if sleeping.
    pub fn is_sleeping(&self) -> (r: bool)
        ensures
            r == self@.is_sleeping(),
    {
        self.power_state == PowerState::Sleep || self.power_state == PowerState::DeepSleep
    }

    /// Get power state.
    pub fn get_power_state(&self) -> (r: PowerState)
        ensures
            r == self.power_state,
    {
        self.power_state
    }

    /// Set the power state from the control register.
    pub fn update_power_state(&mut self)
        ensures
            final(self)@ == old(self)@.with_ctrl(old(self).ctrl),
    {
        if (self.ctrl & ctrl::DEEPSLEEP) != 0 {
            self.power_state = PowerState::DeepSleep;
        } else if (self.ctrl & ctrl::SLEEP) != 0 {
            self.power_state = PowerState::Sleep;
        } else if (self.ctrl & ctrl::LOWPWR) != 0 {
            self.power_state = PowerState::LowPower;
        } else {
            self.power_state = PowerState::Active;
        }
    }

    /// Wake up from sleep, recording `source` and the wake interrupt.
    pub fn wakeup(&mut self, source: u32)
        ensures
            final(self)@ == old(self)@.after_wakeup(source),
    {
        self.ctrl = self.ctrl & !(ctrl::SLEEP | ctrl::DEEPSLEEP);
        self.power_state = PowerState::Active;
        self.status = self.status | status::WAKE_PENDING;
        self.irq = self.irq | (irq::WAKE | source);
    }

    /// Advance the cycle counter and fire the timer alarms that are due.
    pub fn tick(&mut self, cycles: u64)
        requires
            old(self).cycle_counter + cycles <= u64::MAX,
        ensures
            final(self)@ == old(self)@.after_tick(cycles),
    {
        self.cycle_counter = self.cycle_counter + cycles;
        let ghost start = self@;
        let mut i: usize = 0;
        while i < 4
            invariant
                i <= 4,
                self@ == start.check_upto(i as int),
            decreases 4 - i,
        {
            if !self.timer_triggered[i] && self.timers[i] >= self.timer_alarms[i]
                && self.timer_alarms[i] != 0 {
                self.timer_triggered[i] = true;
                self.irq = self.irq | (1u32 << (i as u32));
                self.status = self.status | (1u32 << (4 + i as u32));
            }
            assert(self@ =~= start.check_upto(i + 1));
            i = i + 1;
        }
    }

    /// Get voltage regulator voltage in millivolts.
    pub fn get_voltage(&self) -> (r: u32)
        ensures
            r == self@.voltage(),
    {
        let vsel = (self.vreg_ctrl >> vreg_ctrl::VSEL_SHIFT) & 0xF;
        proof {
            crate::bits::lemma_word_facts(self.vreg_ctrl >> 4u32, 0);
        }
        800 + vsel * 37
    }

    /// Check brown-out detection.
    pub fn check_bod(&self) -> (r: bool)
        ensures
            r == self@.bod_tripped(),
    {
        if (self.bod_ctrl & bod_ctrl::EN) == 0 {
            return false;
        }
        let bod_vsel = (self.bod_ctrl >> bod_ctrl::VSEL_SHIFT) & 0xF;
        proof {
            crate::bits::lemma_word_facts(self.bod_ctrl >> 4u32, 0);
        }
        let bod_voltage = 800 + bod_vsel * 37;
        let current_voltage = self.get_voltage();
        current_voltage < bod_voltage
    }

    /// Get low-power oscillator frequency.
    pub fn get_lposc_freq(&self) -> (r: u32)
        ensures
            r == self.lposc_freq,
    {
        self.lposc_freq
    }

    pub fn id(&self) -> (r: DeviceId)
        ensures
            r == DeviceId::POWMAN,
    {
        DeviceId::POWMAN
    }

    /// STATUS as read.
    pub fn read_status(&self) -> (r: u32)
        ensures
            r == self@.status_value(),
    {
        let mut status = self.status;
        if self.power_state == PowerState::Sleep {
            status = status | status::SLEEPING;
        }
        if self.power_state == PowerState::DeepSleep {
            status = status | status::SLEEPING;
            status = status | status::DEEPSLEEP;
        }
        if self.power_state == PowerState::LowPower {
            status = status | status::LOWPWR;
        }
        status
    }

    pub fn read(&mut self, addr: u32) -> (r: u32)
        requires
            addr >= POWMAN_BASE,
        ensures
            r == old(self)@.read_value((addr - POWMAN_BASE) as u32),
            *final(self) == *old(self),
    {
        let offset = addr - POWMAN_BASE;
        if offset == regs::CTRL {
            self.ctrl
        } else if offset == regs::STATUS {
            self.read_status()
        } else if offset == regs::IRQ {
            self.irq
        } else if offset == regs::IRQE {
            self.irqe
        } else if offset == regs::TIMER0 {
            self.timers[0]
        } else if offset == regs::TIMER1 {
            self.timers[1]
        } else if offset == regs::TIMER2 {
            self.timers[2]
        } else if offset == regs::TIMER3 {
            self.timers[3]
        } else if offset == regs::TIMER0_ALARM {
            self.timer_alarms[0]
        } else if offset == regs::TIMER1_ALARM {
            self.timer_alarms[1]
        } else if offset == regs::TIMER2_ALARM {
            self.timer_alarms[2]
        } else if offset == regs::TIMER3_ALARM {
            self.timer_alarms[3]
        } else if offset == regs::VREG_CTRL {
            self.vreg_ctrl
        } else if offset == regs::BOD_CTRL {
            self.bod_ctrl
        } else if offset == regs::LPOSC_CTRL {
            self.lposc_ctrl
        } else if offset == regs::LPOSC_FREQ {
            self.lposc_freq
        } else if offset == regs::DBG_FORCE {
            self.dbg_force
        } else if offset == regs::POW_READY {
            self.pow_ready
        } else if offset == regs::POW_COUNT {
            self.pow_count
        } else if offset == regs::POW_SEQ {
            self.pow_seq
        } else if offset == regs::GPIO0 {
            self.gpio_wakeup[0]
        } else if offset == regs::GPIO1 {
            self.gpio_wakeup[1]
        } else if offset == regs::GPIO2 {
            self.gpio_wakeup[2]
        } else if offset == regs::GPIO3 {
            self.gpio_wakeup[3]
        } else if offset == regs::GPIO_WDSEL {
            self.gpio_wdsel
        } else if offset == regs::GPIO_WAKE {
            self.gpio_wake
        } else if offset == regs::PROC0_WAKE {
            self.proc0_wake
        } else if offset == regs::PROC1_WAKE {
            self.proc1_wake
        } else if offset == regs::PROC0_CONFIG {
            self.proc0_config
        } else if offset == regs::PROC1_CONFIG {
            self.proc1_config
        } else {
            0
        }
    }

    pub fn write(&mut self, addr: u32, value: u32)
        requires
            addr >= POWMAN_BASE,
        ensures
            final(self)@ == old(self)@.after_write((addr - POWMAN_BASE) as u32, value),
    {
        let offset = addr - POWMAN_BASE;
        if offset == regs::CTRL || offset == regs::CTRL_SET {
            self.ctrl = self.ctrl | value;
            self.update_power_state();
        } else if offset == regs::CTRL_CLR {
            self.ctrl = self.ctrl & !value;
            self.update_power_state();
        } else if offset == regs::IRQ {
            self.irq = value;
        } else if offset == regs::IRQ_SET {
            self.irq = self.irq | value;
        } else if offset == regs::IRQ_CLR {
            self.irq = self.irq & !value;
        } else if offset == regs::IRQE || offset == regs::IRQE_SET {
            self.irqe = self.irqe | value;
        } else if offset == regs::IRQE_CLR {
            self.irqe = self.irqe & !value;
        } else if offset == regs::TIMER0 {
            self.timers[0] = value;
        } else if offset == regs::TIMER1 {
            self.timers[1] = value;
        } else if offset == regs::TIMER2 {
            self.timers[2] = value;
        } else if offset == regs::TIMER3 {
            self.timers[3] = value;
        } else if offset == regs::TIMER0_ALARM {
            self.timer_alarms[0] = value;
            self.timer_triggered[0] = false;
        } else if offset == regs::TIMER1_ALARM {
            self.timer_alarms[1] = value;
            self.timer_triggered[1] = false;
        } else if offset == regs::TIMER2_ALARM {
            self.timer_alarms[2] = value;
            self.timer_triggered[2] = false;
        } else if offset == regs::TIMER3_ALARM {
            self.timer_alarms[3] = value;
            self.timer_triggered[3] = false;
        } else if offset == regs::VREG_CTRL || offset == regs::VREG_CTRL_SET {
            self.vreg_ctrl = self.vreg_ctrl | value;
        } else if offset == regs::VREG_CTRL_CLR {
            self.vreg_ctrl = self.vreg_ctrl & !value;
        } else if offset == regs::BOD_CTRL || offset == regs::BOD_CTRL_SET {
            self.bod_ctrl = self.bod_ctrl | value;
        } else if offset == regs::BOD_CTRL_CLR {
            self.bod_ctrl = self.bod_ctrl & !value;
        } else if offset == regs::LPOSC_CTRL || offset == regs::LPOSC_CTRL_SET {
            self.lposc_ctrl = self.lposc_ctrl | value;
        } else if offset == regs::LPOSC_CTRL_CLR {
            self.lposc_ctrl = self.lposc_ctrl & !value;
        } else if offset == regs::LPOSC_FREQ {
            self.lposc_freq = value;
        } else if offset == regs::DBG_FORCE || offset == regs::DBG_FORCE_SET {
            self.dbg_force = self.dbg_force | value;
        } else if offset == regs::DBG_FORCE_CLR {
            self.dbg_force = self.dbg_force & !value;
        } else if offset == regs::POW_READY {
            self.pow_ready = value;
        } else if offset == regs::POW_COUNT {
            self.pow_count = value;
        } else if offset == regs::POW_SEQ || offset == regs::POW_SEQ_SET {
            self.pow_seq = self.pow_seq | value;
        } else if offset == regs::POW_SEQ_CLR {
            self.pow_seq = self.pow_seq & !value;
        } else if offset == regs::GPIO0 {
            self.gpio_wakeup[0] = value;
        } else if offset == regs::GPIO1 {
            self.gpio_wakeup[1] = value;
        } else if offset == regs::GPIO2 {
            self.gpio_wakeup[2] = value;
        } else if offset == regs::GPIO3 {
            self.gpio_wakeup[3] = value;
        } else if offset == regs::GPIO_WDSEL || offset == regs::GPIO_WDSEL_SET {
            self.gpio_wdsel = self.gpio_wdsel | value;
        } else if offset == regs::GPIO_WDSEL_CLR {
            self.gpio_wdsel = self.gpio_wdsel & !value;
        } else if offset == regs::GPIO_WAKE || offset == regs::GPIO_WAKE_SET {
            self.gpio_wake = self.gpio_wake | value;
        } else if offset == regs::GPIO_WAKE_CLR {
            self.gpio_wake = self.gpio_wake & !value;
        } else if offset == regs::PROC0_WAKE || offset == regs::PROC0_WAKE_SET {
            self.proc0_wake = self.proc0_wake | value;
        } else if offset == regs::PROC0_WAKE_CLR {
            self.proc0_wake = self.proc0_wake & !value;
        } else if offset == regs::PROC1_WAKE || offset == regs::PROC1_WAKE_SET {
            self.proc1_wake = self.proc1_wake | value;
        } else if offset == regs::PROC1_WAKE_CLR {
            self.proc1_wake = self.proc1_wake & !value;
        } else if offset == regs::PROC0_CONFIG || offset == regs::PROC0_CONFIG_SET {
            self.proc0_config = self.proc0_config | value;
        } else if offset == regs::PROC0_CONFIG_CLR {
            self.proc0_config = self.proc0_config & !value;
        } else if offset == regs::PROC1_CONFIG || offset == regs::PROC1_CONFIG_SET {
            self.proc1_config = self.proc1_config | value;
        } else if offset == regs::PROC1_CONFIG_CLR {
            self.proc1_config = self.proc1_config & !value;
        }
    }

    pub fn reset(&mut self)
        ensures
            final(self)@ == initial_state(),
    {
        *self = PowerManager::new();
    }
}

} // verus!
