//! Real-time clock: calendar time advanced by clock cycles, setup and
//! alarm registers, and the alarm interrupt.
use vstd::prelude::*;

use crate::device::DeviceId;

pub mod ctrl;
pub mod irq;
pub mod regs;
pub mod setup_0;
pub mod setup_1;

verus! {

/// RTC base address.
pub const RTC_BASE: u32 = 0x400B_C000;

/// Clock cycles per second after power-on.
pub const DEFAULT_TICKS_PER_SECOND: u64 = 1_000_000;

/// Calendar time.
#[derive(Debug, Clone, Copy, PartialEq, Eq, Structural)]
pub struct RtcTime {
    /// Seconds (0-59).
    pub second: u8,
    /// Minutes (0-59).
    pub minute: u8,
    /// Hours (0-23).
    pub hour: u8,
    /// Day of week (0-6, Sunday=0).
    pub day_of_week: u8,
    /// Day of month (1-31).
    pub day: u8,
    /// Month (1-12).
    pub month: u8,
    /// Year (0-4095).
    pub year: u16,
}

impl Default for RtcTime {
    fn default() -> (r: Self)
        ensures
            r == zero_time(),
    {
        RtcTime { second: 0, minute: 0, hour: 0, day_of_week: 0, day: 0, month: 0, year: 0 }
    }
}

pub open spec fn zero_time() -> RtcTime {
    RtcTime { second: 0, minute: 0, hour: 0, day_of_week: 0, day: 0, month: 0, year: 0 }
}

/// Gregorian leap year.
pub open spec fn leap_year(year: u16) -> bool {
    (year % 4 == 0 && year % 100 != 0) || year % 400 == 0
}

/// Days in a month (30 for a month number out of range).
pub open spec fn month_days(month: u8, year: u16) -> u8 {
    if month == 1 || month == 3 || month == 5 || month == 7 || month == 8 || month == 10 || month
        == 12 {
        31
    } else if month == 4 || month == 6 || month == 9 || month == 11 {
        30
    } else if month == 2 {
        if leap_year(year) { 29 } else { 28 }
    } else {
        30
    }
}

/// Day of week by Zeller's congruence, Sunday = 0; January and February
/// count as months 13 and 14 of the previous year.
pub open spec fn weekday(day: u8, month: u8, year: u16) -> u8 {
    let m: int = if month < 3 { month + 12 } else { month as int };
    let y: int = if month < 3 { year - 1 } else { year as int };
    let h = (day + (13 * (m + 1)) / 5 + y + y / 4 - y / 100 + y / 400) % 7;
    ((h + 6) % 7) as u8
}

/// SETUP_0 layout: second, minute, hour and day of week.
pub open spec fn setup0_of(t: RtcTime) -> u32 {
    ((t.second as u32 & setup_0::SECOND_MASK) << setup_0::SECOND_SHIFT) | ((t.minute as u32
        & 0x3F) << setup_0::MINUTE_SHIFT) | ((t.hour as u32 & 0x1F) << setup_0::HOUR_SHIFT) | ((
    t.day_of_week as u32 & 0x7) << setup_0::DAY_OF_WEEK_SHIFT)
}

/// SETUP_1 layout: day, month and year.
pub open spec fn setup1_of(t: RtcTime) -> u32 {
    ((t.day as u32 & setup_1::DAY_MASK) << setup_1::DAY_SHIFT) | ((t.month as u32 & 0xF)
        << setup_1::MONTH_SHIFT) | ((t.year as u32 & 0xFFF) << setup_1::YEAR_SHIFT)
}

/// Time decoded from SETUP_0 and SETUP_1.
pub open spec fn time_of(s0: u32, s1: u32) -> RtcTime {
    RtcTime {
        second: ((s0 >> setup_0::SECOND_SHIFT) & 0x3F) as u8,
        minute: ((s0 >> setup_0::MINUTE_SHIFT) & 0x3F) as u8,
        hour: ((s0 >> setup_0::HOUR_SHIFT) & 0x1F) as u8,
        day_of_week: ((s0 >> setup_0::DAY_OF_WEEK_SHIFT) & 0x7) as u8,
        day: ((s1 >> setup_1::DAY_SHIFT) & 0x1F) as u8,
        month: ((s1 >> setup_1::MONTH_SHIFT) & 0xF) as u8,
        year: ((s1 >> setup_1::YEAR_SHIFT) & 0xFFF) as u16,
    }
}

/// Fields within what the setup registers hold.
pub open spec fn fits_registers(t: RtcTime) -> bool {
    t.second < 64 && t.minute < 64 && t.hour < 32 && t.day_of_week < 8 && t.day < 32 && t.month
        < 16 && t.year < 4096
}

/// A calendar time in range.
pub open spec fn valid_time(t: RtcTime) -> bool {
    &&& t.second < 60
    &&& t.minute < 60
    &&& t.hour < 24
    &&& t.day_of_week < 7
    &&& 1 <= t.month <= 12
    &&& 1 <= t.day <= month_days(t.month, t.year)
}

/// The time one second later: seconds, minutes and hours roll over, the day
/// and weekday advance at midnight, and month and year follow the calendar.
pub open spec fn advance_time(t: RtcTime) -> RtcTime {
    if t.second + 1 < 60 {
        RtcTime { second: (t.second + 1) as u8, ..t }
    } else if t.minute + 1 < 60 {
        RtcTime { second: 0, minute: (t.minute + 1) as u8, ..t }
    } else if t.hour + 1 < 24 {
        RtcTime { second: 0, minute: 0, hour: (t.hour + 1) as u8, ..t }
    } else {
        let dow = ((t.day_of_week + 1) % 7) as u8;
        if t.day + 1 <= month_days(t.month, t.year) {
            RtcTime { second: 0, minute: 0, hour: 0, day: (t.day + 1) as u8, day_of_week: dow, ..t }
        } else if t.month + 1 <= 12 {
            RtcTime {
                second: 0,
                minute: 0,
                hour: 0,
                day: 1,
                day_of_week: dow,
                month: (t.month + 1) as u8,
                ..t
            }
        } else {
            RtcTime {
                second: 0,
                minute: 0,
                hour: 0,
                day: 1,
                day_of_week: dow,
                month: 1,
                year: (t.year + 1) as u16,
            }
        }
    }
}

/// Advancing the time by one second stays within the field types.
pub open spec fn advance_ok(t: RtcTime) -> bool {
    &&& t.second < 255
    &&& t.second + 1 >= 60 ==> t.minute < 255
    &&& t.second + 1 >= 60 && t.minute + 1 >= 60 ==> t.hour < 255
    &&& t.second + 1 >= 60 && t.minute + 1 >= 60 && t.hour + 1 >= 24 ==> {
        &&& t.day < 255
        &&& t.day_of_week < 255
        &&& t.day + 1 > month_days(t.month, t.year) ==> t.month < 255 && (t.month + 1 > 12
            ==> t.year < 65535)
    }
}

/// Alarm configuration.
#[derive(Debug, Clone, Copy)]
pub struct RtcAlarm {
    /// Match second.
    pub second: Option<u8>,
    /// Match minute.
    pub minute: Option<u8>,
    /// Match hour.
    pub hour: Option<u8>,
    /// Match day of week.
    pub day_of_week: Option<u8>,
    /// Match day of month.
    pub day: Option<u8>,
    /// Match month.
    pub month: Option<u8>,
    /// Match year.
    pub year: Option<u16>,
    /// Enable year matching.
    pub year_en: bool,
    /// Enable month matching.
    pub month_en: bool,
    /// Enable day matching.
    pub day_en: bool,
}

pub open spec fn no_alarm() -> RtcAlarm {
    RtcAlarm {
        second: None,
        minute: None,
        hour: None,
        day_of_week: None,
        day: None,
        month: None,
        year: None,
        year_en: false,
        month_en: false,
        day_en: false,
    }
}

impl Default for RtcAlarm {
    fn default() -> (r: Self)
        ensures
            r == no_alarm(),
    {
        RtcAlarm {
            second: None,
            minute: None,
            hour: None,
            day_of_week: None,
            day: None,
            month: None,
            year: None,
            year_en: false,
            month_en: false,
            day_en: false,
        }
    }
}

/// A field matches when the alarm does not name it or names its value.
pub open spec fn field_matches(a: Option<u8>, v: u8) -> bool {
    match a {
        Some(x) => x == v,
        None => true,
    }
}

/// The alarm matches the time: seconds, minutes, hours and weekday always
/// take part; day, month and year only when their enable bits are set.
pub open spec fn alarm_matches(a: RtcAlarm, t: RtcTime) -> bool {
    &&& field_matches(a.second, t.second)
    &&& field_matches(a.minute, t.minute)
    &&& field_matches(a.hour, t.hour)
    &&& field_matches(a.day_of_week, t.day_of_week)
    &&& (!a.day_en || field_matches(a.day, t.day))
    &&& (!a.month_en || field_matches(a.month, t.month))
    &&& (!a.year_en || match a.year {
        Some(y) => y == t.year,
        None => true,
    })
}

/// Alarm decoded from the IRQ setup registers.
pub open spec fn alarm_of(s0: u32, s1: u32, s3: u32) -> RtcAlarm {
    let t = time_of(s0, s1);
    RtcAlarm {
        second: Some(t.second),
        minute: Some(t.minute),
        hour: Some(t.hour),
        day_of_week: Some(t.day_of_week),
        day: Some(t.day),
        month: Some(t.month),
        year: Some(t.year),
        year_en: s3 & 1 != 0,
        month_en: s3 & 2 != 0,
        day_en: s3 & 4 != 0,
    }
}

impl RtcTime {
    /// A time with its weekday computed from the date.
    pub fn new(second: u8, minute: u8, hour: u8, day: u8, month: u8, year: u16) -> (r: Self)
        requires
            month < 3 ==> year >= 1,
        ensures
            r == (RtcTime {
                second,
                minute,
                hour,
                day_of_week: weekday(day, month, year),
                day,
                month,
                year,
            }),
    {
        RtcTime {
            second,
            minute,
            hour,
            day_of_week: Self::calculate_day_of_week(day, month, year),
            day,
            month,
            year,
        }
    }

    /// Day of week from the date by Zeller's congruence (Sunday = 0).
    fn calculate_day_of_week(day: u8, month: u8, year: u16) -> (r: u8)
        requires
            month < 3 ==> year >= 1,
        ensures
            r == weekday(day, month, year),
    {
        let m: i32 = if month < 3 {
            month as i32 + 12
        } else {
            month as i32
        };
        let y: i32 = if month < 3 {
            (year - 1) as i32
        } else {
            year as i32
        };
        let d = day as i32;
        let h = (d + (13 * (m + 1)) / 5 + y + y / 4 - y / 100 + y / 400) % 7;
        ((h + 6) % 7) as u8
    }

    /// Gregorian leap year.
    pub fn is_leap_year(year: u16) -> (r: bool)
        ensures
            r == leap_year(year),
    {
        (year % 4 == 0 && year % 100 != 0) || (year % 400 == 0)
    }

    /// Days in a month.
    pub fn days_in_month(month: u8, year: u16) -> (r: u8)
        ensures
            r == month_days(month, year),
    {
        if month == 1 || month == 3 || month == 5 || month == 7 || month == 8 || month == 10
            || month == 12 {
            31
        } else if month == 4 || month == 6 || month == 9 || month == 11 {
            30
        } else if month == 2 {
            if Self::is_leap_year(year) {
                29
            } else {
                28
            }
        } else {
            30
        }
    }

    /// SETUP_0 encoding of the time.
    pub fn to_setup_0(&self) -> (r: u32)
        ensures
            r == setup0_of(*self),
    {
        ((self.second as u32 & setup_0::SECOND_MASK) << setup_0::SECOND_SHIFT) | ((
        self.minute as u32 & 0x3F) << setup_0::MINUTE_SHIFT) | ((self.hour as u32 & 0x1F)
            << setup_0::HOUR_SHIFT) | ((self.day_of_week as u32 & 0x7)
            << setup_0::DAY_OF_WEEK_SHIFT)
    }

    /// SETUP_1 encoding of the date.
    pub fn to_setup_1(&self) -> (r: u32)
        ensures
            r == setup1_of(*self),
    {
        ((self.day as u32 & setup_1::DAY_MASK) << setup_1::DAY_SHIFT) | ((self.month as u32
            & 0xF) << setup_1::MONTH_SHIFT) | ((self.year as u32 & 0xFFF) << setup_1::YEAR_SHIFT)
    }

    /// Decode a time from SETUP_0 and SETUP_1.
    pub fn from_registers(setup_0: u32, setup_1: u32) -> (r: Self)
        ensures
            r == time_of(setup_0, setup_1),
    {
        RtcTime {
            second: ((setup_0 >> setup_0::SECOND_SHIFT) & 0x3F) as u8,
            minute: ((setup_0 >> setup_0::MINUTE_SHIFT) & 0x3F) as u8,
            hour: ((setup_0 >> setup_0::HOUR_SHIFT) & 0x1F) as u8,
            day_of_week: ((setup_0 >> setup_0::DAY_OF_WEEK_SHIFT) & 0x7) as u8,
            day: ((setup_1 >> setup_1::DAY_SHIFT) & 0x1F) as u8,
            month: ((setup_1 >> setup_1::MONTH_SHIFT) & 0xF) as u8,
            year: ((setup_1 >> setup_1::YEAR_SHIFT) & 0xFFF) as u16,
        }
    }
}

/// Encoding a time into the setup registers and decoding it again gives the
/// same time, for every time whose fields fit the registers.
pub proof fn lemma_setup_round_trip(t: RtcTime)
    requires
        fits_registers(t),
    ensures
        time_of(setup0_of(t), setup1_of(t)) == t,
{
    let s = t.second as u32;
    let mi = t.minute as u32;
    let h = t.hour as u32;
    let w = t.day_of_week as u32;
    let d = t.day as u32;
    let mo = t.month as u32;
    let y = t.year as u32;
    let s0 = setup0_of(t);
    let s1 = setup1_of(t);
    assert(s0 == ((s & 0x3F) << 0u32) | ((mi & 0x3F) << 6u32) | ((h & 0x1F) << 12u32) | ((w & 0x7)
        << 24u32));
    assert(s1 == ((d & 0x1F) << 0u32) | ((mo & 0xF) << 8u32) | ((y & 0xFFF) << 12u32));
    assert({
        &&& (s0 >> 0u32) & 0x3F == s
        &&& (s0 >> 6u32) & 0x3F == mi
        &&& (s0 >> 12u32) & 0x1F == h
        &&& (s0 >> 24u32) & 0x7 == w
        &&& (s1 >> 0u32) & 0x1F == d
        &&& (s1 >> 8u32) & 0xF == mo
        &&& (s1 >> 12u32) & 0xFFF == y
    }) by (bit_vector)
        requires
            s0 == ((s & 0x3F) << 0u32) | ((mi & 0x3F) << 6u32) | ((h & 0x1F) << 12u32) | ((w & 0x7)
                << 24u32),
            s1 == ((d & 0x1F) << 0u32) | ((mo & 0xF) << 8u32) | ((y & 0xFFF) << 12u32),
            s < 64,
            mi < 64,
            h < 32,
            w < 8,
            d < 32,
            mo < 16,
            y < 4096,
    ;
}

/// A valid time before the last representable year advances without
/// overflow to a valid time.
pub proof fn lemma_advance_keeps_valid(t: RtcTime)
    requires
        valid_time(t),
        t.year < 65535,
    ensures
        advance_ok(t),
        valid_time(advance_time(t)),
{
    let u = advance_time(t);
    assert(month_days(u.month, u.year) >= 28);
}

/// RTC controller.
#[derive(Debug)]
pub struct Rtc {
    /// Control register.
    pub ctrl: u32,
    /// Interrupt status.
    pub ints: u32,
    /// Interrupt enable.
    pub inte: u32,
    /// Interrupt force.
    pub intf: u32,
    /// Setup registers.
    pub setup: [u32; 4],
    /// Current time registers.
    pub rtc: [u32; 4],
    /// Alarm setup registers.
    pub irq_setup: [u32; 4],
    /// Current time.
    pub current_time: RtcTime,
    /// Alarm configuration.
    pub alarm: RtcAlarm,
    /// Clock cycles not yet counted as a second.
    pub tick_counter: u64,
    /// Clock cycles per second.
    pub ticks_per_second: u64,
    /// Alarm triggered flag.
    pub alarm_triggered: bool,
}

/// Abstract state of the RTC.
#[verifier::ext_equal]
pub ghost struct RtcState {
    pub ctrl: u32,
    pub ints: u32,
    pub inte: u32,
    pub intf: u32,
    pub setup: Seq<u32>,
    pub rtc: Seq<u32>,
    pub irq_setup: Seq<u32>,
    pub time: RtcTime,
    pub alarm: RtcAlarm,
    pub tick_counter: u64,
    pub ticks_per_second: u64,
    pub alarm_triggered: bool,
}

impl View for Rtc {
    type V = RtcState;

    open spec fn view(&self) -> RtcState {
        RtcState {
            ctrl: self.ctrl,
            ints: self.ints,
            inte: self.inte,
            intf: self.intf,
            setup: self.setup@,
            rtc: self.rtc@,
            irq_setup: self.irq_setup@,
            time: self.current_time,
            alarm: self.alarm,
            tick_counter: self.tick_counter,
            ticks_per_second: self.ticks_per_second,
            alarm_triggered: self.alarm_triggered,
        }
    }
}

impl RtcState {
    pub open spec fn initial() -> RtcState {
        RtcState {
            ctrl: 0,
            ints: 0,
            inte: 0,
            intf: 0,
            setup: Seq::new(4, |i: int| 0u32),
            rtc: Seq::new(4, |i: int| 0u32),
            irq_setup: Seq::new(4, |i: int| 0u32),
            time: zero_time(),
            alarm: no_alarm(),
            tick_counter: 0,
            ticks_per_second: DEFAULT_TICKS_PER_SECOND,
            alarm_triggered: false,
        }
    }

    pub open spec fn wf(self) -> bool {
        &&& self.setup.len() == 4
        &&& self.rtc.len() == 4
        &&& self.irq_setup.len() == 4
    }

    pub open spec fn enabled(self) -> bool {
        self.ctrl & ctrl::RTC_ENABLE != 0
    }

    /// The time registers follow a new time.
    pub open spec fn with_time(self, t: RtcTime) -> RtcState {
        RtcState {
            time: t,
            rtc: self.rtc.update(0, setup0_of(t)).update(1, setup1_of(t)),
            ..self
        }
    }

    /// Raise the alarm interrupt when the alarm is not already triggered and
    /// matches the time.
    pub open spec fn alarm_checked(self) -> RtcState {
        if !self.alarm_triggered && alarm_matches(self.alarm, self.time) {
            RtcState { alarm_triggered: true, ints: self.ints | irq::RTC, ..self }
        } else {
            self
        }
    }

    /// One second passes.
    pub open spec fn second_passed(self) -> RtcState {
        self.with_time(advance_time(self.time)).alarm_checked()
    }

    /// Counting whole seconds out of `counter` cycles.
    pub open spec fn run(self, counter: int) -> RtcState
        decreases counter,
    {
        if self.ticks_per_second == 0 || counter < self.ticks_per_second {
            RtcState { tick_counter: counter as u64, ..self }
        } else {
            self.second_passed().run(counter - self.ticks_per_second)
        }
    }

    /// Every second counted out of `counter` cycles advances without overflow.
    pub open spec fn run_ok(self, counter: int) -> bool
        decreases counter,
    {
        if self.ticks_per_second == 0 || counter < self.ticks_per_second {
            true
        } else {
            advance_ok(self.time) && self.second_passed().run_ok(counter - self.ticks_per_second)
        }
    }

    /// A tick can run: the counter does not overflow, a second has a
    /// positive length, and every second counted advances without overflow.
    pub open spec fn tick_ok(self, cycles: u64) -> bool {
        self.enabled() ==> {
            &&& self.tick_counter + cycles <= u64::MAX
            &&& self.ticks_per_second > 0
            &&& self.run_ok(self.tick_counter + cycles)
        }
    }

    pub open spec fn after_tick(self, cycles: u64) -> RtcState {
        if !self.enabled() {
            self
        } else {
            self.run(self.tick_counter + cycles)
        }
    }

    pub open spec fn with_alarm_setup(self, i: int, value: u32) -> RtcState {
        let s = self.irq_setup.update(i, value);
        RtcState { irq_setup: s, alarm: alarm_of(s[0], s[1], s[3]), ..self }
    }

    pub open spec fn read_value(self, offset: u32) -> u32 {
        if offset == regs::CTRL {
            self.ctrl
        } else if offset == regs::INTS {
            self.ints
        } else if offset == regs::INTE {
            self.inte
        } else if offset == regs::INTF {
            self.intf
        } else if regs::SETUP_0 <= offset <= regs::SETUP_3 && offset % 4 == 0 {
            self.setup[(offset - regs::SETUP_0) / 4]
        } else if regs::RTC_0 <= offset <= regs::RTC_3 && offset % 4 == 0 {
            self.rtc[(offset - regs::RTC_0) / 4]
        } else if regs::IRQ_SETUP_0 <= offset <= regs::IRQ_SETUP_3 && offset % 4 == 0 {
            self.irq_setup[(offset - regs::IRQ_SETUP_0) / 4]
        } else {
            0
        }
    }

    pub open spec fn after_write(self, offset: u32, value: u32) -> RtcState {
        if offset == regs::CTRL {
            let s = RtcState { ctrl: value, ..self };
            if value & ctrl::RTC_LOAD != 0 {
                s.with_time(time_of(s.setup[0], s.setup[1]))
            } else {
                s
            }
        } else if offset == regs::INTS {
            RtcState {
                ints: self.ints & !value,
                alarm_triggered: if value & irq::RTC != 0 { false } else { self.alarm_triggered },
                ..self
            }
        } else if offset == regs::INTE {
            RtcState { inte: value, ..self }
        } else if offset == regs::INTF {
            RtcState { intf: value, ..self }
        } else if regs::SETUP_0 <= offset <= regs::SETUP_3 && offset % 4 == 0 {
            RtcState { setup: self.setup.update((offset - regs::SETUP_0) / 4, value), ..self }
        } else if regs::IRQ_SETUP_0 <= offset <= regs::IRQ_SETUP_3 && offset % 4 == 0 {
            self.with_alarm_setup((offset - regs::IRQ_SETUP_0) / 4, value)
        } else {
            self
        }
    }
}

/// Counting seconds does not depend on the cycles already pending.
proof fn lemma_run_ignores_counter(s: RtcState, c: int, k: u64)
    ensures
        (RtcState { tick_counter: k, ..s }).run(c) == s.run(c),
        (RtcState { tick_counter: k, ..s }).run_ok(c) == s.run_ok(c),
    decreases c,
{
    let t = RtcState { tick_counter: k, ..s };
    if !(s.ticks_per_second == 0 || c < s.ticks_per_second) {
        assert(t.second_passed() == RtcState { tick_counter: k, ..s.second_passed() });
        lemma_run_ignores_counter(s.second_passed(), c - s.ticks_per_second, k);
    }
}

/// The calendar day after `day`.`month`.`year`.
pub open spec fn next_date(day: u8, month: u8, year: u16) -> (u8, u8, u16) {
    if day < month_days(month, year) {
        ((day + 1) as u8, month, year)
    } else if month < 12 {
        (1, (month + 1) as u8, year)
    } else {
        (1, 1, (year + 1) as u16)
    }
}

/// Weekdays run on day by day: the day after any valid date, across month
/// and year ends and leap days, falls one weekday later (Sunday = 0); and
/// 1 January 2000 was a Saturday.
pub proof fn lemma_weekday_successor(day: u8, month: u8, year: u16)
    requires
        1 <= month <= 12,
        1 <= day <= month_days(month, year),
        1 <= year < 65535,
    ensures
        weekday(next_date(day, month, year).0, next_date(day, month, year).1, next_date(
            day,
            month,
            year,
        ).2) == (weekday(day, month, year) + 1) % 7,
        weekday(1, 1, 2000) == 6,
{
    if day < month_days(month, year) {
        lemma_weekday_next_day(day, month, year);
    } else if month == 2 {
        lemma_weekday_march(year);
    } else {
        lemma_weekday_month_end(month, year);
    }
    assert(1999int / 4 == 499 && 1999int / 100 == 19 && 1999int / 400 == 4 && (13 * 14) / 5 == 36);
    assert(weekday(1, 1, 2000) == 6);
}

/// Within a month the weekday advances by one.
proof fn lemma_weekday_next_day(day: u8, month: u8, year: u16)
    requires
        1 <= month <= 12,
        1 <= day < month_days(month, year),
        1 <= year,
    ensures
        weekday((day + 1) as u8, month, year) == (weekday(day, month, year) + 1) % 7,
{
}

/// 1 March follows the last day of February one weekday later.
#[verifier::spinoff_prover]
proof fn lemma_weekday_march(year: u16)
    requires
        1 <= year,
    ensures
        weekday(1, 3, year) == (weekday(month_days(2, year), 2, year) + 1) % 7,
{
    let y: int = year as int;
    let p: int = y - 1;
    assert(y / 4 - p / 4 == if y % 4 == 0 { 1int } else { 0int });
    assert(y / 100 - p / 100 == if y % 100 == 0 { 1int } else { 0int });
    assert(y / 400 - p / 400 == if y % 400 == 0 { 1int } else { 0int });
    assert((13 * 15) / 5 == 39 && (13 * 4) / 5 == 10);
}

/// The first of the next month (or of January of the next year) follows the
/// last day of any month but February one weekday later.
#[verifier::spinoff_prover]
proof fn lemma_weekday_month_end(month: u8, year: u16)
    requires
        1 <= month <= 12,
        month != 2,
        1 <= year < 65535,
    ensures
        weekday(next_date(month_days(month, year), month, year).0, next_date(
            month_days(month, year),
            month,
            year,
        ).1, next_date(month_days(month, year), month, year).2) == (weekday(
            month_days(month, year),
            month,
            year,
        ) + 1) % 7,
{
    assert((13 * 14) / 5 == 36 && (13 * 15) / 5 == 39 && (13 * 5) / 5 == 13 && (13 * 6) / 5 == 15
        && (13 * 7) / 5 == 18 && (13 * 8) / 5 == 20 && (13 * 9) / 5 == 23 && (13 * 10) / 5 == 26
        && (13 * 11) / 5 == 28 && (13 * 12) / 5 == 31 && (13 * 13) / 5 == 33);
}

/// Seconds since midnight.
pub open spec fn second_of_day(t: RtcTime) -> int {
    t.hour * 3600 + t.minute * 60 + t.second
}

/// One second passes: within a day the second of the day goes up by one and
/// the date stays; at the last second of a day the clock reads midnight of
/// the next calendar day, and a weekday that matched the date still matches.
pub proof fn lemma_advance_is_one_second(t: RtcTime)
    requires
        valid_time(t),
        1 <= t.year < 65535,
    ensures
        second_of_day(t) < 86399 ==> {
            &&& second_of_day(advance_time(t)) == second_of_day(t) + 1
            &&& advance_time(t).day == t.day
            &&& advance_time(t).month == t.month
            &&& advance_time(t).year == t.year
            &&& advance_time(t).day_of_week == t.day_of_week
        },
        second_of_day(t) == 86399 ==> {
            &&& second_of_day(advance_time(t)) == 0
            &&& (advance_time(t).day, advance_time(t).month, advance_time(t).year) == next_date(
                t.day,
                t.month,
                t.year,
            )
            &&& t.day_of_week == weekday(t.day, t.month, t.year) ==> advance_time(t).day_of_week
                == weekday(advance_time(t).day, advance_time(t).month, advance_time(t).year)
        },
{
    if second_of_day(t) == 86399 {
        assert(t.hour == 23 && t.minute == 59 && t.second == 59);
        lemma_weekday_successor(t.day, t.month, t.year);
    }
}

/// Counting out `c` cycles and then `b` more from what is left over is
/// counting out `c + b` cycles at once.
proof fn lemma_run_split(s: RtcState, c: int, b: int)
    requires
        s.ticks_per_second > 0,
        0 <= c,
        0 <= b,
        c + b <= u64::MAX,
    ensures
        s.run(c).run(s.run(c).tick_counter + b) == s.run(c + b),
        s.run(c).ctrl == s.ctrl,
        s.run(c).ticks_per_second == s.ticks_per_second,
    decreases c,
{
    if c < s.ticks_per_second {
        lemma_run_ignores_counter(s, c + b, c as u64);
    } else {
        lemma_run_split(s.second_passed(), c - s.ticks_per_second, b);
    }
}

/// Ticking `a` cycles and then `b` cycles is ticking `a + b` cycles at once;
/// a disabled RTC ignores every tick.
pub proof fn lemma_ticks_add(s: RtcState, a: u64, b: u64)
    requires
        s.ticks_per_second > 0,
        s.tick_counter + a + b <= u64::MAX,
    ensures
        s.after_tick(a).after_tick(b) == s.after_tick((a + b) as u64),
        !s.enabled() ==> s.after_tick(a) == s,
{
    if s.enabled() {
        lemma_run_split(s, s.tick_counter + a, b as int);
    }
}

impl Rtc {
    /// Create an RTC: disabled, time zero, no alarm, one million cycles per
    /// second.
    pub fn new() -> (r: Self)
        ensures
            r@ == RtcState::initial(),
    {
        Rtc {
            ctrl: 0,
            ints: 0,
            inte: 0,
            intf: 0,
            setup: [0u32; 4],
            rtc: [0u32; 4],
            irq_setup: [0u32; 4],
            current_time: RtcTime::default(),
            alarm: RtcAlarm::default(),
            tick_counter: 0,
            ticks_per_second: DEFAULT_TICKS_PER_SECOND,
            alarm_triggered: false,
        }
    }

    /// Device identifier.
    pub fn id(&self) -> (r: DeviceId)
        ensures
            r == DeviceId::RTC,
    {
        DeviceId::RTC
    }

    /// Check if RTC is enabled.
    pub fn is_enabled(&self) -> (r: bool)
        ensures
            r == self@.enabled(),
    {
        (self.ctrl & ctrl::RTC_ENABLE) != 0
    }

    /// Get current time.
    pub fn get_time(&self) -> (r: RtcTime)
        ensures
            r == self.current_time,
    {
        self.current_time
    }

    /// Set current time; the time registers follow.
    pub fn set_time(&mut self, time: RtcTime)
        ensures
            final(self)@ == old(self)@.with_time(time),
    {
        self.current_time = time;
        self.update_rtc_registers();
    }

    /// Refresh the time registers from the current time.
    fn update_rtc_registers(&mut self)
        ensures
            final(self)@ == old(self)@.with_time(old(self).current_time),
    {
        self.rtc[0] = self.current_time.to_setup_0();
        self.rtc[1] = self.current_time.to_setup_1();
    }

    /// Load the setup registers into the current time.
    fn load_setup_time(&mut self)
        ensures
            final(self)@ == old(self)@.with_time(time_of(old(self).setup[0], old(self).setup[1])),
    {
        self.current_time = RtcTime::from_registers(self.setup[0], self.setup[1]);
        self.update_rtc_registers();
    }

    /// Raise the alarm interrupt when the alarm matches.
    fn check_alarm(&mut self)
        ensures
            final(self)@ == old(self)@.alarm_checked(),
    {
        if !self.alarm_triggered {
            let t = self.current_time;
            let a = self.alarm;
            let second_match = match a.second {
                Some(s) => s == t.second,
                None => true,
            };
            let minute_match = match a.minute {
                Some(m) => m == t.minute,
                None => true,
            };
            let hour_match = match a.hour {
                Some(h) => h == t.hour,
                None => true,
            };
            let day_of_week_match = match a.day_of_week {
                Some(d) => d == t.day_of_week,
                None => true,
            };
            let day_match = !a.day_en || match a.day {
                Some(d) => d == t.day,
                None => true,
            };
            let month_match = !a.month_en || match a.month {
                Some(m) => m == t.month,
                None => true,
            };
            let year_match = !a.year_en || match a.year {
                Some(y) => y == t.year,
                None => true,
            };
            if second_match && minute_match && hour_match && day_of_week_match && day_match
                && month_match && year_match {
                self.alarm_triggered = true;
                self.ints = self.ints | irq::RTC;
            }
        }
    }

    /// Advance time by one second.
    fn advance_second(&mut self)
        requires
            advance_ok(old(self).current_time),
        ensures
            final(self)@ == old(self)@.with_time(advance_time(old(self).current_time)),
    {
        let mut t = self.current_time;
        t.second = t.second + 1;
        if t.second >= 60 {
            t.second = 0;
            t.minute = t.minute + 1;
            if t.minute >= 60 {
                t.minute = 0;
                t.hour = t.hour + 1;
                if t.hour >= 24 {
                    t.hour = 0;
                    t.day = t.day + 1;
                    t.day_of_week = (t.day_of_week + 1) % 7;
                    let days_in_month = RtcTime::days_in_month(t.month, t.year);
                    if t.day > days_in_month {
                        t.day = 1;
                        t.month = t.month + 1;
                        if t.month > 12 {
                            t.month = 1;
                            t.year = t.year + 1;
                        }
                    }
                }
            }
        }
        self.current_time = t;
        self.update_rtc_registers();
    }

    /// Count clock cycles; every full second advances the time and checks
    /// the alarm. A disabled RTC ignores the cycles.
    pub fn tick(&mut self, cycles: u64)
        requires
            old(self)@.tick_ok(cycles),
        ensures
            final(self)@ == old(self)@.after_tick(cycles),
    {
        if !self.is_enabled() {
            return;
        }
        self.tick_counter = self.tick_counter + cycles;
        proof {
            lemma_run_ignores_counter(old(self)@, self.tick_counter as int, self.tick_counter);
        }
        while self.tick_counter >= self.ticks_per_second
            invariant
                self.ticks_per_second > 0,
                self@.run_ok(self.tick_counter as int),
                self@.run(self.tick_counter as int) == old(self)@.after_tick(cycles),
            decreases self.tick_counter,
        {
            let ghost before = self@;
            self.tick_counter = self.tick_counter - self.ticks_per_second;
            self.advance_second();
            self.check_alarm();
            proof {
                assert(self@ == RtcState { tick_counter: self.tick_counter, ..before.second_passed() });
                lemma_run_ignores_counter(
                    before.second_passed(),
                    self.tick_counter as int,
                    self.tick_counter,
                );
            }
        }
    }

    /// Check if there's a pending interrupt.
    pub fn has_interrupt(&self) -> (r: bool)
        ensures
            r == ((self.ints & self.inte) != 0 || (self.intf & irq::RTC) != 0),
    {
        (self.ints & self.inte) != 0 || (self.intf & irq::RTC) != 0
    }

    /// Clear the alarm interrupt.
    pub fn clear_interrupt(&mut self)
        ensures
            final(self)@ == (RtcState { ints: old(self).ints & !irq::RTC, alarm_triggered: false, ..old(self)@ }),
    {
        self.ints = self.ints & !irq::RTC;
        self.alarm_triggered = false;
    }

    /// Decode the alarm from the IRQ setup registers.
    fn parse_alarm(&mut self)
        ensures
            final(self)@ == (RtcState {
                alarm: alarm_of(old(self).irq_setup[0], old(self).irq_setup[1], old(self).irq_setup[3]),
                ..old(self)@
            }),
    {
        let setup_0 = self.irq_setup[0];
        let setup_1 = self.irq_setup[1];
        let setup_3 = self.irq_setup[3];
        let t = RtcTime::from_registers(setup_0, setup_1);
        self.alarm = RtcAlarm {
            second: Some(t.second),
            minute: Some(t.minute),
            hour: Some(t.hour),
            day_of_week: Some(t.day_of_week),
            day: Some(t.day),
            month: Some(t.month),
            year: Some(t.year),
            year_en: (setup_3 & 1) != 0,
            month_en: (setup_3 & 2) != 0,
            day_en: (setup_3 & 4) != 0,
        };
    }

    /// Register read.
    pub fn read(&mut self, addr: u32) -> (r: u32)
        requires
            addr >= RTC_BASE,
        ensures
            r == old(self)@.read_value((addr - RTC_BASE) as u32),
            final(self)@ == old(self)@,
    {
        let offset = addr - RTC_BASE;
        if offset == regs::CTRL {
            self.ctrl
        } else if offset == regs::INTS {
            self.ints
        } else if offset == regs::INTE {
            self.inte
        } else if offset == regs::INTF {
            self.intf
        } else if regs::SETUP_0 <= offset && offset <= regs::SETUP_3 && offset % 4 == 0 {
            self.setup[((offset - regs::SETUP_0) / 4) as usize]
        } else if regs::RTC_0 <= offset && offset <= regs::RTC_3 && offset % 4 == 0 {
            self.rtc[((offset - regs::RTC_0) / 4) as usize]
        } else if regs::IRQ_SETUP_0 <= offset && offset <= regs::IRQ_SETUP_3 && offset % 4 == 0 {
            self.irq_setup[((offset - regs::IRQ_SETUP_0) / 4) as usize]
        } else {
            0
        }
    }

    /// Register write.
    pub fn write(&mut self, addr: u32, value: u32)
        requires
            addr >= RTC_BASE,
        ensures
            final(self)@ == old(self)@.after_write((addr - RTC_BASE) as u32, value),
    {
        let offset = addr - RTC_BASE;
        if offset == regs::CTRL {
            self.ctrl = value;
            if (value & ctrl::RTC_LOAD) != 0 {
                self.load_setup_time();
            }
        } else if offset == regs::INTS {
            self.ints = self.ints & !value;
            if (value & irq::RTC) != 0 {
                self.alarm_triggered = false;
            }
        } else if offset == regs::INTE {
            self.inte = value;
        } else if offset == regs::INTF {
            self.intf = value;
        } else if regs::SETUP_0 <= offset && offset <= regs::SETUP_3 && offset % 4 == 0 {
            self.setup[((offset - regs::SETUP_0) / 4) as usize] = value;
        } else if regs::IRQ_SETUP_0 <= offset && offset <= regs::IRQ_SETUP_3 && offset % 4 == 0 {
            self.irq_setup[((offset - regs::IRQ_SETUP_0) / 4) as usize] = value;
            self.parse_alarm();
        }
    }

    /// Return to the power-on state.
    pub fn reset(&mut self)
        ensures
            final(self)@ == RtcState::initial(),
    {
        *self = Rtc::new();
    }
}

impl Default for Rtc {
    fn default() -> (r: Self)
        ensures
            r@ == RtcState::initial(),
    {
        Rtc::new()
    }
}

} // verus!
