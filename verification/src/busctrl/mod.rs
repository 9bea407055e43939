//! Bus fabric control: master priorities, arbitration and performance counters.
use vstd::prelude::*;

use crate::device::DeviceId;

pub mod bus_priority;
pub mod perf_event;
pub mod regs;

verus! {

/// Bus Control base address.
pub const BUSCTRL_BASE: u32 = 0x4003_0000;

/// Number of bus access events that are counted.
pub const NUM_EVENTS: usize = 11;

/// Bus master identifiers.
#[derive(Debug, Clone, Copy, PartialEq, Eq, Structural)]
pub enum BusMaster {
    Proc0,
    Proc1,
    DmaRead,
    DmaWrite,
}

/// Performance counter.
#[derive(Debug, Clone, Copy)]
pub struct PerfCounter {
    /// Counter value.
    pub value: u32,
    /// Event selector.
    pub event: u32,
}

/// Bus Control peripheral.
#[derive(Debug)]
pub struct BusControl {
    /// Bus priority register.
    pub priority: u32,
    /// Priority acknowledge.
    pub priority_ack: u32,
    /// Performance priorities.
    pub perf_priority: [u32; 12],
    /// Performance counters.
    pub perf_counters: [PerfCounter; 4],
    /// Bus access counters.
    pub access_counters: [u32; 11],
}

/// Abstract state of the bus controller.
#[verifier::ext_equal]
pub ghost struct BusControlState {
    pub priority: u32,
    pub priority_ack: u32,
    pub perf_priority: Seq<u32>,
    pub perf_counters: Seq<PerfCounter>,
    pub access_counters: Seq<u32>,
}

impl View for BusControl {
    type V = BusControlState;

    open spec fn view(&self) -> BusControlState {
        BusControlState {
            priority: self.priority,
            priority_ack: self.priority_ack,
            perf_priority: self.perf_priority@,
            perf_counters: self.perf_counters@,
            access_counters: self.access_counters@,
        }
    }
}

/// Bit position of a master's priority byte in BUS_PRIORITY.
pub open spec fn master_shift(m: BusMaster) -> u32 {
    match m {
        BusMaster::Proc0 => bus_priority::PROC0_SHIFT,
        BusMaster::Proc1 => bus_priority::PROC1_SHIFT,
        BusMaster::DmaRead => bus_priority::DMA_R_SHIFT,
        BusMaster::DmaWrite => bus_priority::DMA_W_SHIFT,
    }
}

/// Priority byte of master `m` in a BUS_PRIORITY value.
pub open spec fn priority_of(p: u32, m: BusMaster) -> u8 {
    ((p >> master_shift(m)) & 0xFF) as u8
}

/// BUS_PRIORITY with master `m`'s byte replaced.
pub open spec fn with_priority(p: u32, m: BusMaster, v: u8) -> u32 {
    (p & !(0xFFu32 << master_shift(m))) | ((v as u32) << master_shift(m))
}

/// Masters in the order arbitration scans them.
pub open spec fn master_at(i: int) -> BusMaster {
    if i == 0 {
        BusMaster::Proc0
    } else if i == 1 {
        BusMaster::Proc1
    } else if i == 2 {
        BusMaster::DmaRead
    } else {
        BusMaster::DmaWrite
    }
}

pub open spec fn master_index(m: BusMaster) -> int {
    match m {
        BusMaster::Proc0 => 0,
        BusMaster::Proc1 => 1,
        BusMaster::DmaRead => 2,
        BusMaster::DmaWrite => 3,
    }
}

/// Number of masters among the first `n` with a non-zero priority.
pub open spec fn count_requesting(p: u32, n: int) -> int
    decreases n,
{
    if n <= 0 {
        0
    } else {
        count_requesting(p, n - 1) + if priority_of(p, master_at(n - 1)) > 0 { 1int } else { 0 }
    }
}

/// Arbitration winner: the master with the highest non-zero priority, the
/// last one in scan order among equals; none when no master requests.
pub open spec fn is_winner(p: u32, m: BusMaster) -> bool {
    &&& priority_of(p, m) > 0
    &&& forall|j: int|
        0 <= j < 4 ==> priority_of(p, #[trigger] master_at(j)) <= priority_of(p, m)
    &&& forall|j: int|
        master_index(m) < j < 4 ==> priority_of(p, #[trigger] master_at(j)) < priority_of(p, m)
}

/// Counter after one access to `event`.
pub open spec fn counted(c: PerfCounter, event: u32) -> PerfCounter {
    if c.event == event {
        PerfCounter { value: vstd::wrapping::u32_specs::wrapping_add(c.value, 1), event: c.event }
    } else {
        c
    }
}

impl BusControlState {
    pub open spec fn initial() -> BusControlState {
        BusControlState {
            priority: 0,
            priority_ack: 0,
            perf_priority: Seq::new(12, |i: int| 0u32),
            perf_counters: Seq::new(4, |i: int| PerfCounter { value: 0, event: 0 }),
            access_counters: Seq::new(11, |i: int| 0u32),
        }
    }

    pub open spec fn wf(self) -> bool {
        &&& self.perf_priority.len() == 12
        &&& self.perf_counters.len() == 4
        &&& self.access_counters.len() == NUM_EVENTS
    }

    /// The access counter of `event` can still be incremented.
    pub open spec fn can_record(self, event: u32) -> bool {
        event < NUM_EVENTS ==> self.access_counters[event as int] < u32::MAX
    }

    pub open spec fn after_record(self, event: u32) -> BusControlState {
        if event < NUM_EVENTS {
            BusControlState {
                access_counters: self.access_counters.update(
                    event as int,
                    (self.access_counters[event as int] + 1) as u32,
                ),
                perf_counters: self.perf_counters.map_values(|c: PerfCounter| counted(c, event)),
                ..self
            }
        } else {
            self
        }
    }

    pub open spec fn perf_counter(self, index: int) -> u32 {
        if 0 <= index < 4 {
            self.perf_counters[index].value
        } else {
            0
        }
    }

    pub open spec fn perf_event(self, index: int) -> u32 {
        if 0 <= index < 4 {
            self.perf_counters[index].event
        } else {
            0
        }
    }

    pub open spec fn with_perf_event(self, index: int, event: u32) -> BusControlState {
        if 0 <= index < 4 {
            BusControlState {
                perf_counters: self.perf_counters.update(
                    index,
                    PerfCounter { value: self.perf_counters[index].value, event: event & 0x1F },
                ),
                ..self
            }
        } else {
            self
        }
    }

    /// BUS_PRIORITY_PERFn offsets are word-aligned in 0x008..=0x034.
    pub open spec fn is_perf_priority(offset: u32) -> bool {
        regs::BUS_PRIORITY_PERF0 <= offset <= regs::BUS_PRIORITY_PERF11 && offset % 4 == 0
    }

    pub open spec fn perf_priority_index(offset: u32) -> int {
        (offset - regs::BUS_PRIORITY_PERF0) / 4
    }

    pub open spec fn is_perfctr(offset: u32) -> bool {
        regs::PERFCTR0 <= offset <= regs::PERFCTR3 && offset % 4 == 0
    }

    pub open spec fn is_perfsel(offset: u32) -> bool {
        regs::PERFSEL0 <= offset <= regs::PERFSEL3 && offset % 4 == 0
    }

    pub open spec fn read_value(self, offset: u32) -> u32 {
        if offset == regs::BUS_PRIORITY {
            self.priority
        } else if offset == regs::BUS_PRIORITY_ACK {
            self.priority_ack
        } else if Self::is_perf_priority(offset) {
            self.perf_priority[Self::perf_priority_index(offset)]
        } else if Self::is_perfctr(offset) {
            self.perf_counter((offset - regs::PERFCTR0) / 4)
        } else if Self::is_perfsel(offset) {
            self.perf_event((offset - regs::PERFSEL0) / 4)
        } else {
            0
        }
    }

    pub open spec fn after_write(self, offset: u32, value: u32) -> BusControlState {
        if offset == regs::BUS_PRIORITY {
            BusControlState { priority: value, ..self }
        } else if Self::is_perf_priority(offset) {
            BusControlState {
                perf_priority: self.perf_priority.update(Self::perf_priority_index(offset), value),
                ..self
            }
        } else if Self::is_perfctr(offset) {
            let i = (offset - regs::PERFCTR0) / 4;
            BusControlState {
                perf_counters: self.perf_counters.update(
                    i,
                    PerfCounter { value: value, event: self.perf_counters[i].event },
                ),
                ..self
            }
        } else if Self::is_perfsel(offset) {
            self.with_perf_event((offset - regs::PERFSEL0) / 4, value)
        } else {
            self
        }
    }
}

proof fn lemma_set_get_priority(p: u32, m: BusMaster, v: u8, other: BusMaster)
    ensures
        priority_of(with_priority(p, m, v), m) == v,
        other != m ==> priority_of(with_priority(p, m, v), other) == priority_of(p, other),
{
    crate::bits::lemma_byte_ops(p, master_shift(m), master_shift(other), v as u32);
}

/// Setting one master's priority makes it read back and leaves the others unchanged.
pub proof fn lemma_priority_set_get(s: BusControlState, m: BusMaster, v: u8, other: BusMaster)
    ensures
        priority_of(with_priority(s.priority, m, v), m) == v,
        other != m ==> priority_of(with_priority(s.priority, m, v), other) == priority_of(
            s.priority,
            other,
        ),
{
    lemma_set_get_priority(s.priority, m, v, other);
}

impl BusControl {
    pub open spec fn wf(&self) -> bool {
        self@.wf()
    }

    /// Create a new Bus Control instance.
    pub fn new() -> (r: Self)
        ensures
            r@ == BusControlState::initial(),
    {
        BusControl {
            priority: 0,
            priority_ack: 0,
            perf_priority: [0u32; 12],
            perf_counters: [PerfCounter { value: 0, event: 0 }; 4],
            access_counters: [0u32; 11],
        }
    }

    /// Device identifier.
    pub fn id(&self) -> (r: DeviceId)
        ensures
            r == DeviceId::BUSCTRL,
    {
        DeviceId::BUSCTRL
    }

    /// Priority byte of a master.
    pub fn get_priority(&self, master: BusMaster) -> (r: u8)
        ensures
            r == priority_of(self.priority, master),
    {
        match master {
            BusMaster::Proc0 => ((self.priority >> bus_priority::PROC0_SHIFT) & 0xFF) as u8,
            BusMaster::Proc1 => ((self.priority >> bus_priority::PROC1_SHIFT) & 0xFF) as u8,
            BusMaster::DmaRead => ((self.priority >> bus_priority::DMA_R_SHIFT) & 0xFF) as u8,
            BusMaster::DmaWrite => ((self.priority >> bus_priority::DMA_W_SHIFT) & 0xFF) as u8,
        }
    }

    /// Set a master's priority byte; the acknowledge register takes the value.
    pub fn set_priority(&mut self, master: BusMaster, priority: u8)
        ensures
            final(self)@ == (BusControlState {
                priority: with_priority(old(self).priority, master, priority),
                priority_ack: priority as u32,
                ..old(self)@
            }),
    {
        let shift = match master {
            BusMaster::Proc0 => bus_priority::PROC0_SHIFT,
            BusMaster::Proc1 => bus_priority::PROC1_SHIFT,
            BusMaster::DmaRead => bus_priority::DMA_R_SHIFT,
            BusMaster::DmaWrite => bus_priority::DMA_W_SHIFT,
        };
        self.priority = (self.priority & !(0xFFu32 << shift)) | ((priority as u32) << shift);
        self.priority_ack = priority as u32;
    }

    /// Count an access to `event` in its access counter and in every performance
    /// counter that selects it; unknown events are ignored.
    pub fn record_access(&mut self, event: u32)
        requires
            old(self)@.can_record(event),
        ensures
            final(self)@ == old(self)@.after_record(event),
    {
        if (event as usize) < NUM_EVENTS {
            let e = event as usize;
            self.access_counters[e] = self.access_counters[e] + 1;
            let ghost before = self.perf_counters@;
            let mut i: usize = 0;
            while i < 4
                invariant
                    0 <= i <= 4,
                    before.len() == 4,
                    self.perf_counters@.len() == 4,
                    forall|k: int| 0 <= k < i ==> self.perf_counters@[k] == counted(before[k], event),
                    forall|k: int| i <= k < 4 ==> self.perf_counters@[k] == before[k],
                    self.priority == old(self).priority,
                    self.priority_ack == old(self).priority_ack,
                    self.perf_priority@ == old(self).perf_priority@,
                    self.access_counters@ == old(self)@.after_record(event).access_counters,
                decreases 4 - i,
            {
                let c = self.perf_counters[i];
                if c.event == event {
                    self.perf_counters[i] = PerfCounter { value: c.value.wrapping_add(1), event: c.event };
                }
                i = i + 1;
            }
            assert(self.perf_counters@ =~= before.map_values(|c: PerfCounter| counted(c, event)));
        }
    }

    /// Value of a performance counter; 0 for a counter that does not exist.
    pub fn get_perf_counter(&self, index: usize) -> (r: u32)
        ensures
            r == self@.perf_counter(index as int),
    {
        if index < 4 {
            self.perf_counters[index].value
        } else {
            0
        }
    }

    /// Select the event a performance counter counts (5 bits).
    pub fn set_perf_event(&mut self, index: usize, event: u32)
        ensures
            final(self)@ == old(self)@.with_perf_event(index as int, event),
    {
        if index < 4 {
            let v = self.perf_counters[index].value;
            self.perf_counters[index] = PerfCounter { value: v, event: event & 0x1F };
        }
    }

    /// Event a performance counter counts; 0 for a counter that does not exist.
    pub fn get_perf_event(&self, index: usize) -> (r: u32)
        ensures
            r == self@.perf_event(index as int),
    {
        if index < 4 {
            self.perf_counters[index].event
        } else {
            0
        }
    }

    /// More than one master has a non-zero priority.
    pub fn is_contested(&self) -> (r: bool)
        ensures
            r == (count_requesting(self.priority, 4) > 1),
    {
        let mut count: usize = 0;
        let mut i: usize = 0;
        while i < 4
            invariant
                0 <= i <= 4,
                count == count_requesting(self.priority, i as int),
                count <= i,
            decreases 4 - i,
        {
            let m = if i == 0 {
                BusMaster::Proc0
            } else if i == 1 {
                BusMaster::Proc1
            } else if i == 2 {
                BusMaster::DmaRead
            } else {
                BusMaster::DmaWrite
            };
            if self.get_priority(m) > 0 {
                count = count + 1;
            }
            i = i + 1;
        }
        count > 1
    }

    /// Grant the bus: the master with the highest non-zero priority (the last in
    /// scan order among equals), or none when no master requests.
    pub fn arbitrate(&self) -> (r: Option<BusMaster>)
        ensures
            r matches Some(m) ==> is_winner(self.priority, m),
            r is None <==> forall|j: int| 0 <= j < 4 ==> priority_of(self.priority, #[trigger] master_at(j)) == 0,
    {
        let mut best: Option<BusMaster> = None;
        let mut best_p: u8 = 0;
        let mut i: usize = 0;
        while i < 4
            invariant
                0 <= i <= 4,
                best is None <==> forall|j: int|
                    0 <= j < i ==> priority_of(self.priority, #[trigger] master_at(j)) == 0,
                best is None ==> best_p == 0,
                best matches Some(m) ==> {
                    &&& best_p == priority_of(self.priority, m)
                    &&& best_p > 0
                    &&& master_index(m) < i
                    &&& forall|j: int|
                        0 <= j < i ==> priority_of(self.priority, #[trigger] master_at(j)) <= best_p
                    &&& forall|j: int|
                        master_index(m) < j < i ==> priority_of(self.priority, #[trigger] master_at(j))
                            < best_p
                },
            decreases 4 - i,
        {
            let m = if i == 0 {
                BusMaster::Proc0
            } else if i == 1 {
                BusMaster::Proc1
            } else if i == 2 {
                BusMaster::DmaRead
            } else {
                BusMaster::DmaWrite
            };
            assert(m == master_at(i as int));
            let p = self.get_priority(m);
            if p > 0 && p >= best_p {
                best = Some(m);
                best_p = p;
            }
            i = i + 1;
        }
        best
    }

    /// Register read.
    pub fn read(&mut self, addr: u32) -> (r: u32)
        requires
            addr >= BUSCTRL_BASE,
        ensures
            r == old(self)@.read_value((addr - BUSCTRL_BASE) as u32),
            final(self)@ == old(self)@,
    {
        let offset = addr - BUSCTRL_BASE;
        if offset == regs::BUS_PRIORITY {
            self.priority
        } else if offset == regs::BUS_PRIORITY_ACK {
            self.priority_ack
        } else if regs::BUS_PRIORITY_PERF0 <= offset && offset <= regs::BUS_PRIORITY_PERF11
            && offset % 4 == 0 {
            self.perf_priority[((offset - regs::BUS_PRIORITY_PERF0) / 4) as usize]
        } else if regs::PERFCTR0 <= offset && offset <= regs::PERFCTR3 && offset % 4 == 0 {
            self.get_perf_counter(((offset - regs::PERFCTR0) / 4) as usize)
        } else if regs::PERFSEL0 <= offset && offset <= regs::PERFSEL3 && offset % 4 == 0 {
            self.get_perf_event(((offset - regs::PERFSEL0) / 4) as usize)
        } else {
            0
        }
    }

    /// Register write.
    pub fn write(&mut self, addr: u32, value: u32)
        requires
            addr >= BUSCTRL_BASE,
        ensures
            final(self)@ == old(self)@.after_write((addr - BUSCTRL_BASE) as u32, value),
    {
        let offset = addr - BUSCTRL_BASE;
        if offset == regs::BUS_PRIORITY {
            self.priority = value;
        } else if regs::BUS_PRIORITY_PERF0 <= offset && offset <= regs::BUS_PRIORITY_PERF11
            && offset % 4 == 0 {
            self.perf_priority[((offset - regs::BUS_PRIORITY_PERF0) / 4) as usize] = value;
        } else if regs::PERFCTR0 <= offset && offset <= regs::PERFCTR3 && offset % 4 == 0 {
            let i = ((offset - regs::PERFCTR0) / 4) as usize;
            let e = self.perf_counters[i].event;
            self.perf_counters[i] = PerfCounter { value: value, event: e };
        } else if regs::PERFSEL0 <= offset && offset <= regs::PERFSEL3 && offset % 4 == 0 {
            self.set_perf_event(((offset - regs::PERFSEL0) / 4) as usize, value);
        }
    }

    /// Return to the power-on state.
    pub fn reset(&mut self)
        ensures
            final(self)@ == BusControlState::initial(),
    {
        *self = BusControl::new();
    }
}

impl Default for BusControl {
    fn default() -> (r: Self)
        ensures
            r@ == BusControlState::initial(),
    {
        BusControl::new()
    }
}

impl Default for PerfCounter {
    fn default() -> (r: Self)
        ensures
            r.value == 0,
            r.event == 0,
    {
        PerfCounter { value: 0, event: 0 }
    }
}

} // verus!
