//! Nested vectored interrupt controller: enable, pending, active and priority
//! state of 128 external interrupts per core.
use vstd::prelude::*;

use crate::device::DeviceId;

pub mod regs;

verus! {

/// NVIC base address of core 0.
pub const NVIC_BASE_CORE0: u32 = 0xE000_E100;

/// NVIC base address of core 1.
pub const NVIC_BASE_CORE1: u32 = 0xE002_E100;

/// Number of external interrupts.
pub const NUM_IRQS: usize = 128;

/// Bit of interrupt `irq` in a set of 32-bit words, one bit per interrupt.
pub open spec fn irq_bit(words: Seq<u32>, irq: u8) -> bool {
    (irq / 32) < 4 && words[(irq / 32) as int] & (1u32 << (irq % 32) as u32) != 0
}

/// The words with interrupt `irq`'s bit set or cleared (no change past the
/// last interrupt).
pub open spec fn with_irq_bit(words: Seq<u32>, irq: u8, on: bool) -> Seq<u32> {
    let w = (irq / 32) as int;
    let m = 1u32 << (irq % 32) as u32;
    if w < 4 {
        words.update(w, if on { words[w] | m } else { words[w] & !m })
    } else {
        words
    }
}

/// Priority byte of interrupt `irq` (four per word).
pub open spec fn priority_byte(words: Seq<u32>, irq: u8) -> u8 {
    let r = (irq / 4) as int;
    if r < 32 {
        ((words[r] >> ((irq % 4) * 8) as u32) & 0xFF) as u8
    } else {
        0
    }
}

/// The priority words with interrupt `irq`'s byte replaced.
pub open spec fn with_priority_byte(words: Seq<u32>, irq: u8, p: u8) -> Seq<u32> {
    let r = (irq / 4) as int;
    let shift = ((irq % 4) * 8) as u32;
    if r < 32 {
        words.update(r, (words[r] & !(0xFFu32 << shift)) | ((p as u32) << shift))
    } else {
        words
    }
}

/// NVIC of a single core.
#[derive(Debug)]
pub struct NvicCore {
    /// Interrupt enable registers.
    pub enable: [u32; 4],
    /// Pending registers.
    pub pending: [u32; 4],
    /// Active registers.
    pub active: [u32; 4],
    /// Priority registers (8 bits per interrupt, 4 per register).
    pub priority: [u32; 32],
    /// Vector table offset.
    pub vector_table: u32,
    /// Interrupt being handled.
    pub current_irq: Option<u8>,
}

/// Abstract state of one core's NVIC.
#[verifier::ext_equal]
pub ghost struct NvicCoreState {
    pub enable: Seq<u32>,
    pub pending: Seq<u32>,
    pub active: Seq<u32>,
    pub priority: Seq<u32>,
    pub vector_table: u32,
    pub current_irq: Option<u8>,
}

impl View for NvicCore {
    type V = NvicCoreState;

    open spec fn view(&self) -> NvicCoreState {
        NvicCoreState {
            enable: self.enable@,
            pending: self.pending@,
            active: self.active@,
            priority: self.priority@,
            vector_table: self.vector_table,
            current_irq: self.current_irq,
        }
    }
}

impl NvicCoreState {
    pub open spec fn initial() -> NvicCoreState {
        NvicCoreState {
            enable: Seq::new(4, |i: int| 0u32),
            pending: Seq::new(4, |i: int| 0u32),
            active: Seq::new(4, |i: int| 0u32),
            priority: Seq::new(32, |i: int| 0u32),
            vector_table: 0,
            current_irq: None,
        }
    }

    pub open spec fn wf(self) -> bool {
        &&& self.enable.len() == 4
        &&& self.pending.len() == 4
        &&& self.active.len() == 4
        &&& self.priority.len() == 32
    }

    /// An interrupt that can be taken: pending, enabled and not already active.
    pub open spec fn eligible(self, irq: u8) -> bool {
        &&& irq < NUM_IRQS
        &&& irq_bit(self.pending, irq)
        &&& irq_bit(self.enable, irq)
        &&& !irq_bit(self.active, irq)
    }

    /// `irq` is the eligible interrupt with the lowest priority value, the
    /// lowest-numbered among equals.
    pub open spec fn is_highest_pending(self, irq: u8) -> bool {
        &&& self.eligible(irq)
        &&& forall|j: u8| #[trigger]
            self.eligible(j) ==> priority_byte(self.priority, irq) <= priority_byte(
                self.priority,
                j,
            )
        &&& forall|j: u8|
            j < irq && #[trigger] self.eligible(j) ==> priority_byte(self.priority, irq)
                < priority_byte(self.priority, j)
    }

    pub open spec fn acknowledged(self, irq: u8) -> NvicCoreState {
        NvicCoreState {
            pending: with_irq_bit(self.pending, irq, false),
            active: with_irq_bit(self.active, irq, true),
            current_irq: Some(irq),
            ..self
        }
    }

    pub open spec fn ended(self, irq: u8) -> NvicCoreState {
        NvicCoreState {
            active: with_irq_bit(self.active, irq, false),
            current_irq: if self.current_irq == Some(irq) { None } else { self.current_irq },
            ..self
        }
    }

    /// Offset lies in a bank of four words starting at `first`.
    pub open spec fn in_bank(offset: u32, first: u32) -> bool {
        first <= offset <= first + 0xC
    }

    pub open spec fn read_value(self, offset: u32) -> u32 {
        if Self::in_bank(offset, regs::ISER0) {
            self.enable[(offset - regs::ISER0) / 4]
        } else if Self::in_bank(offset, regs::ICER0) {
            self.enable[(offset - regs::ICER0) / 4]
        } else if Self::in_bank(offset, regs::ISPR0) {
            self.pending[(offset - regs::ISPR0) / 4]
        } else if Self::in_bank(offset, regs::ICPR0) {
            self.pending[(offset - regs::ICPR0) / 4]
        } else if Self::in_bank(offset, regs::IABR0) {
            self.active[(offset - regs::IABR0) / 4]
        } else if regs::IPR0 <= offset <= regs::IPR15 {
            self.priority[(offset - regs::IPR0) / 4]
        } else {
            0
        }
    }

    pub open spec fn after_write(self, offset: u32, value: u32) -> NvicCoreState {
        if Self::in_bank(offset, regs::ISER0) {
            let i = (offset - regs::ISER0) / 4;
            NvicCoreState { enable: self.enable.update(i, self.enable[i] | value), ..self }
        } else if Self::in_bank(offset, regs::ICER0) {
            let i = (offset - regs::ICER0) / 4;
            NvicCoreState { enable: self.enable.update(i, self.enable[i] & !value), ..self }
        } else if Self::in_bank(offset, regs::ISPR0) {
            let i = (offset - regs::ISPR0) / 4;
            NvicCoreState { pending: self.pending.update(i, self.pending[i] | value), ..self }
        } else if Self::in_bank(offset, regs::ICPR0) {
            let i = (offset - regs::ICPR0) / 4;
            NvicCoreState { pending: self.pending.update(i, self.pending[i] & !value), ..self }
        } else if regs::IPR0 <= offset <= regs::IPR15 {
            NvicCoreState { priority: self.priority.update((offset - regs::IPR0) / 4, value), ..self }
        } else if offset == regs::STIR {
            let irq = (value & 0x1FF) as u8;
            if irq < NUM_IRQS {
                NvicCoreState { pending: with_irq_bit(self.pending, irq, true), ..self }
            } else {
                self
            }
        } else {
            self
        }
    }
}


/// Setting or clearing one interrupt's bit makes it read back as written and
/// leaves every other interrupt's bit as it was.
pub proof fn lemma_irq_bit_set_get(words: Seq<u32>, irq: u8, on: bool, other: u8)
    requires
        words.len() == 4,
        irq < NUM_IRQS,
    ensures
        irq_bit(with_irq_bit(words, irq, on), irq) == on,
        other != irq ==> irq_bit(with_irq_bit(words, irq, on), other) == irq_bit(words, other),
{
    crate::bits::lemma_bit_ops(words[(irq / 32) as int], (irq % 32) as u32, (other % 32) as u32);
    if other != irq && other / 32 == irq / 32 {
        assert(other % 32 != irq % 32);
    }
}


/// A priority set for an interrupt reads back, and no other interrupt's
/// priority changes.
pub proof fn lemma_priority_set_get(words: Seq<u32>, irq: u8, p: u8, other: u8)
    requires
        words.len() == 32,
        irq < NUM_IRQS,
    ensures
        priority_byte(with_priority_byte(words, irq, p), irq) == p,
        other != irq ==> priority_byte(with_priority_byte(words, irq, p), other) == priority_byte(
            words,
            other,
        ),
{
    let r = (irq / 4) as int;
    crate::bits::lemma_byte_ops(words[r], ((irq % 4) * 8) as u32, ((other % 4) * 8) as u32, p as u32);
    if other != irq && other / 4 == irq / 4 {
        assert(other % 4 != irq % 4);
    }
}

impl NvicCore {
    pub open spec fn wf(&self) -> bool {
        self@.wf()
    }

    /// Create a new NVIC core: everything disabled, clear and at priority 0.
    pub fn new() -> (r: Self)
        ensures
            r@ == NvicCoreState::initial(),
    {
        NvicCore {
            enable: [0u32; 4],
            pending: [0u32; 4],
            active: [0u32; 4],
            priority: [0u32; 32],
            vector_table: 0,
            current_irq: None,
        }
    }

    /// Check if interrupt is enabled.
    pub fn is_enabled(&self, irq: u8) -> (r: bool)
        ensures
            r == irq_bit(self@.enable, irq),
    {
        let reg = (irq / 32) as usize;
        let bit = (irq % 32) as u32;
        if reg < 4 {
            (self.enable[reg] & (1u32 << bit)) != 0
        } else {
            false
        }
    }

    /// Enable interrupt.
    pub fn enable_irq(&mut self, irq: u8)
        ensures
            final(self)@ == (NvicCoreState { enable: with_irq_bit(old(self)@.enable, irq, true), ..old(self)@ }),
    {
        let reg = (irq / 32) as usize;
        let bit = (irq % 32) as u32;
        if reg < 4 {
            self.enable[reg] = self.enable[reg] | (1u32 << bit);
        }
    }

    /// Disable interrupt.
    pub fn disable_irq(&mut self, irq: u8)
        ensures
            final(self)@ == (NvicCoreState { enable: with_irq_bit(old(self)@.enable, irq, false), ..old(self)@ }),
    {
        let reg = (irq / 32) as usize;
        let bit = (irq % 32) as u32;
        if reg < 4 {
            self.enable[reg] = self.enable[reg] & !(1u32 << bit);
        }
    }

    /// Check if interrupt is pending.
    pub fn is_pending(&self, irq: u8) -> (r: bool)
        ensures
            r == irq_bit(self@.pending, irq),
    {
        let reg = (irq / 32) as usize;
        let bit = (irq % 32) as u32;
        if reg < 4 {
            (self.pending[reg] & (1u32 << bit)) != 0
        } else {
            false
        }
    }

    /// Set interrupt pending.
    pub fn set_pending(&mut self, irq: u8)
        ensures
            final(self)@ == (NvicCoreState { pending: with_irq_bit(old(self)@.pending, irq, true), ..old(self)@ }),
    {
        let reg = (irq / 32) as usize;
        let bit = (irq % 32) as u32;
        if reg < 4 {
            self.pending[reg] = self.pending[reg] | (1u32 << bit);
        }
    }

    /// Clear interrupt pending.
    pub fn clear_pending(&mut self, irq: u8)
        ensures
            final(self)@ == (NvicCoreState { pending: with_irq_bit(old(self)@.pending, irq, false), ..old(self)@ }),
    {
        let reg = (irq / 32) as usize;
        let bit = (irq % 32) as u32;
        if reg < 4 {
            self.pending[reg] = self.pending[reg] & !(1u32 << bit);
        }
    }

    /// Check if interrupt is active.
    pub fn is_active(&self, irq: u8) -> (r: bool)
        ensures
            r == irq_bit(self@.active, irq),
    {
        let reg = (irq / 32) as usize;
        let bit = (irq % 32) as u32;
        if reg < 4 {
            (self.active[reg] & (1u32 << bit)) != 0
        } else {
            false
        }
    }

    /// Mark an interrupt active or not.
    fn set_active(&mut self, irq: u8, active: bool)
        ensures
            final(self)@ == (NvicCoreState { active: with_irq_bit(old(self)@.active, irq, active), ..old(self)@ }),
    {
        let reg = (irq / 32) as usize;
        let bit = (irq % 32) as u32;
        if reg < 4 {
            if active {
                self.active[reg] = self.active[reg] | (1u32 << bit);
            } else {
                self.active[reg] = self.active[reg] & !(1u32 << bit);
            }
        }
    }

    /// Interrupt priority (lower value = higher priority).
    pub fn get_priority(&self, irq: u8) -> (r: u8)
        ensures
            r == priority_byte(self@.priority, irq),
    {
        let reg = (irq / 4) as usize;
        let shift = ((irq % 4) * 8) as u32;
        if reg < 32 {
            ((self.priority[reg] >> shift) & 0xFF) as u8
        } else {
            0
        }
    }

    /// Set interrupt priority.
    pub fn set_priority(&mut self, irq: u8, priority: u8)
        ensures
            final(self)@ == (NvicCoreState {
                priority: with_priority_byte(old(self)@.priority, irq, priority),
                ..old(self)@
            }),
    {
        let reg = (irq / 4) as usize;
        let shift = ((irq % 4) * 8) as u32;
        if reg < 32 {
            self.priority[reg] = (self.priority[reg] & !(0xFFu32 << shift)) | ((priority as u32)
                << shift);
        }
    }

    /// Get vector table address.
    pub fn get_vector_table(&self) -> (r: u32)
        ensures
            r == self.vector_table,
    {
        self.vector_table
    }

    /// Set vector table address.
    pub fn set_vector_table(&mut self, addr: u32)
        ensures
            final(self)@ == (NvicCoreState { vector_table: addr, ..old(self)@ }),
    {
        self.vector_table = addr;
    }

    /// The pending, enabled, inactive interrupt with the lowest priority value
    /// below 255 (the lowest-numbered among equals), if any.
    pub fn get_highest_pending(&self) -> (r: Option<u8>)
        ensures
            r matches Some(irq) ==> self@.is_highest_pending(irq),
            r is None ==> forall|j: u8| !(#[trigger] self@.eligible(j)),
    {
        let mut best_irq: Option<u8> = None;
        let mut best_priority: u8 = 255;
        let mut irq: u8 = 0;
        while irq < 128
            invariant
                irq <= 128,
                best_irq is None ==> forall|j: u8| j < irq ==> !(#[trigger] self@.eligible(j)),
                best_irq matches Some(b) ==> {
                    &&& b < irq
                    &&& self@.eligible(b)
                    &&& best_priority == priority_byte(self@.priority, b)
                    &&& forall|j: u8|
                        j < irq && #[trigger] self@.eligible(j) ==> best_priority <= priority_byte(
                            self@.priority,
                            j,
                        )
                    &&& forall|j: u8|
                        j < b && #[trigger] self@.eligible(j) ==> best_priority < priority_byte(
                            self@.priority,
                            j,
                        )
                },
            decreases 128 - irq,
        {
            if self.is_pending(irq) && self.is_enabled(irq) && !self.is_active(irq) {
                let priority = self.get_priority(irq);
                let better = match best_irq {
                    None => true,
                    Some(_) => priority < best_priority,
                };
                if better {
                    best_priority = priority;
                    best_irq = Some(irq);
                }
            }
            irq = irq + 1;
        }
        best_irq
    }

    /// Acknowledge an interrupt: no longer pending, now active and current.
    pub fn acknowledge(&mut self, irq: u8)
        ensures
            final(self)@ == old(self)@.acknowledged(irq),
    {
        self.clear_pending(irq);
        self.set_active(irq, true);
        self.current_irq = Some(irq);
    }

    /// End of interrupt: no longer active, no longer current.
    pub fn end_of_interrupt(&mut self, irq: u8)
        ensures
            final(self)@ == old(self)@.ended(irq),
    {
        self.set_active(irq, false);
        if self.current_irq == Some(irq) {
            self.current_irq = None;
        }
    }

    /// Address of an interrupt's vector: external interrupts follow the 16
    /// system exceptions.
    pub fn get_vector_address(&self, irq: u8) -> (r: u32)
        requires
            self.vector_table + (irq + 16) * 4 <= u32::MAX,
        ensures
            r == self.vector_table + (irq + 16) * 4,
    {
        let vector_num = irq as u32 + 16;
        self.vector_table + vector_num * 4
    }

    /// Register read at an offset from the core's NVIC base.
    pub fn read(&self, offset: u32) -> (r: u32)
        ensures
            r == self@.read_value(offset),
    {
        if regs::ISER0 <= offset && offset <= regs::ISER0 + 0xC {
            self.enable[((offset - regs::ISER0) / 4) as usize]
        } else if regs::ICER0 <= offset && offset <= regs::ICER0 + 0xC {
            self.enable[((offset - regs::ICER0) / 4) as usize]
        } else if regs::ISPR0 <= offset && offset <= regs::ISPR0 + 0xC {
            self.pending[((offset - regs::ISPR0) / 4) as usize]
        } else if regs::ICPR0 <= offset && offset <= regs::ICPR0 + 0xC {
            self.pending[((offset - regs::ICPR0) / 4) as usize]
        } else if regs::IABR0 <= offset && offset <= regs::IABR0 + 0xC {
            self.active[((offset - regs::IABR0) / 4) as usize]
        } else if regs::IPR0 <= offset && offset <= regs::IPR15 {
            self.priority[((offset - regs::IPR0) / 4) as usize]
        } else {
            0
        }
    }

    /// Register write at an offset from the core's NVIC base.
    pub fn write(&mut self, offset: u32, value: u32)
        ensures
            final(self)@ == old(self)@.after_write(offset, value),
    {
        if regs::ISER0 <= offset && offset <= regs::ISER0 + 0xC {
            let i = ((offset - regs::ISER0) / 4) as usize;
            self.enable[i] = self.enable[i] | value;
        } else if regs::ICER0 <= offset && offset <= regs::ICER0 + 0xC {
            let i = ((offset - regs::ICER0) / 4) as usize;
            self.enable[i] = self.enable[i] & !value;
        } else if regs::ISPR0 <= offset && offset <= regs::ISPR0 + 0xC {
            let i = ((offset - regs::ISPR0) / 4) as usize;
            self.pending[i] = self.pending[i] | value;
        } else if regs::ICPR0 <= offset && offset <= regs::ICPR0 + 0xC {
            let i = ((offset - regs::ICPR0) / 4) as usize;
            self.pending[i] = self.pending[i] & !value;
        } else if regs::IPR0 <= offset && offset <= regs::IPR15 {
            self.priority[((offset - regs::IPR0) / 4) as usize] = value;
        } else if offset == regs::STIR {
            let irq = (value & 0x1FF) as u8;
            if irq < 128 {
                self.set_pending(irq);
            }
        }
    }

    /// Return to the power-on state.
    pub fn reset(&mut self)
        ensures
            final(self)@ == NvicCoreState::initial(),
    {
        *self = NvicCore::new();
    }
}

impl Default for NvicCore {
    fn default() -> (r: Self)
        ensures
            r@ == NvicCoreState::initial(),
    {
        NvicCore::new()
    }
}

/// NVIC of both cores.
#[derive(Debug)]
pub struct Nvic {
    /// Core 0 NVIC.
    pub core0: NvicCore,
    /// Core 1 NVIC.
    pub core1: NvicCore,
}

/// Core whose NVIC window holds the address.
pub open spec fn core_of(addr: u32) -> int {
    if addr >= NVIC_BASE_CORE1 { 1 } else { 0 }
}

/// Base address of a core's NVIC window.
pub open spec fn base_of(core: int) -> u32 {
    if core == 0 { NVIC_BASE_CORE0 } else { NVIC_BASE_CORE1 }
}

impl Nvic {
    /// NVIC of the selected core (core 1 for any index but 0).
    pub open spec fn core_at(&self, core: int) -> NvicCore {
        if core == 0 { self.core0 } else { self.core1 }
    }

    /// Create a new NVIC instance.
    pub fn new() -> (r: Self)
        ensures
            r.core0@ == NvicCoreState::initial(),
            r.core1@ == NvicCoreState::initial(),
    {
        Nvic { core0: NvicCore::new(), core1: NvicCore::new() }
    }

    /// Device identifier.
    pub fn id(&self) -> (r: DeviceId)
        ensures
            r == DeviceId::NVIC,
    {
        DeviceId::NVIC
    }

    /// NVIC of a core: core 0 for index 0, core 1 otherwise.
    pub fn get_core(&self, core: usize) -> (r: &NvicCore)
        ensures
            *r == self.core_at(core as int),
    {
        match core {
            0 => &self.core0,
            _ => &self.core1,
        }
    }

    /// Mutable NVIC of a core: core 0 for index 0, core 1 otherwise.
    pub fn get_core_mut(&mut self, core: usize) -> (r: &mut NvicCore)
        ensures
            *r == old(self).core_at(core as int),
            core == 0 ==> *final(self) == (Nvic { core0: *final(r), core1: old(self).core1 }),
            core != 0 ==> *final(self) == (Nvic { core0: old(self).core0, core1: *final(r) }),
    {
        match core {
            0 => &mut self.core0,
            _ => &mut self.core1,
        }
    }

    /// Make an interrupt pending on both cores.
    pub fn trigger_irq(&mut self, irq: u8)
        ensures
            final(self).core0@ == (NvicCoreState {
                pending: with_irq_bit(old(self).core0@.pending, irq, true),
                ..old(self).core0@
            }),
            final(self).core1@ == (NvicCoreState {
                pending: with_irq_bit(old(self).core1@.pending, irq, true),
                ..old(self).core1@
            }),
    {
        self.core0.set_pending(irq);
        self.core1.set_pending(irq);
    }

    /// Core whose window holds the address.
    pub fn get_core_index(&self, addr: u32) -> (r: usize)
        ensures
            r == core_of(addr),
    {
        if addr >= NVIC_BASE_CORE1 {
            1
        } else {
            0
        }
    }

    /// Base address of a core's window (core 1's for any index but 0).
    pub fn get_base(&self, core: usize) -> (r: u32)
        ensures
            r == base_of(core as int),
    {
        if core == 0 {
            NVIC_BASE_CORE0
        } else {
            NVIC_BASE_CORE1
        }
    }

    /// Register read; the address selects the core's window.
    pub fn read(&mut self, addr: u32) -> (r: u32)
        requires
            addr >= NVIC_BASE_CORE0,
        ensures
            core_of(addr) == 0 ==> r == old(self).core0@.read_value((addr - NVIC_BASE_CORE0) as u32),
            core_of(addr) == 1 ==> r == old(self).core1@.read_value((addr - NVIC_BASE_CORE1) as u32),
            *final(self) == *old(self),
    {
        let core_idx = self.get_core_index(addr);
        let base = self.get_base(core_idx);
        let offset = addr - base;
        if core_idx == 0 {
            self.core0.read(offset)
        } else {
            self.core1.read(offset)
        }
    }

    /// Register write; the address selects the core's window.
    pub fn write(&mut self, addr: u32, value: u32)
        requires
            addr >= NVIC_BASE_CORE0,
        ensures
            core_of(addr) == 0 ==> final(self).core0@ == old(self).core0@.after_write(
                (addr - NVIC_BASE_CORE0) as u32,
                value,
            ) && final(self).core1 == old(self).core1,
            core_of(addr) == 1 ==> final(self).core1@ == old(self).core1@.after_write(
                (addr - NVIC_BASE_CORE1) as u32,
                value,
            ) && final(self).core0 == old(self).core0,
    {
        let core_idx = self.get_core_index(addr);
        let base = self.get_base(core_idx);
        let offset = addr - base;
        if core_idx == 0 {
            self.core0.write(offset, value);
        } else {
            self.core1.write(offset, value);
        }
    }

    /// Reset both cores' NVICs.
    pub fn reset(&mut self)
        ensures
            final(self).core0@ == NvicCoreState::initial(),
            final(self).core1@ == NvicCoreState::initial(),
    {
        self.core0.reset();
        self.core1.reset();
    }
}

impl Default for Nvic {
    fn default() -> (r: Self)
        ensures
            r.core0@ == NvicCoreState::initial(),
            r.core1@ == NvicCoreState::initial(),
    {
        Nvic::new()
    }
}

} // verus!
