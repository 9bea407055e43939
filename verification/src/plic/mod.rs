//! Platform-level interrupt controller: 127 sources (source 0 is reserved),
//! two contexts with enables, thresholds and a claim/complete handshake.
use vstd::prelude::*;

use crate::device::DeviceId;

pub mod regs;

verus! {

/// PLIC base address.
pub const PLIC_BASE: u32 = 0x1000_0000;

/// Number of interrupt sources (source 0 does not exist).
pub const NUM_SOURCES: usize = 128;

/// Number of contexts (one per core).
pub const NUM_CONTEXTS: usize = 2;

/// A source that exists.
pub open spec fn valid_source(source: u32) -> bool {
    1 <= source < NUM_SOURCES
}

/// Bit of `source` in a bank of four words.
pub open spec fn source_bit(words: Seq<u32>, source: u32) -> bool {
    valid_source(source) && words[(source / 32) as int] & (1u32 << (source % 32)) != 0
}

/// The bank with `source`'s bit set or cleared (no change for a source that
/// does not exist).
pub open spec fn with_source_bit(words: Seq<u32>, source: u32, on: bool) -> Seq<u32> {
    let w = (source / 32) as int;
    let m = 1u32 << (source % 32);
    if valid_source(source) {
        words.update(w, if on { words[w] | m } else { words[w] & !m })
    } else {
        words
    }
}

/// PLIC peripheral.
#[derive(Debug)]
pub struct Plic {
    /// Interrupt pending registers.
    pub pending: [u32; 4],
    /// Interrupt enable registers, four per context.
    pub enable: [u32; 8],
    /// Interrupt priorities (per source).
    pub priority: [u32; 128],
    /// Threshold (per context).
    pub threshold: [u32; 2],
    /// Claim register (per context).
    pub claim: [u32; 2],
}

/// Abstract state of the PLIC.
#[verifier::ext_equal]
pub ghost struct PlicState {
    pub pending: Seq<u32>,
    pub enable: Seq<u32>,
    pub priority: Seq<u32>,
    pub threshold: Seq<u32>,
    pub claim: Seq<u32>,
}

impl View for Plic {
    type V = PlicState;

    open spec fn view(&self) -> PlicState {
        PlicState {
            pending: self.pending@,
            enable: self.enable@,
            priority: self.priority@,
            threshold: self.threshold@,
            claim: self.claim@,
        }
    }
}

impl PlicState {
    pub open spec fn initial() -> PlicState {
        PlicState {
            pending: Seq::new(4, |i: int| 0u32),
            enable: Seq::new(8, |i: int| 0u32),
            priority: Seq::new(128, |i: int| 0u32),
            threshold: Seq::new(2, |i: int| 0u32),
            claim: Seq::new(2, |i: int| 0u32),
        }
    }

    pub open spec fn wf(self) -> bool {
        &&& self.pending.len() == 4
        &&& self.enable.len() == 8
        &&& self.priority.len() == NUM_SOURCES
        &&& self.threshold.len() == NUM_CONTEXTS
        &&& self.claim.len() == NUM_CONTEXTS
    }

    /// The four enable words of a context.
    pub open spec fn enables(self, context: int) -> Seq<u32> {
        self.enable.subrange(context * 4, context * 4 + 4)
    }

    pub open spec fn is_pending(self, source: u32) -> bool {
        source_bit(self.pending, source)
    }

    pub open spec fn is_enabled(self, context: int, source: u32) -> bool {
        0 <= context < NUM_CONTEXTS && source_bit(self.enables(context), source)
    }

    pub open spec fn priority_of(self, source: u32) -> u32 {
        if source < NUM_SOURCES { self.priority[source as int] } else { 0 }
    }

    /// A source the context would take: pending, enabled for it, and with a
    /// priority above its threshold.
    pub open spec fn eligible(self, context: int, source: u32) -> bool {
        &&& valid_source(source)
        &&& self.is_pending(source)
        &&& self.is_enabled(context, source)
        &&& self.priority_of(source) > self.threshold[context]
    }

    /// `source` is the eligible source with the highest priority, the
    /// lowest-numbered among equals.
    pub open spec fn is_best(self, context: int, source: u32) -> bool {
        &&& self.eligible(context, source)
        &&& forall|j: u32| #[trigger]
            self.eligible(context, j) ==> self.priority_of(j) <= self.priority_of(source)
        &&& forall|j: u32|
            j < source && #[trigger] self.eligible(context, j) ==> self.priority_of(j)
                < self.priority_of(source)
    }

    pub open spec fn after_claim(self, context: int, source: u32) -> PlicState {
        PlicState {
            pending: with_source_bit(self.pending, source, false),
            claim: self.claim.update(context, source),
            ..self
        }
    }

    pub open spec fn after_complete(self, context: int, source: u32) -> PlicState {
        if 0 <= context < NUM_CONTEXTS && source < NUM_SOURCES && self.claim[context] == source {
            PlicState { claim: self.claim.update(context, 0), ..self }
        } else {
            self
        }
    }

    pub open spec fn read_value(self, offset: u32) -> u32 {
        if offset <= 0x000F {
            self.pending[(offset / 4) as int]
        } else if 0x0020 <= offset <= 0x002F {
            self.enable[(offset - 0x0020) / 4]
        } else if 0x0030 <= offset <= 0x003F {
            self.enable[4 + (offset - 0x0030) / 4]
        } else if 0x1000 <= offset <= 0x11FC {
            self.priority[(offset - 0x1000) / 4]
        } else if offset == regs::THRESHOLD0 {
            self.threshold[0]
        } else if offset == regs::CLAIM0 {
            self.claim[0]
        } else if offset == regs::THRESHOLD1 {
            self.threshold[1]
        } else if offset == regs::CLAIM1 {
            self.claim[1]
        } else {
            0
        }
    }

    pub open spec fn after_write(self, offset: u32, value: u32) -> PlicState {
        if 0x0020 <= offset <= 0x002F {
            PlicState { enable: self.enable.update((offset - 0x0020) / 4, value), ..self }
        } else if 0x0030 <= offset <= 0x003F {
            PlicState { enable: self.enable.update(4 + (offset - 0x0030) / 4, value), ..self }
        } else if 0x1000 <= offset <= 0x11FC {
            PlicState { priority: self.priority.update((offset - 0x1000) / 4, value & 0x7), ..self }
        } else if offset == regs::THRESHOLD0 {
            PlicState { threshold: self.threshold.update(0, value & 0x7), ..self }
        } else if offset == regs::CLAIM0 {
            self.after_complete(0, value)
        } else if offset == regs::THRESHOLD1 {
            PlicState { threshold: self.threshold.update(1, value & 0x7), ..self }
        } else if offset == regs::CLAIM1 {
            self.after_complete(1, value)
        } else {
            self
        }
    }
}


/// Setting or clearing a source's bit makes it read back as written and
/// leaves every other source's bit as it was.
pub proof fn lemma_source_bit_set_get(words: Seq<u32>, source: u32, on: bool, other: u32)
    requires
        words.len() == 4,
        valid_source(source),
    ensures
        source_bit(with_source_bit(words, source, on), source) == on,
        other != source ==> source_bit(with_source_bit(words, source, on), other) == source_bit(
            words,
            other,
        ),
{
    crate::bits::lemma_bit_ops(words[(source / 32) as int], source % 32, other % 32);
    if other != source && other / 32 == source / 32 {
        assert(other % 32 != source % 32);
    }
}

/// A claimed source is no longer pending, so a second claim by any context
/// cannot return it until it is raised again.
pub proof fn lemma_claimed_not_eligible(s: PlicState, context: int, source: u32, other: int)
    requires
        s.wf(),
        valid_source(source),
        0 <= context < NUM_CONTEXTS,
        0 <= other < NUM_CONTEXTS,
    ensures
        !s.after_claim(context, source).eligible(other, source),
{
    lemma_source_bit_set_get(s.pending, source, false, source);
}

impl Plic {
    pub open spec fn wf(&self) -> bool {
        self@.wf()
    }

    /// Create a new PLIC instance.
    pub fn new() -> (r: Self)
        ensures
            r@ == PlicState::initial(),
    {
        Plic {
            pending: [0u32; 4],
            enable: [0u32; 8],
            priority: [0u32; 128],
            threshold: [0u32; 2],
            claim: [0u32; 2],
        }
    }

    /// Device identifier.
    pub fn id(&self) -> (r: DeviceId)
        ensures
            r == DeviceId::PLIC,
    {
        DeviceId::PLIC
    }

    /// Check if a source is pending.
    pub fn is_pending(&self, source: u32) -> (r: bool)
        ensures
            r == self@.is_pending(source),
    {
        if source == 0 || source >= 128 {
            return false;
        }
        (self.pending[(source / 32) as usize] & (1u32 << (source % 32))) != 0
    }

    /// Raise a source.
    pub fn set_pending(&mut self, source: u32)
        ensures
            final(self)@ == (PlicState { pending: with_source_bit(old(self)@.pending, source, true), ..old(self)@ }),
    {
        if source == 0 || source >= 128 {
            return;
        }
        let reg = (source / 32) as usize;
        self.pending[reg] = self.pending[reg] | (1u32 << (source % 32));
    }

    /// Lower a source.
    pub fn clear_pending(&mut self, source: u32)
        ensures
            final(self)@ == (PlicState { pending: with_source_bit(old(self)@.pending, source, false), ..old(self)@ }),
    {
        if source == 0 || source >= 128 {
            return;
        }
        let reg = (source / 32) as usize;
        self.pending[reg] = self.pending[reg] & !(1u32 << (source % 32));
    }

    /// Check if a source is enabled for a context.
    pub fn is_enabled(&self, context: usize, source: u32) -> (r: bool)
        ensures
            r == self@.is_enabled(context as int, source),
    {
        if source == 0 || source >= 128 || context >= NUM_CONTEXTS {
            return false;
        }
        (self.enable[context * 4 + (source / 32) as usize] & (1u32 << (source % 32))) != 0
    }

    /// Enable a source for a context.
    pub fn enable(&mut self, context: usize, source: u32)
        ensures
            context < NUM_CONTEXTS ==> final(self)@.enables(context as int) == with_source_bit(
                old(self)@.enables(context as int),
                source,
                true,
            ),
            context < NUM_CONTEXTS ==> final(self)@.enables(1 - context) == old(self)@.enables(
                1 - context,
            ),
            context >= NUM_CONTEXTS ==> final(self)@ == old(self)@,
            final(self)@ == (PlicState { enable: final(self)@.enable, ..old(self)@ }),
            final(self)@.wf(),
    {
        if source == 0 || source >= 128 || context >= NUM_CONTEXTS {
            return;
        }
        let reg = context * 4 + (source / 32) as usize;
        self.enable[reg] = self.enable[reg] | (1u32 << (source % 32));
        assert(self@.enables(context as int) =~= with_source_bit(
            old(self)@.enables(context as int),
            source,
            true,
        ));
        assert(self@.enables(1 - context) =~= old(self)@.enables(1 - context));
    }

    /// Disable a source for a context.
    pub fn disable(&mut self, context: usize, source: u32)
        ensures
            context < NUM_CONTEXTS ==> final(self)@.enables(context as int) == with_source_bit(
                old(self)@.enables(context as int),
                source,
                false,
            ),
            context < NUM_CONTEXTS ==> final(self)@.enables(1 - context) == old(self)@.enables(
                1 - context,
            ),
            context >= NUM_CONTEXTS ==> final(self)@ == old(self)@,
            final(self)@ == (PlicState { enable: final(self)@.enable, ..old(self)@ }),
            final(self)@.wf(),
    {
        if source == 0 || source >= 128 || context >= NUM_CONTEXTS {
            return;
        }
        let reg = context * 4 + (source / 32) as usize;
        self.enable[reg] = self.enable[reg] & !(1u32 << (source % 32));
        assert(self@.enables(context as int) =~= with_source_bit(
            old(self)@.enables(context as int),
            source,
            false,
        ));
        assert(self@.enables(1 - context) =~= old(self)@.enables(1 - context));
    }

    /// Priority of a source; 0 past the last source.
    pub fn get_priority(&self, source: u32) -> (r: u32)
        ensures
            r == self@.priority_of(source),
    {
        if source >= 128 {
            return 0;
        }
        self.priority[source as usize]
    }

    /// Set a source's priority (3 bits).
    pub fn set_priority(&mut self, source: u32, priority: u32)
        ensures
            source < NUM_SOURCES ==> final(self)@ == (PlicState {
                priority: old(self)@.priority.update(source as int, priority & 0x7),
                ..old(self)@
            }),
            source >= NUM_SOURCES ==> final(self)@ == old(self)@,
    {
        if source >= 128 {
            return;
        }
        self.priority[source as usize] = priority & 0x7;
    }

    /// Threshold of a context; 0 for a context that does not exist.
    pub fn get_threshold(&self, context: usize) -> (r: u32)
        ensures
            r == (if context < NUM_CONTEXTS { self@.threshold[context as int] } else { 0 }),
    {
        if context >= NUM_CONTEXTS {
            return 0;
        }
        self.threshold[context]
    }

    /// Set a context's threshold (3 bits).
    pub fn set_threshold(&mut self, context: usize, threshold: u32)
        ensures
            context < NUM_CONTEXTS ==> final(self)@ == (PlicState {
                threshold: old(self)@.threshold.update(context as int, threshold & 0x7),
                ..old(self)@
            }),
            context >= NUM_CONTEXTS ==> final(self)@ == old(self)@,
    {
        if context >= NUM_CONTEXTS {
            return;
        }
        self.threshold[context] = threshold & 0x7;
    }

    /// The best eligible source for a context, or 0.
    fn best_source(&self, context: usize) -> (r: u32)
        requires
            context < NUM_CONTEXTS,
        ensures
            r != 0 ==> self@.is_best(context as int, r),
            r == 0 ==> forall|j: u32| !(#[trigger] self@.eligible(context as int, j)),
    {
        let mut best_source: u32 = 0;
        let mut best_priority: u32 = 0;
        let threshold = self.threshold[context];
        let mut source: u32 = 1;
        while source < 128
            invariant
                1 <= source <= 128,
                context < NUM_CONTEXTS,
                threshold == self@.threshold[context as int],
                best_source == 0 ==> best_priority == 0,
                best_source == 0 ==> forall|j: u32|
                    j < source ==> !(#[trigger] self@.eligible(context as int, j)),
                best_source != 0 ==> {
                    &&& best_source < source
                    &&& self@.eligible(context as int, best_source)
                    &&& best_priority == self@.priority_of(best_source)
                    &&& forall|j: u32|
                        j < source && #[trigger] self@.eligible(context as int, j)
                            ==> self@.priority_of(j) <= best_priority
                    &&& forall|j: u32|
                        j < best_source && #[trigger] self@.eligible(context as int, j)
                            ==> self@.priority_of(j) < best_priority
                },
            decreases 128 - source,
        {
            if self.is_pending(source) && self.is_enabled(context, source) {
                let priority = self.get_priority(source);
                if priority > threshold && priority > best_priority {
                    best_priority = priority;
                    best_source = source;
                }
            }
            source = source + 1;
        }
        best_source
    }

    /// Claim the best eligible source for a context: it stops pending and is
    /// recorded as the context's claim; 0 when there is none.
    pub fn claim(&mut self, context: usize) -> (r: u32)
        ensures
            context >= NUM_CONTEXTS ==> r == 0 && final(self)@ == old(self)@,
            context < NUM_CONTEXTS && r != 0 ==> old(self)@.is_best(context as int, r)
                && final(self)@ == old(self)@.after_claim(context as int, r),
            context < NUM_CONTEXTS && r == 0 ==> (forall|j: u32|
                !(#[trigger] old(self)@.eligible(context as int, j))) && final(self)@ == old(self)@,
    {
        if context >= NUM_CONTEXTS {
            return 0;
        }
        let best_source = self.best_source(context);
        if best_source > 0 {
            self.clear_pending(best_source);
            self.claim[context] = best_source;
        }
        best_source
    }

    /// Complete the handling of a source: clears the context's claim when it
    /// names that source.
    pub fn complete(&mut self, context: usize, source: u32)
        ensures
            final(self)@ == old(self)@.after_complete(context as int, source),
    {
        if context >= NUM_CONTEXTS || source >= 128 {
            return;
        }
        if self.claim[context] == source {
            self.claim[context] = 0;
        }
    }

    /// Some source is eligible for the context.
    pub fn has_pending(&self, context: usize) -> (r: bool)
        ensures
            r == (context < NUM_CONTEXTS && exists|j: u32| #[trigger]
                self@.eligible(context as int, j)),
    {
        if context >= NUM_CONTEXTS {
            return false;
        }
        let threshold = self.threshold[context];
        let mut source: u32 = 1;
        while source < 128
            invariant
                1 <= source <= 128,
                context < NUM_CONTEXTS,
                threshold == self@.threshold[context as int],
                forall|j: u32| j < source ==> !(#[trigger] self@.eligible(context as int, j)),
            decreases 128 - source,
        {
            if self.is_pending(source) && self.is_enabled(context, source) {
                let priority = self.get_priority(source);
                if priority > threshold {
                    assert(self@.eligible(context as int, source));
                    return true;
                }
            }
            source = source + 1;
        }
        false
    }

    /// Register read at an offset from the PLIC base.
    pub fn read_reg(&self, offset: u32) -> (r: u32)
        ensures
            r == self@.read_value(offset),
    {
        if offset <= 0x000F {
            self.pending[(offset / 4) as usize]
        } else if 0x0020 <= offset && offset <= 0x002F {
            self.enable[((offset - 0x0020) / 4) as usize]
        } else if 0x0030 <= offset && offset <= 0x003F {
            self.enable[4 + ((offset - 0x0030) / 4) as usize]
        } else if 0x1000 <= offset && offset <= 0x11FC {
            self.priority[((offset - 0x1000) / 4) as usize]
        } else if offset == regs::THRESHOLD0 {
            self.threshold[0]
        } else if offset == regs::CLAIM0 {
            self.claim[0]
        } else if offset == regs::THRESHOLD1 {
            self.threshold[1]
        } else if offset == regs::CLAIM1 {
            self.claim[1]
        } else {
            0
        }
    }

    /// Register write at an offset from the PLIC base.
    pub fn write_reg(&mut self, offset: u32, value: u32)
        ensures
            final(self)@ == old(self)@.after_write(offset, value),
    {
        if 0x0020 <= offset && offset <= 0x002F {
            self.enable[((offset - 0x0020) / 4) as usize] = value;
        } else if 0x0030 <= offset && offset <= 0x003F {
            self.enable[4 + ((offset - 0x0030) / 4) as usize] = value;
        } else if 0x1000 <= offset && offset <= 0x11FC {
            self.priority[((offset - 0x1000) / 4) as usize] = value & 0x7;
        } else if offset == regs::THRESHOLD0 {
            self.threshold[0] = value & 0x7;
        } else if offset == regs::CLAIM0 {
            self.complete(0, value);
        } else if offset == regs::THRESHOLD1 {
            self.threshold[1] = value & 0x7;
        } else if offset == regs::CLAIM1 {
            self.complete(1, value);
        }
    }

    /// Register read.
    pub fn read(&mut self, addr: u32) -> (r: u32)
        requires
            addr >= PLIC_BASE,
        ensures
            r == old(self)@.read_value((addr - PLIC_BASE) as u32),
            final(self)@ == old(self)@,
    {
        self.read_reg(addr - PLIC_BASE)
    }

    /// Register write.
    pub fn write(&mut self, addr: u32, value: u32)
        requires
            addr >= PLIC_BASE,
        ensures
            final(self)@ == old(self)@.after_write((addr - PLIC_BASE) as u32, value),
    {
        self.write_reg(addr - PLIC_BASE, value);
    }

    /// Return to the power-on state.
    pub fn reset(&mut self)
        ensures
            final(self)@ == PlicState::initial(),
    {
        *self = Plic::new();
    }
}

impl Default for Plic {
    fn default() -> (r: Self)
        ensures
            r@ == PlicState::initial(),
    {
        Plic::new()
    }
}

} // verus!
