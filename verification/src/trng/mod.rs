//! True random number generator: a 16-word FIFO refilled from a seeded
//! xorshift64 source.
use vstd::prelude::*;

use crate::device::DeviceId;

pub mod ctrl;
pub mod irq;
pub mod regs;
pub mod status;

verus! {

/// TRNG base address.
pub const TRNG_BASE: u32 = 0x5001_2000;

/// FIFO depth.
pub const FIFO_DEPTH: usize = 16;

/// Seed at power-on.
pub const INITIAL_SEED: u64 = 0x1234_5678_9ABC_DEF0;

/// Added to the seed by a RESET command.
pub const RESET_SEED_OFFSET: u64 = 0xDEAD_BEEF_CAFE_BABE;

/// Multiplied into the seed by a RESEED command.
pub const RESEED_MULTIPLIER: u64 = 0x5851_F42D_4C95_7F2D;

/// One xorshift64 step (shifts 13, 7, 17).
pub open spec fn xorshift(x: u64) -> u64 {
    let a = x ^ (x << 13u64);
    let b = a ^ (a >> 7u64);
    b ^ (b << 17u64)
}

/// The word produced from a fresh seed `x`, mixed with the sample count.
pub open spec fn output_of(x: u64, sample_cnt: u32) -> u32 {
    (x ^ x.wrapping_mul(sample_cnt as u64)) as u32
}

/// The seed after `n` xorshift steps.
pub open spec fn seed_after(seed: u64, n: nat) -> u64
    decreases n,
{
    if n == 0 {
        seed
    } else {
        xorshift(seed_after(seed, (n - 1) as nat))
    }
}

/// The `n` words generated in turn from `seed`, first generated first.
pub open spec fn outputs(seed: u64, sample_cnt: u32, n: nat) -> Seq<u32>
    decreases n,
{
    if n == 0 {
        Seq::empty()
    } else {
        outputs(seed, sample_cnt, (n - 1) as nat).push(output_of(seed_after(seed, n), sample_cnt))
    }
}

/// TRNG controller.
#[derive(Debug)]
pub struct Trng {
    /// Control register.
    pub ctrl: u32,
    /// Status register.
    pub status: u32,
    /// Interrupt enable.
    pub inten: u32,
    /// Interrupt status.
    pub intstat: u32,
    /// Random source enable.
    pub rnd_src_en: u32,
    /// Sample count.
    pub sample_cnt: u32,
    /// Random data FIFO; reads take the last word.
    pub fifo: Vec<u32>,
    /// Enabled flag.
    pub enabled: bool,
    /// Seed of the pseudo-random source.
    pub seed: u64,
}

/// Abstract state of the TRNG.
#[verifier::ext_equal]
pub ghost struct TrngState {
    pub ctrl: u32,
    pub status: u32,
    pub inten: u32,
    pub intstat: u32,
    pub rnd_src_en: u32,
    pub sample_cnt: u32,
    pub fifo: Seq<u32>,
    pub enabled: bool,
    pub seed: u64,
}

impl View for Trng {
    type V = TrngState;

    open spec fn view(&self) -> TrngState {
        TrngState {
            ctrl: self.ctrl,
            status: self.status,
            inten: self.inten,
            intstat: self.intstat,
            rnd_src_en: self.rnd_src_en,
            sample_cnt: self.sample_cnt,
            fifo: self.fifo@,
            enabled: self.enabled,
            seed: self.seed,
        }
    }
}

/// The power-on state.
pub open spec fn initial_state() -> TrngState {
    TrngState {
        ctrl: 0,
        status: status::READY | status::FIFO_EMPTY,
        inten: 0,
        intstat: 0,
        rnd_src_en: 0,
        sample_cnt: 32,
        fifo: Seq::empty(),
        enabled: false,
        seed: INITIAL_SEED,
    }
}

impl TrngState {
    /// Number of words a refill adds.
    pub open spec fn refill_count(self) -> nat {
        if self.fifo.len() < FIFO_DEPTH {
            (FIFO_DEPTH - self.fifo.len()) as nat
        } else {
            0
        }
    }

    /// The state after the FIFO is topped up to its depth.
    pub open spec fn filled(self) -> TrngState {
        let n = self.refill_count();
        TrngState {
            fifo: self.fifo + outputs(self.seed, self.sample_cnt, n),
            seed: seed_after(self.seed, n),
            status: (self.status & !status::FIFO_EMPTY) | status::FIFO_FULL,
            ..self
        }
    }

    /// The state after a RESET command.
    pub open spec fn after_reset(self) -> TrngState {
        TrngState {
            fifo: Seq::empty(),
            status: status::READY | status::FIFO_EMPTY,
            intstat: 0,
            seed: self.seed.wrapping_add(RESET_SEED_OFFSET),
            ..self
        }
    }

    /// The state after a RESEED command.
    pub open spec fn after_reseed(self) -> TrngState {
        TrngState { seed: self.seed.wrapping_mul(RESEED_MULTIPLIER), ..self }.filled()
    }

    /// The word a DATA read returns: the last FIFO word, or 0 when the FIFO is empty.
    pub open spec fn data_value(self) -> u32 {
        if self.fifo.len() > 0 {
            self.fifo.last()
        } else {
            0
        }
    }

    /// The state after a DATA read.
    pub open spec fn after_data_read(self) -> TrngState {
        if self.fifo.len() > 0 {
            let rest = self.fifo.drop_last();
            let cleared = self.status & !status::FIFO_FULL;
            let popped = TrngState {
                fifo: rest,
                status: if rest.len() == 0 {
                    cleared | status::FIFO_EMPTY
                } else {
                    cleared
                },
                ..self
            };
            if self.enabled {
                popped.filled()
            } else {
                popped
            }
        } else {
            self
        }
    }

    /// The state after a CTRL write.
    pub open spec fn after_ctrl_write(self, value: u32) -> TrngState {
        let s0 = TrngState { ctrl: value, ..self };
        let s1 = if value & ctrl::RESET != 0 {
            s0.after_reset()
        } else {
            s0
        };
        let s2 = if value & ctrl::ENABLE != 0 {
            TrngState { enabled: true, ..s1 }.filled()
        } else {
            TrngState { enabled: false, ..s1 }
        };
        if value & ctrl::RESEED != 0 {
            s2.after_reseed()
        } else {
            s2
        }
    }

    /// The value a register read returns.
    pub open spec fn read_value(self, offset: u32) -> u32 {
        if offset == regs::CTRL {
            self.ctrl
        } else if offset == regs::STATUS {
            self.status
        } else if offset == regs::DATA {
            self.data_value()
        } else if offset == regs::INTEN {
            self.inten
        } else if offset == regs::INTSTAT {
            self.intstat
        } else if offset == regs::RND_SRC_EN {
            self.rnd_src_en
        } else if offset == regs::SAMPLE_CNT {
            self.sample_cnt
        } else {
            0
        }
    }

    /// The state after a register read.
    pub open spec fn after_read(self, offset: u32) -> TrngState {
        if offset == regs::DATA {
            self.after_data_read()
        } else {
            self
        }
    }

    /// The state after a register write.
    pub open spec fn after_write(self, offset: u32, value: u32) -> TrngState {
        if offset == regs::CTRL {
            self.after_ctrl_write(value)
        } else if offset == regs::INTEN {
            TrngState { inten: value, ..self }
        } else if offset == regs::INTSTAT {
            TrngState { intstat: self.intstat & !value, ..self }
        } else if offset == regs::RND_SRC_EN {
            TrngState { rnd_src_en: value, ..self }
        } else if offset == regs::SAMPLE_CNT {
            TrngState { sample_cnt: value, ..self }
        } else {
            self
        }
    }
}

/// The generator yields exactly as many words as asked of it.
pub proof fn lemma_outputs_len(seed: u64, sample_cnt: u32, n: nat)
    ensures
        outputs(seed, sample_cnt, n).len() == n,
    decreases n,
{
    if n > 0 {
        lemma_outputs_len(seed, sample_cnt, (n - 1) as nat);
    }
}

/// A refill keeps the words already queued, brings the FIFO to its depth and
/// flags it full and not empty.
pub proof fn lemma_fill_tops_up(s: TrngState)
    requires
        s.fifo.len() <= FIFO_DEPTH,
    ensures
        s.filled().fifo.len() == FIFO_DEPTH,
        s.filled().fifo.subrange(0, s.fifo.len() as int) == s.fifo,
        s.filled().status & status::FIFO_FULL != 0,
        s.filled().status & status::FIFO_EMPTY == 0,
{
    lemma_outputs_len(s.seed, s.sample_cnt, s.refill_count());
    let x = s.status;
    assert(((x & !8u32) | 16u32) & 16u32 != 0 && ((x & !8u32) | 16u32) & 8u32 == 0) by (bit_vector);
}

/// Writing CTRL with ENABLE set leaves the TRNG enabled with a full FIFO.
pub proof fn lemma_enable_fills(s: TrngState, value: u32)
    requires
        s.fifo.len() <= FIFO_DEPTH,
        value & ctrl::ENABLE != 0,
    ensures
        s.after_write(regs::CTRL, value).enabled,
        s.after_write(regs::CTRL, value).fifo.len() == FIFO_DEPTH,
        s.after_write(regs::CTRL, value).status & status::FIFO_FULL != 0,
{
    let s0 = TrngState { ctrl: value, ..s };
    let s1 = if value & ctrl::RESET != 0 {
        s0.after_reset()
    } else {
        s0
    };
    let s2 = TrngState { enabled: true, ..s1 };
    lemma_fill_tops_up(s2);
    let s3 = TrngState { seed: s2.filled().seed.wrapping_mul(RESEED_MULTIPLIER), ..s2.filled() };
    lemma_fill_tops_up(s3);
}

/// Writing CTRL with RESET set, and neither ENABLE nor RESEED, leaves the TRNG
/// disabled with an empty FIFO, its status back to ready and empty, and no
/// interrupt status.
pub proof fn lemma_reset_command_empties(s: TrngState, value: u32)
    requires
        value & ctrl::RESET != 0,
        value & ctrl::ENABLE == 0,
        value & ctrl::RESEED == 0,
    ensures
        !s.after_write(regs::CTRL, value).enabled,
        s.after_write(regs::CTRL, value).fifo.len() == 0,
        s.after_write(regs::CTRL, value).status == status::READY | status::FIFO_EMPTY,
        s.after_write(regs::CTRL, value).intstat == 0,
{
}

/// While the TRNG is enabled, a DATA read returns the last queued word and
/// the FIFO stays full, the other words in place.
pub proof fn lemma_enabled_read_keeps_full(s: TrngState)
    requires
        s.enabled,
        s.fifo.len() == FIFO_DEPTH,
    ensures
        s.data_value() == s.fifo[FIFO_DEPTH - 1],
        s.after_data_read().enabled,
        s.after_data_read().fifo.len() == FIFO_DEPTH,
        s.after_data_read().fifo.subrange(0, FIFO_DEPTH - 1) == s.fifo.subrange(0, FIFO_DEPTH - 1),
{
    let rest = s.fifo.drop_last();
    let cleared = s.status & !status::FIFO_FULL;
    let popped = TrngState { fifo: rest, status: cleared, ..s };
    lemma_fill_tops_up(popped);
    assert(s.after_data_read().fifo.subrange(0, FIFO_DEPTH - 1) == rest);
}

/// No register access takes the FIFO past its depth.
pub proof fn lemma_accesses_keep_depth(s: TrngState, offset: u32, value: u32)
    requires
        s.fifo.len() <= FIFO_DEPTH,
    ensures
        s.after_read(offset).fifo.len() <= FIFO_DEPTH,
        s.after_write(offset, value).fifo.len() <= FIFO_DEPTH,
{
    if offset == regs::DATA && s.fifo.len() > 0 {
        let rest = s.fifo.drop_last();
        lemma_fill_tops_up(TrngState { fifo: rest, status: s.status & !status::FIFO_FULL, ..s });
        lemma_fill_tops_up(
            TrngState {
                fifo: rest,
                status: (s.status & !status::FIFO_FULL) | status::FIFO_EMPTY,
                ..s
            },
        );
    }
    if offset == regs::CTRL && value & ctrl::ENABLE != 0 {
        lemma_enable_fills(s, value);
    } else if offset == regs::CTRL {
        let s0 = TrngState { ctrl: value, ..s };
        let s1 = if value & ctrl::RESET != 0 {
            s0.after_reset()
        } else {
            s0
        };
        let s2 = TrngState { enabled: false, ..s1 };
        lemma_fill_tops_up(TrngState { seed: s2.seed.wrapping_mul(RESEED_MULTIPLIER), ..s2 });
    }
}

impl Default for Trng {
    fn default() -> (r: Self)
        ensures
            r@ == initial_state(),
    {
        Trng::new()
    }
}

impl Trng {
    /// Create a new TRNG controller.
    pub fn new() -> (r: Self)
        ensures
            r@ == initial_state(),
    {
        Trng {
            ctrl: 0,
            status: status::READY | status::FIFO_EMPTY,
            inten: 0,
            intstat: 0,
            rnd_src_en: 0,
            sample_cnt: 32,
            fifo: Vec::with_capacity(FIFO_DEPTH),
            enabled: false,
            seed: INITIAL_SEED,
        }
    }

    /// Check if TRNG is enabled.
    pub fn is_enabled(&self) -> (r: bool)
        ensures
            r == self.enabled,
    {
        self.enabled
    }

    /// Check if data is ready.
    pub fn is_ready(&self) -> (r: bool)
        ensures
            r == (self.status & status::READY != 0),
    {
        (self.status & status::READY) != 0
    }

    /// Check if FIFO is empty.
    pub fn is_fifo_empty(&self) -> (r: bool)
        ensures
            r == (self.fifo@.len() == 0),
    {
        self.fifo.len() == 0
    }

    /// Check if FIFO is full.
    pub fn is_fifo_full(&self) -> (r: bool)
        ensures
            r == (self.fifo@.len() >= FIFO_DEPTH),
    {
        self.fifo.len() >= FIFO_DEPTH
    }

    /// Advance the seed by one xorshift64 step and derive a word from it.
    pub fn generate_random(&mut self) -> (r: u32)
        ensures
            final(self)@ == (TrngState { seed: xorshift(old(self).seed), ..old(self)@ }),
            r == output_of(xorshift(old(self).seed), old(self).sample_cnt),
    {
        let mut x: u64 = self.seed;
        x = x ^ (x << 13u64);
        x = x ^ (x >> 7u64);
        x = x ^ (x << 17u64);
        self.seed = x;
        let sample: u64 = self.sample_cnt as u64;
        x = x ^ x.wrapping_mul(sample);
        x as u32
    }

    /// Top the FIFO up to its depth with generated words.
    pub fn fill_fifo(&mut self)
        ensures
            final(self)@ == old(self)@.filled(),
    {
        let ghost start = self@;
        while self.fifo.len() < FIFO_DEPTH
            invariant
                start.fifo.len() <= self.fifo@.len(),
                start.fifo.len() < FIFO_DEPTH ==> self.fifo@.len() <= FIFO_DEPTH,
                start.fifo.len() >= FIFO_DEPTH ==> self.fifo@.len() == start.fifo.len(),
                self.fifo@ == start.fifo + outputs(
                    start.seed,
                    start.sample_cnt,
                    (self.fifo@.len() - start.fifo.len()) as nat,
                ),
                self.seed == seed_after(start.seed, (self.fifo@.len() - start.fifo.len()) as nat),
                self@ == (TrngState { fifo: self.fifo@, seed: self.seed, ..start }),
            decreases FIFO_DEPTH - self.fifo@.len(),
        {
            let ghost k: nat = (self.fifo@.len() - start.fifo.len()) as nat;
            let random = self.generate_random();
            self.fifo.push(random);
            assert(self.fifo@ == start.fifo + outputs(start.seed, start.sample_cnt, k + 1));
        }
        assert(self.fifo@.len() - start.fifo.len() == start.refill_count());
        self.status = self.status & !status::FIFO_EMPTY;
        if self.fifo.len() >= FIFO_DEPTH {
            self.status = self.status | status::FIFO_FULL;
        }
    }

    /// Read random data from the FIFO: the last word, after which the FIFO is
    /// refilled when the TRNG is enabled; 0 when the FIFO is empty.
    pub fn read_data(&mut self) -> (r: u32)
        ensures
            r == old(self)@.data_value(),
            final(self)@ == old(self)@.after_data_read(),
    {
        match self.fifo.pop() {
            Some(data) => {
                self.status = self.status & !status::FIFO_FULL;
                if self.fifo.len() == 0 {
                    self.status = self.status | status::FIFO_EMPTY;
                }
                if self.enabled {
                    self.fill_fifo();
                }
                data
            },
            None => 0,
        }
    }

    /// Empty the FIFO, restore the status and move the seed on.
    pub fn reset_trng(&mut self)
        ensures
            final(self)@ == old(self)@.after_reset(),
    {
        self.fifo.clear();
        self.status = status::READY | status::FIFO_EMPTY;
        self.intstat = 0;
        self.seed = self.seed.wrapping_add(RESET_SEED_OFFSET);
    }

    /// Mix new entropy into the seed and refill the FIFO.
    pub fn reseed(&mut self)
        ensures
            final(self)@ == old(self)@.after_reseed(),
    {
        self.seed = self.seed.wrapping_mul(RESEED_MULTIPLIER);
        self.fill_fifo();
    }

    /// Check for pending interrupt.
    pub fn has_interrupt(&self) -> (r: bool)
        ensures
            r == (self.intstat & self.inten != 0),
    {
        (self.intstat & self.inten) != 0
    }

    pub fn id(&self) -> (r: DeviceId)
        ensures
            r == DeviceId::TRNG,
    {
        DeviceId::TRNG
    }

    pub fn read(&mut self, addr: u32) -> (r: u32)
        requires
            addr >= TRNG_BASE,
        ensures
            r == old(self)@.read_value((addr - TRNG_BASE) as u32),
            final(self)@ == old(self)@.after_read((addr - TRNG_BASE) as u32),
    {
        let offset = addr - TRNG_BASE;
        if offset == regs::CTRL {
            self.ctrl
        } else if offset == regs::STATUS {
            self.status
        } else if offset == regs::DATA {
            self.read_data()
        } else if offset == regs::INTEN {
            self.inten
        } else if offset == regs::INTSTAT {
            self.intstat
        } else if offset == regs::RND_SRC_EN {
            self.rnd_src_en
        } else if offset == regs::SAMPLE_CNT {
            self.sample_cnt
        } else {
            0
        }
    }

    pub fn write(&mut self, addr: u32, value: u32)
        requires
            addr >= TRNG_BASE,
        ensures
            final(self)@ == old(self)@.after_write((addr - TRNG_BASE) as u32, value),
    {
        let offset = addr - TRNG_BASE;
        if offset == regs::CTRL {
            self.ctrl = value;
            if (value & ctrl::RESET) != 0 {
                self.reset_trng();
            }
            if (value & ctrl::ENABLE) != 0 {
                self.enabled = true;
                self.fill_fifo();
            } else {
                self.enabled = false;
            }
            if (value & ctrl::RESEED) != 0 {
                self.reseed();
            }
        } else if offset == regs::INTEN {
            self.inten = value;
        } else if offset == regs::INTSTAT {
            self.intstat = self.intstat & !value;
        } else if offset == regs::RND_SRC_EN {
            self.rnd_src_en = value;
        } else if offset == regs::SAMPLE_CNT {
            self.sample_cnt = value;
        }
    }

    pub fn reset(&mut self)
        ensures
            final(self)@ == initial_state(),
    {
        *self = Trng::new();
    }
}

} // verus!
