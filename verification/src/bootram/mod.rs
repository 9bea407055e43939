//! Boot RAM: 8 KB of word-addressed memory with enable, protect and lock controls.
use vstd::prelude::*;

use crate::device::DeviceId;

pub mod ctrl;
pub mod regs;
pub mod status;

verus! {

/// Bootram base address.
pub const BOOTRAM_BASE: u32 = 0x4000_0000;

/// Bootram size in bytes (8 KB).
pub const BOOTRAM_SIZE: usize = 8192;

/// Number of 32-bit words in the bootram.
pub const BOOTRAM_WORDS: usize = 2048;

/// Key that locks the bootram.
pub const LOCK_KEY: u32 = 0xDEAD_BEEF;

/// Value written to LOCK that unlocks the bootram.
pub const UNLOCK_KEY: u32 = 0xCAFE_BABE;

/// Bootram peripheral.
#[derive(Debug)]
pub struct Bootram {
    /// RAM data.
    pub data: [u32; 2048],
    /// Control register.
    pub ctrl: u32,
    /// Status register.
    pub status: u32,
    /// Lock register.
    pub lock: u32,
    /// Write protection enabled.
    pub write_protected: bool,
}

/// Abstract state of the bootram.
#[verifier::ext_equal]
pub ghost struct BootramState {
    pub data: Seq<u32>,
    pub ctrl: u32,
    pub status: u32,
    pub lock: u32,
    pub write_protected: bool,
}

impl View for Bootram {
    type V = BootramState;

    open spec fn view(&self) -> BootramState {
        BootramState {
            data: self.data@,
            ctrl: self.ctrl,
            status: self.status,
            lock: self.lock,
            write_protected: self.write_protected,
        }
    }
}

/// All-zero memory contents.
pub open spec fn zero_words() -> Seq<u32> {
    Seq::new(BOOTRAM_WORDS as nat, |i: int| 0u32)
}

/// Byte `k` of `code`, or 0 past its end.
pub open spec fn byte_at(code: Seq<u8>, k: int) -> u32 {
    if 0 <= k < code.len() {
        code[k] as u32
    } else {
        0
    }
}

/// Little-endian word `i` of `code`, zero-padded.
pub open spec fn pack_word(code: Seq<u8>, i: int) -> u32 {
    byte_at(code, 4 * i) | (byte_at(code, 4 * i + 1) << 8u32) | (byte_at(code, 4 * i + 2) << 16u32)
        | (byte_at(code, 4 * i + 3) << 24u32)
}

/// Byte `j` (0..4, little-endian) of a word.
pub open spec fn word_byte(w: u32, j: int) -> u8 {
    if j == 0 {
        (w & 0xFF) as u8
    } else if j == 1 {
        ((w >> 8u32) & 0xFF) as u8
    } else if j == 2 {
        ((w >> 16u32) & 0xFF) as u8
    } else {
        ((w >> 24u32) & 0xFF) as u8
    }
}

/// Memory contents as little-endian bytes.
pub open spec fn data_bytes(data: Seq<u32>) -> Seq<u8> {
    Seq::new(4 * data.len(), |k: int| word_byte(data[k / 4], k % 4))
}

/// `s` without its trailing zero bytes.
pub open spec fn trim_zeros(s: Seq<u8>) -> Seq<u8>
    decreases s.len(),
{
    if s.len() > 0 && s.last() == 0 {
        trim_zeros(s.drop_last())
    } else {
        s
    }
}

impl BootramState {
    pub open spec fn initial() -> BootramState {
        BootramState {
            data: zero_words(),
            ctrl: ctrl::ENABLE,
            status: status::ENABLED,
            lock: 0,
            write_protected: false,
        }
    }

    pub open spec fn wf(self) -> bool {
        self.data.len() == BOOTRAM_WORDS
    }

    pub open spec fn enabled(self) -> bool {
        self.ctrl & ctrl::ENABLE != 0
    }

    pub open spec fn locked(self) -> bool {
        self.lock != 0
    }

    pub open spec fn protected(self) -> bool {
        self.write_protected || self.ctrl & ctrl::PROTECT != 0
    }

    /// Word index that a byte offset addresses.
    pub open spec fn index(offset: u32) -> int {
        (offset >> 2u32) as int
    }

    /// Word that `read_word(offset)` returns.
    pub open spec fn word(self, offset: u32) -> u32 {
        if !self.enabled() {
            0
        } else if Self::index(offset) < BOOTRAM_WORDS {
            self.data[Self::index(offset)]
        } else {
            0
        }
    }

    /// `write_word(offset, _)` stores.
    pub open spec fn writable(self, offset: u32) -> bool {
        self.enabled() && !self.protected() && !self.locked() && Self::index(offset) < BOOTRAM_WORDS
    }

    pub open spec fn after_write_word(self, offset: u32, value: u32) -> BootramState {
        if self.writable(offset) {
            BootramState { data: self.data.update(Self::index(offset), value), ..self }
        } else {
            self
        }
    }

    pub open spec fn after_clear(self) -> BootramState {
        if self.locked() {
            self
        } else {
            BootramState { data: zero_words(), ..self }
        }
    }

    pub open spec fn after_lock(self, key: u32) -> BootramState {
        if key == LOCK_KEY {
            BootramState { lock: 1, status: self.status | status::LOCKED, ..self }
        } else {
            self
        }
    }

    pub open spec fn after_unlock(self, key: u32) -> BootramState {
        if key == LOCK_KEY {
            BootramState { lock: 0, status: self.status & !status::LOCKED, ..self }
        } else {
            self
        }
    }

    /// CTRL write: ignored while locked; otherwise the control bits are stored,
    /// ENABLED and PROTECTED follow them, and CLEAR zeroes the memory and self-clears.
    pub open spec fn after_ctrl_write(self, value: u32) -> BootramState {
        if self.locked() {
            self
        } else {
            let c = value & (ctrl::ENABLE | ctrl::CLEAR | ctrl::PROTECT);
            let st1 = if c & ctrl::ENABLE != 0 {
                self.status | status::ENABLED
            } else {
                self.status & !status::ENABLED
            };
            let st2 = if c & ctrl::PROTECT != 0 {
                st1 | status::PROTECTED
            } else {
                st1 & !status::PROTECTED
            };
            if c & ctrl::CLEAR != 0 {
                BootramState { ctrl: c & !ctrl::CLEAR, status: st2, data: zero_words(), ..self }
            } else {
                BootramState { ctrl: c, status: st2, ..self }
            }
        }
    }

    pub open spec fn read_value(self, offset: u32) -> u32 {
        if offset == regs::CTRL {
            self.ctrl
        } else if offset == regs::STATUS {
            self.status
        } else if offset == regs::LOCK {
            self.lock
        } else if offset < BOOTRAM_SIZE {
            self.word(offset)
        } else {
            0
        }
    }

    pub open spec fn after_write(self, offset: u32, value: u32) -> BootramState {
        if offset == regs::CTRL {
            self.after_ctrl_write(value)
        } else if offset == regs::LOCK {
            if value == LOCK_KEY {
                self.after_lock(LOCK_KEY)
            } else if value == UNLOCK_KEY {
                self.after_unlock(LOCK_KEY)
            } else {
                self
            }
        } else if offset < BOOTRAM_SIZE {
            self.after_write_word(offset, value)
        } else {
            self
        }
    }

    /// Memory after loading `code`: the code as little-endian words, zero-padded
    /// (code past the memory's end is dropped).
    pub open spec fn after_load(self, code: Seq<u8>) -> BootramState {
        if self.locked() {
            self
        } else {
            BootramState {
                data: Seq::new(BOOTRAM_WORDS as nat, |i: int| pack_word(code, i)),
                ..self
            }
        }
    }
}

proof fn lemma_pack_unpack(b0: u32, b1: u32, b2: u32, b3: u32)
    requires
        b0 < 256,
        b1 < 256,
        b2 < 256,
        b3 < 256,
    ensures
        ({
            let w = b0 | (b1 << 8u32) | (b2 << 16u32) | (b3 << 24u32);
            &&& word_byte(w, 0) == b0
            &&& word_byte(w, 1) == b1
            &&& word_byte(w, 2) == b2
            &&& word_byte(w, 3) == b3
        }),
{
    let w = b0 | (b1 << 8u32) | (b2 << 16u32) | (b3 << 24u32);
    assert((w & 0xFF) == b0 && ((w >> 8u32) & 0xFF) == b1 && ((w >> 16u32) & 0xFF) == b2 && ((w
        >> 24u32) & 0xFF) == b3) by (bit_vector)
        requires
            w == b0 | (b1 << 8u32) | (b2 << 16u32) | (b3 << 24u32),
            b0 < 256,
            b1 < 256,
            b2 < 256,
            b3 < 256,
    ;
}

proof fn lemma_trim_padding(code: Seq<u8>, n: nat)
    ensures
        trim_zeros(code + Seq::new(n, |k: int| 0u8)) == trim_zeros(code),
    decreases n,
{
    let padded = code + Seq::new(n, |k: int| 0u8);
    if n > 0 {
        let shorter = code + Seq::new((n - 1) as nat, |k: int| 0u8);
        assert(padded.drop_last() =~= shorter);
        lemma_trim_padding(code, (n - 1) as nat);
    } else {
        assert(padded =~= code);
    }
}

/// Loading code of at most 8 KB and reading the boot code back gives the code
/// without its trailing zero bytes.
pub proof fn lemma_load_then_get(s: BootramState, code: Seq<u8>)
    requires
        !s.locked(),
        code.len() <= BOOTRAM_SIZE,
    ensures
        trim_zeros(data_bytes(s.after_load(code).data)) == trim_zeros(code),
{
    let data = s.after_load(code).data;
    let padded = code + Seq::new((BOOTRAM_SIZE - code.len()) as nat, |k: int| 0u8);
    assert forall|k: int| 0 <= k < BOOTRAM_SIZE implies #[trigger] data_bytes(data)[k] == padded[k] by {
        let i = k / 4;
        let j = k % 4;
        assert(4 * i + j == k);
        lemma_pack_unpack(
            byte_at(code, 4 * i),
            byte_at(code, 4 * i + 1),
            byte_at(code, 4 * i + 2),
            byte_at(code, 4 * i + 3),
        );
    }
    assert(data_bytes(data) =~= padded);
    lemma_trim_padding(code, (BOOTRAM_SIZE - code.len()) as nat);
}

/// A stored word reads back unchanged.
pub proof fn lemma_write_word_then_read(s: BootramState, offset: u32, value: u32)
    requires
        s.wf(),
        s.writable(offset),
    ensures
        s.after_write_word(offset, value).word(offset) == value,
{
}

impl Bootram {
    pub open spec fn wf(&self) -> bool {
        self@.wf()
    }

    /// Create a new Bootram instance.
    pub fn new() -> (r: Self)
        ensures
            r@ == BootramState::initial(),
    {
        Bootram {
            data: [0u32; 2048],
            ctrl: ctrl::ENABLE,
            status: status::ENABLED,
            lock: 0,
            write_protected: false,
        }
    }

    /// Device identifier.
    pub fn id(&self) -> (r: DeviceId)
        ensures
            r == DeviceId::BOOTRAM,
    {
        DeviceId::BOOTRAM
    }

    /// Base address.
    pub fn base(&self) -> (r: u32)
        ensures
            r == BOOTRAM_BASE,
    {
        BOOTRAM_BASE
    }

    /// Size in bytes.
    pub fn size(&self) -> (r: usize)
        ensures
            r == BOOTRAM_SIZE,
    {
        BOOTRAM_SIZE
    }

    /// CTRL.ENABLE is set.
    pub fn is_enabled(&self) -> (r: bool)
        ensures
            r == self@.enabled(),
    {
        (self.ctrl & ctrl::ENABLE) != 0
    }

    /// The lock register is non-zero.
    pub fn is_locked(&self) -> (r: bool)
        ensures
            r == self@.locked(),
    {
        self.lock != 0
    }

    /// Protection flag or CTRL.PROTECT is set.
    pub fn is_write_protected(&self) -> (r: bool)
        ensures
            r == self@.protected(),
    {
        self.write_protected || (self.ctrl & ctrl::PROTECT) != 0
    }

    /// Read the word at a byte offset; 0 when disabled or out of range.
    pub fn read_word(&self, offset: u32) -> (r: u32)
        ensures
            r == self@.word(offset),
    {
        if !self.is_enabled() {
            return 0;
        }
        let index = (offset >> 2u32) as usize;
        if index < BOOTRAM_WORDS {
            self.data[index]
        } else {
            0
        }
    }

    /// Store a word at a byte offset; false (and no change) when disabled,
    /// protected, locked or out of range.
    pub fn write_word(&mut self, offset: u32, value: u32) -> (r: bool)
        ensures
            r == old(self)@.writable(offset),
            final(self)@ == old(self)@.after_write_word(offset, value),
    {
        if !self.is_enabled() || self.is_write_protected() || self.is_locked() {
            return false;
        }
        let index = (offset >> 2u32) as usize;
        if index < BOOTRAM_WORDS {
            self.data[index] = value;
            true
        } else {
            false
        }
    }

    fn zero_data(&mut self)
        ensures
            final(self)@ == (BootramState { data: zero_words(), ..old(self)@ }),
    {
        let mut i: usize = 0;
        while i < BOOTRAM_WORDS
            invariant
                0 <= i <= BOOTRAM_WORDS,
                self.ctrl == old(self).ctrl,
                self.status == old(self).status,
                self.lock == old(self).lock,
                self.write_protected == old(self).write_protected,
                forall|k: int| 0 <= k < i ==> self.data@[k] == 0u32,
            decreases BOOTRAM_WORDS - i,
        {
            self.data[i] = 0;
            i = i + 1;
        }
        assert(self.data@ =~= zero_words());
    }

    /// Zero all data unless locked.
    pub fn clear(&mut self)
        ensures
            final(self)@ == old(self)@.after_clear(),
    {
        if !self.is_locked() {
            self.zero_data();
        }
    }

    /// Lock the bootram when given the key.
    pub fn lock(&mut self, key: u32)
        ensures
            final(self)@ == old(self)@.after_lock(key),
    {
        if key == LOCK_KEY {
            self.lock = 1;
            self.status = self.status | status::LOCKED;
        }
    }

    /// Unlock the bootram when given the key.
    pub fn unlock(&mut self, key: u32)
        ensures
            final(self)@ == old(self)@.after_unlock(key),
    {
        if key == LOCK_KEY {
            self.lock = 0;
            self.status = self.status & !status::LOCKED;
        }
    }

    /// Load code as little-endian words from the start of memory, zeroing the
    /// rest; refused (false, no change) while locked.
    pub fn load_boot_code(&mut self, code: &[u8]) -> (r: bool)
        ensures
            r == !old(self)@.locked(),
            final(self)@ == old(self)@.after_load(code@),
    {
        if self.is_locked() {
            return false;
        }
        let mut i: usize = 0;
        while i < BOOTRAM_WORDS
            invariant
                0 <= i <= BOOTRAM_WORDS,
                self.ctrl == old(self).ctrl,
                self.status == old(self).status,
                self.lock == old(self).lock,
                self.write_protected == old(self).write_protected,
                forall|k: int| 0 <= k < i ==> self.data@[k] == pack_word(code@, k),
            decreases BOOTRAM_WORDS - i,
        {
            let base = 4 * i;
            let b0: u32 = if base < code.len() { code[base] as u32 } else { 0 };
            let b1: u32 = if base + 1 < code.len() { code[base + 1] as u32 } else { 0 };
            let b2: u32 = if base + 2 < code.len() { code[base + 2] as u32 } else { 0 };
            let b3: u32 = if base + 3 < code.len() { code[base + 3] as u32 } else { 0 };
            self.data[i] = b0 | (b1 << 8u32) | (b2 << 16u32) | (b3 << 24u32);
            i = i + 1;
        }
        assert(self.data@ =~= Seq::new(BOOTRAM_WORDS as nat, |k: int| pack_word(code@, k)));
        true
    }

    /// Memory contents as little-endian bytes with trailing zero bytes removed.
    pub fn get_boot_code(&self) -> (r: Vec<u8>)
        ensures
            r@ == trim_zeros(data_bytes(self.data@)),
    {
        let ghost all = data_bytes(self.data@);
        let mut code: Vec<u8> = Vec::with_capacity(BOOTRAM_SIZE);
        let mut i: usize = 0;
        while i < BOOTRAM_WORDS
            invariant
                0 <= i <= BOOTRAM_WORDS,
                all == data_bytes(self.data@),
                all.len() == BOOTRAM_SIZE,
                code@ =~= all.take(4 * i as int),
            decreases BOOTRAM_WORDS - i,
        {
            let word = self.data[i];
            code.push((word & 0xFF) as u8);
            code.push(((word >> 8u32) & 0xFF) as u8);
            code.push(((word >> 16u32) & 0xFF) as u8);
            code.push(((word >> 24u32) & 0xFF) as u8);
            proof {
                assert forall|k: int| 0 <= k < 4 * (i + 1) implies #[trigger] code@[k] == all[k] by {
                    if k >= 4 * i {
                        assert(k / 4 == i);
                    }
                }
            }
            i = i + 1;
        }
        assert(code@ =~= all);
        while code.len() > 0 && code[code.len() - 1] == 0
            invariant
                trim_zeros(code@) == trim_zeros(all),
            decreases code.len(),
        {
            code.pop();
        }
        code
    }

    /// Register read.
    pub fn read(&mut self, addr: u32) -> (r: u32)
        requires
            addr >= BOOTRAM_BASE,
        ensures
            r == old(self)@.read_value((addr - BOOTRAM_BASE) as u32),
            final(self)@ == old(self)@,
    {
        let offset = addr - BOOTRAM_BASE;
        if offset == regs::CTRL {
            self.ctrl
        } else if offset == regs::STATUS {
            self.status
        } else if offset == regs::LOCK {
            self.lock
        } else if offset < BOOTRAM_SIZE as u32 {
            self.read_word(offset)
        } else {
            0
        }
    }

    /// Register write.
    pub fn write(&mut self, addr: u32, value: u32)
        requires
            addr >= BOOTRAM_BASE,
        ensures
            final(self)@ == old(self)@.after_write((addr - BOOTRAM_BASE) as u32, value),
    {
        let offset = addr - BOOTRAM_BASE;
        if offset == regs::CTRL {
            if !self.is_locked() {
                self.ctrl = value & (ctrl::ENABLE | ctrl::CLEAR | ctrl::PROTECT);
                if (self.ctrl & ctrl::ENABLE) != 0 {
                    self.status = self.status | status::ENABLED;
                } else {
                    self.status = self.status & !status::ENABLED;
                }
                if (self.ctrl & ctrl::PROTECT) != 0 {
                    self.status = self.status | status::PROTECTED;
                } else {
                    self.status = self.status & !status::PROTECTED;
                }
                if (self.ctrl & ctrl::CLEAR) != 0 {
                    self.clear();
                    self.ctrl = self.ctrl & !ctrl::CLEAR;
                }
            }
        } else if offset == regs::LOCK {
            if value == LOCK_KEY {
                self.lock(LOCK_KEY);
            } else if value == UNLOCK_KEY {
                self.unlock(LOCK_KEY);
            }
        } else if offset < BOOTRAM_SIZE as u32 {
            self.write_word(offset, value);
        }
    }

    /// Return to the power-on state.
    pub fn reset(&mut self)
        ensures
            final(self)@ == BootramState::initial(),
    {
        *self = Bootram::new();
    }
}

impl Default for Bootram {
    fn default() -> (r: Self)
        ensures
            r@ == BootramState::initial(),
    {
        Bootram::new()
    }
}

} // verus!
