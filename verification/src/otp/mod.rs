//! One-time programmable memory: rows that can be programmed once and then
//! only have bits cleared, guarded by a key, page locks and a debug lock.
use vstd::prelude::*;

use crate::device::DeviceId;

pub mod ctrl;
pub mod regs;
pub mod status;

verus! {

/// OTP controller base address.
pub const OTP_BASE: u32 = 0x5003_0000;

/// OTP data base address (for reading).
pub const OTP_DATA_BASE: u32 = 0x4003_0000;

/// OTP size in rows (32-bit words).
pub const OTP_ROWS: usize = 4096;

/// OTP page size in rows.
pub const PAGE_SIZE: usize = 64;

/// Number of pages.
pub const NUM_PAGES: usize = 64;

/// Key that unlocks programming.
pub const WRITE_KEY: u32 = 0xDEAD_BEEF;

/// OTP memory controller.
#[derive(Debug)]
pub struct Otp {
    /// Control register.
    pub ctrl: u32,
    /// Status register.
    pub status: u32,
    /// Chip enable.
    pub ce: u32,
    /// Key register.
    pub key: u32,
    /// Data register.
    pub data: u32,
    /// Address register.
    pub addr: u32,
    /// Debug lock.
    pub dbg_lock: u32,
    /// Software locks (one per page).
    pub sw_lock: [u32; 64],
    /// OTP data storage.
    pub data_storage: [u32; 4096],
    /// Rows that have been programmed.
    pub written: [bool; 4096],
}

/// Abstract state of the OTP controller.
#[verifier::ext_equal]
pub ghost struct OtpState {
    pub ctrl: u32,
    pub status: u32,
    pub ce: u32,
    pub key: u32,
    pub data: u32,
    pub addr: u32,
    pub dbg_lock: u32,
    pub sw_lock: Seq<u32>,
    pub storage: Seq<u32>,
    pub written: Seq<bool>,
}

impl View for Otp {
    type V = OtpState;

    open spec fn view(&self) -> OtpState {
        OtpState {
            ctrl: self.ctrl,
            status: self.status,
            ce: self.ce,
            key: self.key,
            data: self.data,
            addr: self.addr,
            dbg_lock: self.dbg_lock,
            sw_lock: self.sw_lock@,
            storage: self.data_storage@,
            written: self.written@,
        }
    }
}

/// Value of a row after programming `value` into it: the first programming
/// stores it, later ones can only clear bits.
pub open spec fn programmed(old_value: u32, was_written: bool, value: u32) -> u32 {
    if was_written { old_value & value } else { value }
}

impl OtpState {
    /// Power-on state: readable, factory rows 0..4 programmed with the boot
    /// configuration and the unique ID.
    pub open spec fn initial() -> OtpState {
        OtpState {
            ctrl: ctrl::READABLE,
            status: 0,
            ce: 0,
            key: 0,
            data: 0,
            addr: 0,
            dbg_lock: 0,
            sw_lock: Seq::new(64, |i: int| 0u32),
            storage: Seq::new(
                4096,
                |i: int|
                    if i == 1 {
                        0xDEAD_BEEFu32
                    } else if i == 2 {
                        0xCAFE_BABEu32
                    } else if i == 3 {
                        0x1234_5678u32
                    } else {
                        0u32
                    },
            ),
            written: Seq::new(4096, |i: int| i < 4),
        }
    }

    pub open spec fn wf(self) -> bool {
        &&& self.sw_lock.len() == NUM_PAGES
        &&& self.storage.len() == OTP_ROWS
        &&& self.written.len() == OTP_ROWS
    }

    /// A row may not be programmed: its page is locked, the debug lock is set,
    /// or the row lies past the last page.
    pub open spec fn page_locked(self, row: int) -> bool {
        let page = row / PAGE_SIZE as int;
        if 0 <= page < NUM_PAGES {
            self.sw_lock[page] != 0 || self.dbg_lock != 0
        } else {
            true
        }
    }

    pub open spec fn row_value(self, row: u32) -> u32 {
        if row < OTP_ROWS { self.storage[row as int] } else { 0 }
    }

    /// Programming a row, when it exists.
    pub open spec fn after_program(self, row: u32, value: u32) -> OtpState {
        if row < OTP_ROWS {
            OtpState {
                storage: self.storage.update(
                    row as int,
                    programmed(self.storage[row as int], self.written[row as int], value),
                ),
                written: self.written.update(row as int, true),
                ..self
            }
        } else {
            self
        }
    }

    /// A write through DATA programs the addressed row: only with the
    /// WRITABLE control bit, an unlocked page and the programming key.
    pub open spec fn may_program(self) -> bool {
        &&& self.ctrl & ctrl::WRITABLE != 0
        &&& !self.page_locked(self.addr as int)
        &&& self.key == WRITE_KEY
    }

    pub open spec fn data_value(self) -> u32 {
        if self.ctrl & ctrl::READABLE != 0 { self.row_value(self.addr) } else { 0 }
    }

    pub open spec fn after_write_data(self, value: u32) -> OtpState {
        if self.may_program() { self.after_program(self.addr, value) } else { self }
    }

    pub open spec fn is_sw_lock(offset: u32) -> bool {
        0x044 <= offset <= 0x070
    }

    pub open spec fn read_value(self, offset: u32) -> u32 {
        if offset == regs::CTRL {
            self.ctrl
        } else if offset == regs::STATUS {
            self.status
        } else if offset == regs::CE {
            self.ce
        } else if offset == regs::KEY {
            0
        } else if offset == regs::DATA {
            self.data_value()
        } else if offset == regs::ADDR {
            self.addr
        } else if offset == regs::DBG_LOCK {
            self.dbg_lock
        } else if Self::is_sw_lock(offset) {
            self.sw_lock[(offset - 0x044) / 4]
        } else {
            0
        }
    }

    pub open spec fn after_write(self, offset: u32, value: u32) -> OtpState {
        if offset == regs::CTRL || offset == regs::CTRL_SET {
            OtpState { ctrl: self.ctrl | value, ..self }
        } else if offset == regs::CTRL_CLR {
            OtpState { ctrl: self.ctrl & !value, ..self }
        } else if offset == regs::CE || offset == regs::CE_SET {
            OtpState { ce: self.ce | value, ..self }
        } else if offset == regs::CE_CLR {
            OtpState { ce: self.ce & !value, ..self }
        } else if offset == regs::KEY || offset == regs::KEY_SET {
            OtpState {
                key: value,
                status: if value != 0 { self.status | status::KEY_VALID } else { self.status },
                ..self
            }
        } else if offset == regs::KEY_CLR {
            OtpState { key: 0, status: self.status & !status::KEY_VALID, ..self }
        } else if offset == regs::DATA {
            self.after_write_data(value)
        } else if offset == regs::ADDR {
            OtpState { addr: value & 0xFFF, ..self }
        } else if offset == regs::DBG_LOCK || offset == regs::DBG_LOCK_SET {
            OtpState {
                dbg_lock: self.dbg_lock | value,
                status: if value != 0 { self.status | status::LOCKED } else { self.status },
                ..self
            }
        } else if offset == regs::DBG_LOCK_CLR {
            let d = self.dbg_lock & !value;
            OtpState {
                dbg_lock: d,
                status: if d == 0 { self.status & !status::LOCKED } else { self.status },
                ..self
            }
        } else if Self::is_sw_lock(offset) {
            OtpState { sw_lock: self.sw_lock.update((offset - 0x044) / 4, value), ..self }
        } else {
            self
        }
    }
}

/// Programming never sets a bit that a programmed row had clear, and never
/// un-programs a row.
pub proof fn lemma_program_only_clears(s: OtpState, row: u32, value: u32, r: int)
    requires
        s.wf(),
        0 <= r < OTP_ROWS,
    ensures
        s.written[r] ==> s.after_program(row, value).written[r],
        s.written[r] ==> s.after_program(row, value).storage[r] & !s.storage[r] == 0,
        s.after_program(row, value).wf(),
{
    crate::bits::lemma_word_facts(s.storage[r], value);
}

/// A register write never sets a bit of a programmed row and never
/// un-programs a row.
pub proof fn lemma_write_only_clears(s: OtpState, offset: u32, value: u32, r: int)
    requires
        s.wf(),
        0 <= r < OTP_ROWS,
    ensures
        s.written[r] ==> s.after_write(offset, value).written[r],
        s.written[r] ==> s.after_write(offset, value).storage[r] & !s.storage[r] == 0,
        s.after_write(offset, value).wf(),
{
    crate::bits::lemma_word_facts(s.storage[r], value);
    lemma_program_only_clears(s, s.addr, value, r);
}

/// The first programming of a row reads back as the value programmed.
pub proof fn lemma_first_program_reads_back(s: OtpState, row: u32, value: u32)
    requires
        s.wf(),
        row < OTP_ROWS,
        !s.written[row as int],
    ensures
        s.after_program(row, value).row_value(row) == value,
{
}

impl Otp {
    pub open spec fn wf(&self) -> bool {
        self@.wf()
    }

    /// Create a new OTP controller with its factory rows.
    pub fn new() -> (r: Self)
        ensures
            r@ == OtpState::initial(),
    {
        let mut otp = Otp {
            ctrl: ctrl::READABLE,
            status: 0,
            ce: 0,
            key: 0,
            data: 0,
            addr: 0,
            dbg_lock: 0,
            sw_lock: [0u32; 64],
            data_storage: [0u32; 4096],
            written: [false; 4096],
        };
        otp.init_defaults();
        assert(otp@.storage =~= OtpState::initial().storage);
        assert(otp@.written =~= OtpState::initial().written);
        assert(otp@.sw_lock =~= OtpState::initial().sw_lock);
        otp
    }

    /// Program the factory rows: boot configuration and unique ID.
    fn init_defaults(&mut self)
        ensures
            final(self)@ == (OtpState {
                storage: old(self)@.storage.update(0, 0).update(1, 0xDEAD_BEEF).update(
                    2,
                    0xCAFE_BABE,
                ).update(3, 0x1234_5678),
                written: old(self)@.written.update(0, true).update(1, true).update(2, true).update(
                    3,
                    true,
                ),
                ..old(self)@
            }),
    {
        self.data_storage[0] = 0x0000_0000;
        self.data_storage[1] = 0xDEAD_BEEF;
        self.data_storage[2] = 0xCAFE_BABE;
        self.data_storage[3] = 0x1234_5678;
        self.written[0] = true;
        self.written[1] = true;
        self.written[2] = true;
        self.written[3] = true;
    }

    /// Device identifier.
    pub fn id(&self) -> (r: DeviceId)
        ensures
            r == DeviceId::OTP,
    {
        DeviceId::OTP
    }

    /// Whether a row address exists.
    pub fn is_valid_addr(&self, addr: u32) -> (r: bool)
        ensures
            r == (addr < OTP_ROWS),
    {
        (addr as usize) < OTP_ROWS
    }

    /// Whether a row's page is locked (software or debug lock).
    pub fn is_page_locked(&self, row: usize) -> (r: bool)
        ensures
            r == self@.page_locked(row as int),
    {
        let page = row / PAGE_SIZE;
        if page < NUM_PAGES {
            self.sw_lock[page] != 0 || self.dbg_lock != 0
        } else {
            true
        }
    }

    /// Read a row; 0 past the last row.
    pub fn read_otp(&self, addr: u32) -> (r: u32)
        ensures
            r == self@.row_value(addr),
    {
        if (addr as usize) < OTP_ROWS {
            self.data_storage[addr as usize]
        } else {
            0
        }
    }

    /// Program a row; false past the last row.
    pub fn write_otp(&mut self, addr: u32, value: u32) -> (r: bool)
        ensures
            r == (addr < OTP_ROWS),
            final(self)@ == old(self)@.after_program(addr, value),
    {
        if (addr as usize) >= OTP_ROWS {
            return false;
        }
        let row = addr as usize;
        if self.written[row] {
            let new_value = self.data_storage[row] & value;
            self.data_storage[row] = new_value;
        } else {
            self.data_storage[row] = value;
            self.written[row] = true;
        }
        assert(self@.written =~= old(self)@.after_program(addr, value).written);
        true
    }

    /// The programming key is present.
    pub fn is_key_valid(&self) -> (r: bool)
        ensures
            r == (self.key == WRITE_KEY),
    {
        self.key == WRITE_KEY
    }

    /// Get current address.
    pub fn get_addr(&self) -> (r: u32)
        ensures
            r == self.addr,
    {
        self.addr
    }

    /// Set the row address (12 bits).
    pub fn set_addr(&mut self, addr: u32)
        ensures
            final(self)@ == (OtpState { addr: addr & 0xFFF, ..old(self)@ }),
    {
        self.addr = addr & 0xFFF;
    }

    /// Read the addressed row; 0 unless the READABLE control bit is set.
    pub fn read_data(&mut self) -> (r: u32)
        ensures
            r == old(self)@.data_value(),
            final(self)@ == old(self)@,
    {
        if (self.ctrl & ctrl::READABLE) != 0 {
            self.read_otp(self.addr)
        } else {
            0
        }
    }

    /// Program the addressed row, when writable, unlocked and keyed.
    pub fn write_data(&mut self, value: u32) -> (r: bool)
        ensures
            r == (old(self)@.may_program() && old(self).addr < OTP_ROWS),
            final(self)@ == old(self)@.after_write_data(value),
    {
        if (self.ctrl & ctrl::WRITABLE) == 0 {
            return false;
        }
        if self.is_page_locked(self.addr as usize) {
            return false;
        }
        if !self.is_key_valid() {
            return false;
        }
        let a = self.addr;
        self.write_otp(a, value)
    }

    /// Lock a page.
    pub fn lock_page(&mut self, page: usize)
        ensures
            page < NUM_PAGES ==> final(self)@ == (OtpState {
                sw_lock: old(self)@.sw_lock.update(page as int, 1),
                ..old(self)@
            }),
            page >= NUM_PAGES ==> final(self)@ == old(self)@,
    {
        if page < NUM_PAGES {
            self.sw_lock[page] = 1;
        }
    }

    /// Unlock a page.
    pub fn unlock_page(&mut self, page: usize)
        ensures
            page < NUM_PAGES ==> final(self)@ == (OtpState {
                sw_lock: old(self)@.sw_lock.update(page as int, 0),
                ..old(self)@
            }),
            page >= NUM_PAGES ==> final(self)@ == old(self)@,
    {
        if page < NUM_PAGES {
            self.sw_lock[page] = 0;
        }
    }

    /// Check if busy.
    pub fn is_busy(&self) -> (r: bool)
        ensures
            r == (self.status & status::BUSY != 0),
    {
        (self.status & status::BUSY) != 0
    }

    /// Register read.
    pub fn read(&mut self, addr: u32) -> (r: u32)
        requires
            addr >= OTP_BASE,
        ensures
            r == old(self)@.read_value((addr - OTP_BASE) as u32),
            final(self)@ == old(self)@,
    {
        let offset = addr - OTP_BASE;
        if offset == regs::CTRL {
            self.ctrl
        } else if offset == regs::STATUS {
            self.status
        } else if offset == regs::CE {
            self.ce
        } else if offset == regs::KEY {
            0
        } else if offset == regs::DATA {
            self.read_data()
        } else if offset == regs::ADDR {
            self.addr
        } else if offset == regs::DBG_LOCK {
            self.dbg_lock
        } else if 0x044 <= offset && offset <= 0x070 {
            self.sw_lock[((offset - 0x044) / 4) as usize]
        } else {
            0
        }
    }

    /// Register write.
    pub fn write(&mut self, addr: u32, value: u32)
        requires
            addr >= OTP_BASE,
        ensures
            final(self)@ == old(self)@.after_write((addr - OTP_BASE) as u32, value),
    {
        let offset = addr - OTP_BASE;
        if offset == regs::CTRL || offset == regs::CTRL_SET {
            self.ctrl = self.ctrl | value;
        } else if offset == regs::CTRL_CLR {
            self.ctrl = self.ctrl & !value;
        } else if offset == regs::CE || offset == regs::CE_SET {
            self.ce = self.ce | value;
        } else if offset == regs::CE_CLR {
            self.ce = self.ce & !value;
        } else if offset == regs::KEY || offset == regs::KEY_SET {
            self.key = value;
            if value != 0 {
                self.status = self.status | status::KEY_VALID;
            }
        } else if offset == regs::KEY_CLR {
            self.key = 0;
            self.status = self.status & !status::KEY_VALID;
        } else if offset == regs::DATA {
            self.write_data(value);
        } else if offset == regs::ADDR {
            self.set_addr(value);
        } else if offset == regs::DBG_LOCK || offset == regs::DBG_LOCK_SET {
            self.dbg_lock = self.dbg_lock | value;
            if value != 0 {
                self.status = self.status | status::LOCKED;
            }
        } else if offset == regs::DBG_LOCK_CLR {
            self.dbg_lock = self.dbg_lock & !value;
            if self.dbg_lock == 0 {
                self.status = self.status & !status::LOCKED;
            }
        } else if 0x044 <= offset && offset <= 0x070 {
            self.sw_lock[((offset - 0x044) / 4) as usize] = value;
        }
    }

    /// Return to the power-on state (user rows are erased in the model).
    pub fn reset(&mut self)
        ensures
            final(self)@ == OtpState::initial(),
    {
        *self = Otp::new();
    }
}

impl Default for Otp {
    fn default() -> (r: Self)
        ensures
            r@ == OtpState::initial(),
    {
        Otp::new()
    }
}

} // verus!
