//! CoreSight debug components: DWT cycle counting, FPB breakpoints and ITM stimulus ports.
use vstd::prelude::*;

use crate::device::DeviceId;

pub mod base;
pub mod dwt;
pub mod dwt_ctrl;
pub mod fpb;
pub mod fpb_ctrl;
pub mod itm;
pub mod itm_tcr;

verus! {

/// Key that unlocks the FPB and ITM through their LAR registers.
pub const UNLOCK_KEY: u32 = 0xC5AC_CE55;

/// End of the FPB address window.
pub const FPB_END: u32 = 0xE000_3000;

/// Read-only FPB CTRL fields (revision and comparator counts).
pub const FPB_CTRL_RO: u32 = 0xF000_07F0;

/// DWT comparator.
#[derive(Debug, Clone, Copy)]
pub struct DwtComparator {
    pub comp: u32,
    pub mask: u32,
    pub function: u32,
}

impl Default for DwtComparator {
    fn default() -> (r: Self)
        ensures
            r == (DwtComparator { comp: 0, mask: 0, function: 0 }),
    {
        DwtComparator { comp: 0, mask: 0, function: 0 }
    }
}

/// DWT (Data Watchpoint and Trace) unit.
#[derive(Debug)]
pub struct Dwt {
    pub ctrl: u32,
    pub cyccnt: u32,
    pub cpicnt: u32,
    pub exccnt: u32,
    pub sleepcnt: u32,
    pub lsucnt: u32,
    pub foldcnt: u32,
    pub pcsr: u32,
    pub comparators: [DwtComparator; 4],
}

/// Abstract state of the DWT.
#[verifier::ext_equal]
pub ghost struct DwtState {
    pub ctrl: u32,
    pub cyccnt: u32,
    pub cpicnt: u32,
    pub exccnt: u32,
    pub sleepcnt: u32,
    pub lsucnt: u32,
    pub foldcnt: u32,
    pub pcsr: u32,
    pub comparators: Seq<DwtComparator>,
}

impl View for Dwt {
    type V = DwtState;

    open spec fn view(&self) -> DwtState {
        DwtState {
            ctrl: self.ctrl,
            cyccnt: self.cyccnt,
            cpicnt: self.cpicnt,
            exccnt: self.exccnt,
            sleepcnt: self.sleepcnt,
            lsucnt: self.lsucnt,
            foldcnt: self.foldcnt,
            pcsr: self.pcsr,
            comparators: self.comparators@,
        }
    }
}

/// Offset is one of the 12 comparator registers (COMPn, MASKn, FUNCTIONn).
pub open spec fn dwt_is_comp_reg(offset: u32) -> bool {
    dwt::COMP0 <= offset < 0x60 && (offset - dwt::COMP0) % 16 < 12 && offset % 4 == 0
}

/// Comparator that a comparator register offset addresses.
pub open spec fn dwt_comp_index(offset: u32) -> int {
    (offset - dwt::COMP0) / 16
}

/// Field (0 = COMP, 1 = MASK, 2 = FUNCTION) that a comparator register offset addresses.
pub open spec fn dwt_comp_field(offset: u32) -> int {
    ((offset - dwt::COMP0) % 16) / 4
}

impl DwtState {
    pub open spec fn initial() -> DwtState {
        DwtState {
            ctrl: 0x4000_0000,
            cyccnt: 0,
            cpicnt: 0,
            exccnt: 0,
            sleepcnt: 0,
            lsucnt: 0,
            foldcnt: 0,
            pcsr: 0,
            comparators: Seq::new(4, |i: int| DwtComparator { comp: 0, mask: 0, function: 0 }),
        }
    }

    pub open spec fn wf(self) -> bool {
        self.comparators.len() == 4
    }

    pub open spec fn cyccnt_enabled(self) -> bool {
        self.ctrl & dwt_ctrl::CYCCNTENA != 0
    }

    pub open spec fn after_tick(self) -> DwtState {
        if self.cyccnt_enabled() {
            DwtState { cyccnt: vstd::wrapping::u32_specs::wrapping_add(self.cyccnt, 1), ..self }
        } else {
            self
        }
    }

    pub open spec fn read_value(self, offset: u32) -> u32 {
        if offset == dwt::CTRL {
            self.ctrl
        } else if offset == dwt::CYCCNT {
            self.cyccnt
        } else if offset == dwt::CPICNT {
            self.cpicnt
        } else if offset == dwt::EXCCNT {
            self.exccnt
        } else if offset == dwt::SLEEPCNT {
            self.sleepcnt
        } else if offset == dwt::LSUCNT {
            self.lsucnt
        } else if offset == dwt::FOLDCNT {
            self.foldcnt
        } else if offset == dwt::PCSR {
            self.pcsr
        } else if dwt_is_comp_reg(offset) {
            let c = self.comparators[dwt_comp_index(offset)];
            if dwt_comp_field(offset) == 0 {
                c.comp
            } else if dwt_comp_field(offset) == 1 {
                c.mask
            } else {
                c.function
            }
        } else {
            0
        }
    }

    pub open spec fn after_write(self, offset: u32, value: u32) -> DwtState {
        if offset == dwt::CTRL {
            DwtState {
                ctrl: (self.ctrl & dwt_ctrl::NUMCOMP_MASK) | (value & !dwt_ctrl::NUMCOMP_MASK),
                ..self
            }
        } else if offset == dwt::CYCCNT {
            DwtState { cyccnt: value, ..self }
        } else if offset == dwt::CPICNT {
            DwtState { cpicnt: value & 0xFF, ..self }
        } else if offset == dwt::EXCCNT {
            DwtState { exccnt: value & 0xFF, ..self }
        } else if offset == dwt::SLEEPCNT {
            DwtState { sleepcnt: value & 0xFF, ..self }
        } else if offset == dwt::LSUCNT {
            DwtState { lsucnt: value & 0xFF, ..self }
        } else if offset == dwt::FOLDCNT {
            DwtState { foldcnt: value & 0xFF, ..self }
        } else if dwt_is_comp_reg(offset) {
            let i = dwt_comp_index(offset);
            let c = self.comparators[i];
            let n = if dwt_comp_field(offset) == 0 {
                DwtComparator { comp: value, ..c }
            } else if dwt_comp_field(offset) == 1 {
                DwtComparator { mask: value & 0xF, ..c }
            } else {
                DwtComparator { function: value & 0xF, ..c }
            };
            DwtState { comparators: self.comparators.update(i, n), ..self }
        } else {
            self
        }
    }

    /// Reset keeps the comparator count and returns everything else to power-on values.
    pub open spec fn after_reset(self) -> DwtState {
        DwtState { ctrl: self.ctrl & dwt_ctrl::NUMCOMP_MASK, ..DwtState::initial() }
    }
}

impl Dwt {
    pub open spec fn wf(&self) -> bool {
        self@.wf()
    }

    /// Create a new DWT with four comparators.
    pub fn new() -> (r: Self)
        ensures
            r@ == DwtState::initial(),
    {
        Dwt {
            ctrl: 0x4000_0000,
            cyccnt: 0,
            cpicnt: 0,
            exccnt: 0,
            sleepcnt: 0,
            lsucnt: 0,
            foldcnt: 0,
            pcsr: 0,
            comparators: [DwtComparator { comp: 0, mask: 0, function: 0 }; 4],
        }
    }

    /// CTRL.CYCCNTENA is set.
    pub fn is_cyccnt_enabled(&self) -> (r: bool)
        ensures
            r == self@.cyccnt_enabled(),
    {
        (self.ctrl & dwt_ctrl::CYCCNTENA) != 0
    }

    /// Count one cycle when the cycle counter is enabled (wrapping).
    pub fn tick(&mut self)
        ensures
            final(self)@ == old(self)@.after_tick(),
    {
        if self.is_cyccnt_enabled() {
            self.cyccnt = self.cyccnt.wrapping_add(1);
        }
    }

    /// Cycle count.
    pub fn get_cyccnt(&self) -> (r: u32)
        ensures
            r == self.cyccnt,
    {
        self.cyccnt
    }

    /// Record a PC sample.
    pub fn set_pcsr(&mut self, pc: u32)
        ensures
            final(self)@ == (DwtState { pcsr: pc, ..old(self)@ }),
    {
        self.pcsr = pc;
    }

    /// Register read at an offset within the DWT.
    pub fn read(&mut self, offset: u32) -> (r: u32)
        requires
            old(self).wf(),
        ensures
            r == old(self)@.read_value(offset),
            final(self)@ == old(self)@,
    {
        if offset == dwt::CTRL {
            self.ctrl
        } else if offset == dwt::CYCCNT {
            self.cyccnt
        } else if offset == dwt::CPICNT {
            self.cpicnt
        } else if offset == dwt::EXCCNT {
            self.exccnt
        } else if offset == dwt::SLEEPCNT {
            self.sleepcnt
        } else if offset == dwt::LSUCNT {
            self.lsucnt
        } else if offset == dwt::FOLDCNT {
            self.foldcnt
        } else if offset == dwt::PCSR {
            self.pcsr
        } else if dwt::COMP0 <= offset && offset < 0x60 && (offset - dwt::COMP0) % 16 < 12 && offset
            % 4 == 0 {
            let c = self.comparators[((offset - dwt::COMP0) / 16) as usize];
            let field = ((offset - dwt::COMP0) % 16) / 4;
            if field == 0 {
                c.comp
            } else if field == 1 {
                c.mask
            } else {
                c.function
            }
        } else {
            0
        }
    }

    /// Register write at an offset within the DWT.
    pub fn write(&mut self, offset: u32, value: u32)
        requires
            old(self).wf(),
        ensures
            final(self)@ == old(self)@.after_write(offset, value),
    {
        if offset == dwt::CTRL {
            self.ctrl = (self.ctrl & dwt_ctrl::NUMCOMP_MASK) | (value & !dwt_ctrl::NUMCOMP_MASK);
        } else if offset == dwt::CYCCNT {
            self.cyccnt = value;
        } else if offset == dwt::CPICNT {
            self.cpicnt = value & 0xFF;
        } else if offset == dwt::EXCCNT {
            self.exccnt = value & 0xFF;
        } else if offset == dwt::SLEEPCNT {
            self.sleepcnt = value & 0xFF;
        } else if offset == dwt::LSUCNT {
            self.lsucnt = value & 0xFF;
        } else if offset == dwt::FOLDCNT {
            self.foldcnt = value & 0xFF;
        } else if dwt::COMP0 <= offset && offset < 0x60 && (offset - dwt::COMP0) % 16 < 12 && offset
            % 4 == 0 {
            let i = ((offset - dwt::COMP0) / 16) as usize;
            let c = self.comparators[i];
            let field = ((offset - dwt::COMP0) % 16) / 4;
            let n = if field == 0 {
                DwtComparator { comp: value, mask: c.mask, function: c.function }
            } else if field == 1 {
                DwtComparator { comp: c.comp, mask: value & 0xF, function: c.function }
            } else {
                DwtComparator { comp: c.comp, mask: c.mask, function: value & 0xF }
            };
            self.comparators[i] = n;
        }
    }

    /// Return to power-on values, keeping the comparator count.
    pub fn reset(&mut self)
        ensures
            final(self)@ == old(self)@.after_reset(),
    {
        let ctrl = self.ctrl & dwt_ctrl::NUMCOMP_MASK;
        *self = Dwt::new();
        self.ctrl = ctrl;
    }
}

impl Default for Dwt {
    fn default() -> (r: Self)
        ensures
            r@ == DwtState::initial(),
    {
        Dwt::new()
    }
}

/// FPB (Flash Patch and Breakpoint) unit.
#[derive(Debug)]
pub struct Fpb {
    pub ctrl: u32,
    pub remap: u32,
    pub comparators: [u32; 8],
    pub locked: bool,
}

/// Abstract state of the FPB.
#[verifier::ext_equal]
pub ghost struct FpbState {
    pub ctrl: u32,
    pub remap: u32,
    pub comparators: Seq<u32>,
    pub locked: bool,
}

impl View for Fpb {
    type V = FpbState;

    open spec fn view(&self) -> FpbState {
        FpbState {
            ctrl: self.ctrl,
            remap: self.remap,
            comparators: self.comparators@,
            locked: self.locked,
        }
    }
}

/// A comparator value is enabled and matches `addr`.
pub open spec fn fpb_comp_matches(comp: u32, addr: u32) -> bool {
    comp & 1 != 0 && addr == comp & 0x1FFF_FFFC
}

impl FpbState {
    pub open spec fn initial() -> FpbState {
        FpbState {
            ctrl: 0x1000_0620,
            remap: 0,
            comparators: Seq::new(8, |i: int| 0u32),
            locked: false,
        }
    }

    pub open spec fn wf(self) -> bool {
        self.comparators.len() == 8
    }

    pub open spec fn enabled(self) -> bool {
        self.ctrl & fpb_ctrl::ENABLE != 0
    }

    /// The FPB is enabled and some enabled comparator holds `addr`.
    pub open spec fn breakpoint_at(self, addr: u32) -> bool {
        self.enabled() && exists|i: int| 0 <= i < 8 && fpb_comp_matches(#[trigger] self.comparators[i], addr)
    }

    pub open spec fn is_comp_reg(offset: u32) -> bool {
        fpb::COMP0 <= offset <= fpb::COMP7 && offset % 4 == 0
    }

    pub open spec fn read_value(self, offset: u32) -> u32 {
        if offset == fpb::CTRL {
            self.ctrl
        } else if offset == fpb::REMAP {
            self.remap
        } else if Self::is_comp_reg(offset) {
            self.comparators[(offset - fpb::COMP0) / 4]
        } else if offset == fpb::LSR {
            if self.locked { 1 } else { 0 }
        } else {
            0
        }
    }

    /// Writes other than the unlock key are ignored while locked.
    pub open spec fn after_write(self, offset: u32, value: u32) -> FpbState {
        if self.locked && offset != fpb::LAR {
            self
        } else if offset == fpb::CTRL {
            FpbState { ctrl: (self.ctrl & FPB_CTRL_RO) | (value & !FPB_CTRL_RO), ..self }
        } else if offset == fpb::REMAP {
            FpbState { remap: value & 0x1FFF_FFFF, ..self }
        } else if Self::is_comp_reg(offset) {
            FpbState {
                comparators: self.comparators.update((offset - fpb::COMP0) / 4, value),
                ..self
            }
        } else if offset == fpb::LAR {
            if value == UNLOCK_KEY {
                FpbState { locked: false, ..self }
            } else {
                self
            }
        } else {
            self
        }
    }

    pub open spec fn after_reset(self) -> FpbState {
        FpbState { ctrl: self.ctrl & FPB_CTRL_RO, ..FpbState::initial() }
    }
}

/// On an enabled, unlocked FPB, writing an enabled comparator with a
/// word-aligned code address sets a breakpoint at that address.
pub proof fn lemma_comparator_sets_breakpoint(s: FpbState, k: int, addr: u32)
    requires
        s.wf(),
        !s.locked,
        s.enabled(),
        0 <= k < 8,
        addr & 3 == 0,
        addr < 0x2000_0000,
    ensures
        s.after_write((fpb::COMP0 + 4 * k) as u32, addr | 1).breakpoint_at(addr),
{
    assert((addr | 1u32) & 1u32 != 0 && (addr | 1u32) & 0x1FFF_FFFCu32 == addr) by (bit_vector)
        requires
            addr & 3u32 == 0,
            addr < 0x2000_0000u32,
    ;
    let t = s.after_write((fpb::COMP0 + 4 * k) as u32, addr | 1);
    assert(fpb_comp_matches(t.comparators[k], addr));
}

impl Fpb {
    pub open spec fn wf(&self) -> bool {
        self@.wf()
    }

    /// Create a new FPB (revision 1, six code and two literal comparators).
    pub fn new() -> (r: Self)
        ensures
            r@ == FpbState::initial(),
    {
        Fpb { ctrl: 0x1000_0620, remap: 0, comparators: [0u32; 8], locked: false }
    }

    /// CTRL.ENABLE is set.
    pub fn is_enabled(&self) -> (r: bool)
        ensures
            r == self@.enabled(),
    {
        (self.ctrl & fpb_ctrl::ENABLE) != 0
    }

    /// An enabled comparator matches `addr` while the FPB is enabled.
    pub fn check_breakpoint(&self, addr: u32) -> (r: bool)
        ensures
            r == self@.breakpoint_at(addr),
    {
        if !self.is_enabled() {
            return false;
        }
        let mut i: usize = 0;
        while i < 8
            invariant
                0 <= i <= 8,
                self@.enabled(),
                forall|k: int| 0 <= k < i ==> !fpb_comp_matches(#[trigger] self.comparators@[k], addr),
            decreases 8 - i,
        {
            let comp = self.comparators[i];
            let comp_addr = comp & 0x1FFF_FFFC;
            let enabled = (comp & 1) != 0;
            if enabled && addr == comp_addr {
                assert(fpb_comp_matches(self@.comparators[i as int], addr));
                return true;
            }
            i = i + 1;
        }
        false
    }

    /// Register read at an offset within the FPB.
    pub fn read(&self, offset: u32) -> (r: u32)
        requires
            self.wf(),
        ensures
            r == self@.read_value(offset),
    {
        if offset == fpb::CTRL {
            self.ctrl
        } else if offset == fpb::REMAP {
            self.remap
        } else if fpb::COMP0 <= offset && offset <= fpb::COMP7 && offset % 4 == 0 {
            self.comparators[((offset - fpb::COMP0) / 4) as usize]
        } else if offset == fpb::LSR {
            if self.locked { 1 } else { 0 }
        } else {
            0
        }
    }

    /// Register write at an offset within the FPB.
    pub fn write(&mut self, offset: u32, value: u32)
        requires
            old(self).wf(),
        ensures
            final(self)@ == old(self)@.after_write(offset, value),
    {
        if self.locked && offset != fpb::LAR {
            return;
        }
        if offset == fpb::CTRL {
            self.ctrl = (self.ctrl & FPB_CTRL_RO) | (value & !FPB_CTRL_RO);
        } else if offset == fpb::REMAP {
            self.remap = value & 0x1FFF_FFFF;
        } else if fpb::COMP0 <= offset && offset <= fpb::COMP7 && offset % 4 == 0 {
            self.comparators[((offset - fpb::COMP0) / 4) as usize] = value;
        } else if offset == fpb::LAR {
            if value == UNLOCK_KEY {
                self.locked = false;
            }
        }
    }

    /// Return to power-on values, keeping the read-only CTRL fields.
    pub fn reset(&mut self)
        ensures
            final(self)@ == old(self)@.after_reset(),
    {
        let ctrl = self.ctrl & FPB_CTRL_RO;
        *self = Fpb::new();
        self.ctrl = ctrl;
    }
}

impl Default for Fpb {
    fn default() -> (r: Self)
        ensures
            r@ == FpbState::initial(),
    {
        Fpb::new()
    }
}

/// ITM (Instrumentation Trace Macrocell) unit.
#[derive(Debug)]
pub struct Itm {
    pub ter: u32,
    pub tpr: u32,
    pub tcr: u32,
    pub stim: [u32; 256],
    pub locked: bool,
}

/// Abstract state of the ITM.
#[verifier::ext_equal]
pub ghost struct ItmState {
    pub ter: u32,
    pub tpr: u32,
    pub tcr: u32,
    pub stim: Seq<u32>,
    pub locked: bool,
}

impl View for Itm {
    type V = ItmState;

    open spec fn view(&self) -> ItmState {
        ItmState {
            ter: self.ter,
            tpr: self.tpr,
            tcr: self.tcr,
            stim: self.stim@,
            locked: self.locked,
        }
    }
}

/// TER bit that enables a stimulus port: the shift amount wraps at 32, so
/// port `p` uses bit `p % 32`.
pub open spec fn port_bit(port: usize) -> u32 {
    vstd::wrapping::u32_specs::wrapping_shl(1u32, port as u32)
}

impl ItmState {
    pub open spec fn initial() -> ItmState {
        ItmState { ter: 0, tpr: 0, tcr: 0, stim: Seq::new(256, |i: int| 0u32), locked: false }
    }

    pub open spec fn wf(self) -> bool {
        self.stim.len() == 256
    }

    pub open spec fn enabled(self) -> bool {
        self.tcr & itm_tcr::TXENA != 0
    }

    pub open spec fn port_enabled(self, port: usize) -> bool {
        port < 256 && self.ter & port_bit(port) != 0
    }

    pub open spec fn after_stim(self, port: usize, value: u32) -> ItmState {
        if self.port_enabled(port) {
            ItmState { stim: self.stim.update(port as int, value), ..self }
        } else {
            self
        }
    }

    pub open spec fn read_value(self, offset: u32) -> u32 {
        if offset == itm::TER {
            self.ter
        } else if offset == itm::TPR {
            self.tpr
        } else if offset == itm::TCR {
            self.tcr | itm_tcr::BUSY
        } else if offset == itm::LSR {
            if self.locked { 1 } else { 0 }
        } else if offset < 0x400 {
            self.stim[(offset >> 2u32) as int]
        } else {
            0
        }
    }

    pub open spec fn after_write(self, offset: u32, value: u32) -> ItmState {
        if self.locked && offset != itm::LAR {
            self
        } else if offset == itm::TER {
            ItmState { ter: value, ..self }
        } else if offset == itm::TPR {
            ItmState { tpr: value & 0xF, ..self }
        } else if offset == itm::TCR {
            ItmState { tcr: value & 0x007F_0001, ..self }
        } else if offset == itm::LAR {
            if value == UNLOCK_KEY {
                ItmState { locked: false, ..self }
            } else {
                self
            }
        } else if offset < 0x400 {
            self.after_stim((offset >> 2u32) as usize, value)
        } else {
            self
        }
    }

    /// Reset clears the registers and ports; the lock state is kept.
    pub open spec fn after_reset(self) -> ItmState {
        ItmState { locked: self.locked, ..ItmState::initial() }
    }
}

proof fn lemma_port_index(offset: u32)
    requires
        offset < 0x400,
    ensures
        (offset >> 2u32) < 256,
{
    assert(offset < 0x400 ==> (offset >> 2u32) < 256) by (bit_vector);
}

impl Itm {
    pub open spec fn wf(&self) -> bool {
        self@.wf()
    }

    /// Create a new ITM.
    pub fn new() -> (r: Self)
        ensures
            r@ == ItmState::initial(),
    {
        Itm { ter: 0, tpr: 0, tcr: 0, stim: [0u32; 256], locked: false }
    }

    /// TCR.TXENA is set.
    pub fn is_enabled(&self) -> (r: bool)
        ensures
            r == self@.enabled(),
    {
        (self.tcr & itm_tcr::TXENA) != 0
    }

    /// Write a stimulus port when it exists and TER enables it.
    pub fn write_stim(&mut self, port: usize, value: u32)
        ensures
            final(self)@ == old(self)@.after_stim(port, value),
    {
        if port < 256 && (self.ter & 1u32.wrapping_shl(port as u32)) != 0 {
            self.stim[port] = value;
        }
    }

    /// Register read at an offset within the ITM.
    pub fn read(&self, offset: u32) -> (r: u32)
        requires
            self.wf(),
        ensures
            r == self@.read_value(offset),
    {
        if offset == itm::TER {
            self.ter
        } else if offset == itm::TPR {
            self.tpr
        } else if offset == itm::TCR {
            self.tcr | itm_tcr::BUSY
        } else if offset == itm::LSR {
            if self.locked { 1 } else { 0 }
        } else if offset < 0x400 {
            proof {
                lemma_port_index(offset);
            }
            self.stim[(offset >> 2u32) as usize]
        } else {
            0
        }
    }

    /// Register write at an offset within the ITM.
    pub fn write(&mut self, offset: u32, value: u32)
        requires
            old(self).wf(),
        ensures
            final(self)@ == old(self)@.after_write(offset, value),
    {
        if self.locked && offset != itm::LAR {
            return;
        }
        if offset == itm::TER {
            self.ter = value;
        } else if offset == itm::TPR {
            self.tpr = value & 0xF;
        } else if offset == itm::TCR {
            self.tcr = value & 0x007F_0001;
        } else if offset == itm::LAR {
            if value == UNLOCK_KEY {
                self.locked = false;
            }
        } else if offset < 0x400 {
            self.write_stim((offset >> 2u32) as usize, value);
        }
    }

    /// Clear the registers and ports.
    pub fn reset(&mut self)
        ensures
            final(self)@ == old(self)@.after_reset(),
    {
        self.ter = 0;
        self.tpr = 0;
        self.tcr = 0;
        let mut i: usize = 0;
        while i < 256
            invariant
                0 <= i <= 256,
                self.ter == 0,
                self.tpr == 0,
                self.tcr == 0,
                self.locked == old(self).locked,
                forall|k: int| 0 <= k < i ==> self.stim@[k] == 0u32,
            decreases 256 - i,
        {
            self.stim[i] = 0;
            i = i + 1;
        }
        assert(self.stim@ =~= Seq::new(256, |k: int| 0u32));
    }
}

impl Default for Itm {
    fn default() -> (r: Self)
        ensures
            r@ == ItmState::initial(),
    {
        Itm::new()
    }
}

/// CoreSight debug components.
#[derive(Debug)]
pub struct Coresight {
    pub dwt: Dwt,
    pub fpb: Fpb,
    pub itm: Itm,
}

/// Component a CoreSight address selects: the DWT and FPB windows take
/// precedence over the ITM window that encloses them.
pub open spec fn in_dwt(addr: u32) -> bool {
    base::DWT <= addr < base::FPB
}

pub open spec fn in_fpb(addr: u32) -> bool {
    base::FPB <= addr < FPB_END
}

pub open spec fn in_itm(addr: u32) -> bool {
    base::ITM <= addr < base::TPIU && !in_dwt(addr) && !in_fpb(addr)
}

impl Coresight {
    pub open spec fn wf(&self) -> bool {
        self.dwt.wf() && self.fpb.wf() && self.itm.wf()
    }

    /// Create the three components.
    pub fn new() -> (r: Self)
        ensures
            r.dwt@ == DwtState::initial(),
            r.fpb@ == FpbState::initial(),
            r.itm@ == ItmState::initial(),
    {
        Coresight { dwt: Dwt::new(), fpb: Fpb::new(), itm: Itm::new() }
    }

    /// Device identifier.
    pub fn id(&self) -> (r: DeviceId)
        ensures
            r == DeviceId::CORESIGHT,
    {
        DeviceId::CORESIGHT
    }

    /// Count one DWT cycle.
    pub fn tick(&mut self)
        ensures
            final(self).dwt@ == old(self).dwt@.after_tick(),
            final(self).fpb@ == old(self).fpb@,
            final(self).itm@ == old(self).itm@,
    {
        self.dwt.tick();
    }

    /// FPB breakpoint check.
    pub fn check_breakpoint(&self, addr: u32) -> (r: bool)
        ensures
            r == self.fpb@.breakpoint_at(addr),
    {
        self.fpb.check_breakpoint(addr)
    }

    /// Record a DWT PC sample.
    pub fn set_pcsr(&mut self, pc: u32)
        ensures
            final(self).dwt@ == (DwtState { pcsr: pc, ..old(self).dwt@ }),
            final(self).fpb@ == old(self).fpb@,
            final(self).itm@ == old(self).itm@,
    {
        self.dwt.set_pcsr(pc);
    }

    /// Register read, routed to the component whose window holds `addr`.
    pub fn read(&mut self, addr: u32) -> (r: u32)
        requires
            old(self).wf(),
        ensures
            r == if in_dwt(addr) {
                old(self).dwt@.read_value((addr - base::DWT) as u32)
            } else if in_fpb(addr) {
                old(self).fpb@.read_value((addr - base::FPB) as u32)
            } else if in_itm(addr) {
                old(self).itm@.read_value((addr - base::ITM) as u32)
            } else {
                0
            },
            final(self).dwt@ == old(self).dwt@,
            final(self).fpb@ == old(self).fpb@,
            final(self).itm@ == old(self).itm@,
    {
        if addr >= base::DWT && addr < base::FPB {
            self.dwt.read(addr - base::DWT)
        } else if addr >= base::FPB && addr < FPB_END {
            self.fpb.read(addr - base::FPB)
        } else if addr >= base::ITM && addr < base::TPIU {
            self.itm.read(addr - base::ITM)
        } else {
            0
        }
    }

    /// Register write, routed to the component whose window holds `addr`.
    pub fn write(&mut self, addr: u32, value: u32)
        requires
            old(self).wf(),
        ensures
            final(self).wf(),
            final(self).dwt@ == if in_dwt(addr) {
                old(self).dwt@.after_write((addr - base::DWT) as u32, value)
            } else {
                old(self).dwt@
            },
            final(self).fpb@ == if in_fpb(addr) {
                old(self).fpb@.after_write((addr - base::FPB) as u32, value)
            } else {
                old(self).fpb@
            },
            final(self).itm@ == if in_itm(addr) {
                old(self).itm@.after_write((addr - base::ITM) as u32, value)
            } else {
                old(self).itm@
            },
    {
        if addr >= base::DWT && addr < base::FPB {
            self.dwt.write(addr - base::DWT, value);
        } else if addr >= base::FPB && addr < FPB_END {
            self.fpb.write(addr - base::FPB, value);
        } else if addr >= base::ITM && addr < base::TPIU {
            self.itm.write(addr - base::ITM, value);
        }
    }

    /// Reset all three components.
    pub fn reset(&mut self)
        ensures
            final(self).dwt@ == old(self).dwt@.after_reset(),
            final(self).fpb@ == old(self).fpb@.after_reset(),
            final(self).itm@ == old(self).itm@.after_reset(),
    {
        self.dwt.reset();
        self.fpb.reset();
        self.itm.reset();
    }
}

impl Default for Coresight {
    fn default() -> (r: Self)
        ensures
            r.dwt@ == DwtState::initial(),
            r.fpb@ == FpbState::initial(),
            r.itm@ == ItmState::initial(),
    {
        Coresight::new()
    }
}

} // verus!
