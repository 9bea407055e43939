//! Memory Protection Unit: eight regions per core with base, limit and permissions.
use vstd::prelude::*;

use crate::device::DeviceId;

pub mod mpu_ctrl;
pub mod mpu_rbar;
pub mod mpu_rlar;
pub mod mpu_type;
pub mod regs;

verus! {

/// MPU base address of core 0.
pub const MPU_BASE_CORE0: u32 = 0xE000_ED90;

/// MPU base address of core 1.
pub const MPU_BASE_CORE1: u32 = 0xE002_ED90;

/// Number of regions per core.
pub const NUM_REGIONS: usize = 8;

/// Access permissions of a region.
#[derive(Debug, Clone, Copy, PartialEq, Eq, Structural)]
pub enum AccessPermission {
    /// No access.
    NoAccess,
    /// Privileged read/write.
    PrivRW,
    /// Privileged read/write, user read.
    PrivRWUserR,
    /// Full read/write.
    FullRW,
}

/// Encoding of a permission in the AP field.
pub open spec fn ap_code(ap: AccessPermission) -> u8 {
    match ap {
        AccessPermission::NoAccess => 0,
        AccessPermission::PrivRW => 1,
        AccessPermission::PrivRWUserR => 2,
        AccessPermission::FullRW => 3,
    }
}

impl AccessPermission {
    /// Numeric encoding of the permission.
    pub fn code(self) -> (r: u8)
        ensures
            r == ap_code(self),
    {
        match self {
            AccessPermission::NoAccess => 0,
            AccessPermission::PrivRW => 1,
            AccessPermission::PrivRWUserR => 2,
            AccessPermission::FullRW => 3,
        }
    }
}

/// Memory attributes (one MAIR byte).
#[derive(Debug, Clone, Copy)]
pub struct MemoryAttrs {
    /// Memory attribute byte.
    pub attrs: u8,
}

impl MemoryAttrs {
    /// Create new memory attributes.
    pub fn new(attrs: u8) -> (r: Self)
        ensures
            r.attrs == attrs,
    {
        MemoryAttrs { attrs }
    }

    /// Device memory: the upper nibble is zero.
    pub fn is_device(&self) -> (r: bool)
        ensures
            r == (self.attrs & 0xF0 == 0),
    {
        (self.attrs & 0xF0) == 0x00
    }

    /// Normal memory: one of the two top bits is set.
    pub fn is_normal(&self) -> (r: bool)
        ensures
            r == (self.attrs & 0xC0 != 0),
    {
        (self.attrs & 0xC0) != 0x00
    }

    /// Cacheable: normal memory with an inner cache policy.
    pub fn is_cacheable(&self) -> (r: bool)
        ensures
            r == (self.attrs & 0xC0 != 0 && self.attrs & 0x0C != 0),
    {
        self.is_normal() && (self.attrs & 0x0C) != 0x00
    }

    /// Shareable bit.
    pub fn is_shareable(&self) -> (r: bool)
        ensures
            r == (self.attrs & 0x10 != 0),
    {
        (self.attrs & 0x10) != 0
    }
}

impl Default for MemoryAttrs {
    fn default() -> (r: Self)
        ensures
            r.attrs == 0,
    {
        MemoryAttrs { attrs: 0 }
    }
}

/// One MPU region.
#[derive(Debug, Clone, Copy)]
pub struct MpuRegion {
    /// Base address register.
    pub rbar: u32,
    /// Limit address register.
    pub rlar: u32,
}

/// The region's enable bit.
pub open spec fn region_enabled(r: MpuRegion) -> bool {
    r.rlar & mpu_rlar::EN != 0
}

/// Lowest address of the region: the address field gives bits 16 and up.
pub open spec fn region_base(r: MpuRegion) -> u32 {
    ((r.rbar & mpu_rbar::ADDR_MASK) >> 5u32) << 16u32
}

/// Highest address of the region.
pub open spec fn region_limit(r: MpuRegion) -> u32 {
    (((r.rlar & mpu_rlar::ADDR_MASK) >> 5u32) << 16u32) | 0x1F
}

/// Permission named by the AP field.
pub open spec fn region_ap(r: MpuRegion) -> AccessPermission {
    let code = (r.rbar >> mpu_rbar::AP_SHIFT) & 0x3;
    if code == 0 {
        AccessPermission::NoAccess
    } else if code == 1 {
        AccessPermission::PrivRW
    } else if code == 2 {
        AccessPermission::PrivRWUserR
    } else {
        AccessPermission::FullRW
    }
}

/// An enabled region covers the address.
pub open spec fn region_contains(r: MpuRegion, addr: u32) -> bool {
    region_enabled(r) && region_base(r) <= addr && addr <= region_limit(r)
}

/// What the permission allows for one access.
pub open spec fn ap_permits(ap: AccessPermission, write: bool, privileged: bool) -> bool {
    match ap {
        AccessPermission::NoAccess => false,
        AccessPermission::PrivRW => privileged,
        AccessPermission::PrivRWUserR => privileged || !write,
        AccessPermission::FullRW => true,
    }
}

/// The region covers the address and its permission allows the access.
pub open spec fn region_permits(r: MpuRegion, addr: u32, write: bool, privileged: bool) -> bool {
    region_contains(r, addr) && ap_permits(region_ap(r), write, privileged)
}

/// Access rules of the permissions: a privileged access is allowed by every
/// permission but no-access; an unprivileged read only by the two
/// permissions that grant user reads; an unprivileged write only by full
/// access. Allowing a write implies allowing the read, and allowing an
/// unprivileged access implies allowing the privileged one.
pub proof fn lemma_permission_rules(ap: AccessPermission, write: bool, privileged: bool)
    ensures
        ap_permits(ap, write, true) == (ap != AccessPermission::NoAccess),
        ap_permits(ap, false, false) == (ap == AccessPermission::PrivRWUserR || ap
            == AccessPermission::FullRW),
        ap_permits(ap, true, false) == (ap == AccessPermission::FullRW),
        ap_permits(ap, true, privileged) ==> ap_permits(ap, false, privileged),
        ap_permits(ap, write, false) ==> ap_permits(ap, write, true),
{
}

/// For a region that covers an address, the two-bit AP field of RBAR (bits
/// 2:1) decides: a privileged access is allowed unless the field is 0, an
/// unprivileged read when it is 2 or 3, an unprivileged write only when it
/// is 3; a region that does not cover the address allows nothing.
pub proof fn lemma_region_access_by_field(r: MpuRegion, addr: u32, write: bool, privileged: bool)
    ensures
        !region_contains(r, addr) ==> !region_permits(r, addr, write, privileged),
        region_contains(r, addr) ==> {
            let code = (r.rbar / 2) % 4;
            &&& region_permits(r, addr, write, true) == (code != 0)
            &&& region_permits(r, addr, false, false) == (code >= 2)
            &&& region_permits(r, addr, true, false) == (code == 3)
        },
{
    let x = r.rbar;
    assert((x >> 1u32) & 3 == (x / 2) % 4) by (bit_vector);
}

impl MpuRegion {
    /// A disabled region with zero registers.
    pub fn new() -> (r: Self)
        ensures
            r.rbar == 0,
            r.rlar == 0,
    {
        MpuRegion { rbar: 0, rlar: 0 }
    }

    /// Check if enabled.
    pub fn is_enabled(&self) -> (r: bool)
        ensures
            r == region_enabled(*self),
    {
        (self.rlar & mpu_rlar::EN) != 0
    }

    /// Get base address.
    pub fn get_base(&self) -> (r: u32)
        ensures
            r == region_base(*self),
    {
        ((self.rbar & mpu_rbar::ADDR_MASK) >> 5) << 16
    }

    /// Get limit address.
    pub fn get_limit(&self) -> (r: u32)
        ensures
            r == region_limit(*self),
    {
        (((self.rlar & mpu_rlar::ADDR_MASK) >> 5) << 16) | 0x1F
    }

    /// Get attribute index.
    pub fn get_attr_index(&self) -> (r: u32)
        ensures
            r == (self.rlar >> mpu_rlar::ATTRINDX_SHIFT) & 0x7,
    {
        (self.rlar >> mpu_rlar::ATTRINDX_SHIFT) & 0x7
    }

    /// Get access permission.
    pub fn get_ap(&self) -> (r: AccessPermission)
        ensures
            r == region_ap(*self),
    {
        let code = (self.rbar >> mpu_rbar::AP_SHIFT) & 0x3;
        if code == 0 {
            AccessPermission::NoAccess
        } else if code == 1 {
            AccessPermission::PrivRW
        } else if code == 2 {
            AccessPermission::PrivRWUserR
        } else {
            AccessPermission::FullRW
        }
    }

    /// Executable: the XN bit is clear.
    pub fn is_executable(&self) -> (r: bool)
        ensures
            r == (self.rbar & mpu_rbar::XN == 0),
    {
        (self.rbar & mpu_rbar::XN) == 0
    }

    /// Get shareability.
    pub fn get_shareability(&self) -> (r: u32)
        ensures
            r == (self.rbar >> mpu_rbar::SH_SHIFT) & 0x3,
    {
        (self.rbar >> mpu_rbar::SH_SHIFT) & 0x3
    }

    /// Check if address is in an enabled region.
    pub fn contains(&self, addr: u32) -> (r: bool)
        ensures
            r == region_contains(*self, addr),
    {
        if !self.is_enabled() {
            return false;
        }
        let base = self.get_base();
        let limit = self.get_limit();
        addr >= base && addr <= limit
    }

    /// Check if access is permitted by this region.
    pub fn check_access(&self, addr: u32, write: bool, privileged: bool) -> (r: bool)
        ensures
            r == region_permits(*self, addr, write, privileged),
    {
        if !self.contains(addr) {
            return false;
        }
        match self.get_ap() {
            AccessPermission::NoAccess => false,
            AccessPermission::PrivRW => privileged,
            AccessPermission::PrivRWUserR => privileged || !write,
            AccessPermission::FullRW => true,
        }
    }
}

impl Default for MpuRegion {
    fn default() -> (r: Self)
        ensures
            r.rbar == 0,
            r.rlar == 0,
    {
        MpuRegion::new()
    }
}

/// MPU of a single core.
#[derive(Debug)]
pub struct MpuCore {
    /// Type register.
    pub mpu_type: u32,
    /// Control register.
    pub ctrl: u32,
    /// Region number register.
    pub rnr: u32,
    /// Regions.
    pub regions: [MpuRegion; 8],
    /// Memory attribute indirect registers.
    pub mair: [u32; 2],
}

/// Abstract state of one core's MPU.
#[verifier::ext_equal]
pub ghost struct MpuCoreState {
    pub mpu_type: u32,
    pub ctrl: u32,
    pub rnr: u32,
    pub regions: Seq<MpuRegion>,
    pub mair: Seq<u32>,
}

impl View for MpuCore {
    type V = MpuCoreState;

    open spec fn view(&self) -> MpuCoreState {
        MpuCoreState {
            mpu_type: self.mpu_type,
            ctrl: self.ctrl,
            rnr: self.rnr,
            regions: self.regions@,
            mair: self.mair@,
        }
    }
}

/// Region `i` is the first of `regions` that covers `addr`.
pub open spec fn is_first_match(regions: Seq<MpuRegion>, addr: u32, i: int) -> bool {
    &&& 0 <= i < regions.len()
    &&& region_contains(regions[i], addr)
    &&& forall|j: int| 0 <= j < i ==> !region_contains(#[trigger] regions[j], addr)
}

/// Some region of `regions` covers `addr`.
pub open spec fn has_match(regions: Seq<MpuRegion>, addr: u32) -> bool {
    exists|i: int| 0 <= i < regions.len() && region_contains(#[trigger] regions[i], addr)
}

/// Index of the first region covering `addr` (meaningful when one does).
pub open spec fn first_match(regions: Seq<MpuRegion>, addr: u32) -> int {
    choose|i: int| is_first_match(regions, addr, i)
}

/// Two first matches are the same region.
pub proof fn lemma_first_match_unique(regions: Seq<MpuRegion>, addr: u32, i: int, k: int)
    requires
        is_first_match(regions, addr, i),
        is_first_match(regions, addr, k),
    ensures
        i == k,
{
    if i < k {
        assert(!region_contains(regions[i], addr));
    } else if k < i {
        assert(!region_contains(regions[k], addr));
    }
}

/// When some region covers `addr`, the first one is well defined.
pub proof fn lemma_first_match_exists(regions: Seq<MpuRegion>, addr: u32)
    requires
        has_match(regions, addr),
    ensures
        is_first_match(regions, addr, first_match(regions, addr)),
{
    let w = choose|i: int| 0 <= i < regions.len() && region_contains(#[trigger] regions[i], addr);
    lemma_first_from(regions, addr, w);
}

proof fn lemma_first_from(regions: Seq<MpuRegion>, addr: u32, w: int)
    requires
        0 <= w < regions.len(),
        region_contains(regions[w], addr),
    ensures
        exists|i: int| is_first_match(regions, addr, i),
    decreases w,
{
    if forall|j: int| 0 <= j < w ==> !region_contains(#[trigger] regions[j], addr) {
        assert(is_first_match(regions, addr, w));
    } else {
        let v = choose|j: int| 0 <= j < w && region_contains(#[trigger] regions[j], addr);
        lemma_first_from(regions, addr, v);
    }
}

/// Memory attribute byte `index` of the MAIR pair; zero past the last byte.
pub open spec fn mair_byte(mair: Seq<u32>, index: u32) -> u8 {
    if index / 4 < 2 {
        ((mair[(index / 4) as int] >> ((index % 4) * 8) as u32) & 0xFF) as u8
    } else {
        0
    }
}

impl MpuCoreState {
    pub open spec fn initial() -> MpuCoreState {
        MpuCoreState {
            mpu_type: 8u32 << mpu_type::DREGION_SHIFT,
            ctrl: 0,
            rnr: 0,
            regions: Seq::new(8, |i: int| MpuRegion { rbar: 0, rlar: 0 }),
            mair: Seq::new(2, |i: int| 0u32),
        }
    }

    pub open spec fn wf(self) -> bool {
        self.regions.len() == NUM_REGIONS && self.mair.len() == 2
    }

    pub open spec fn enabled(self) -> bool {
        self.ctrl & mpu_ctrl::ENABLE != 0
    }

    pub open spec fn privdef_enabled(self) -> bool {
        self.ctrl & mpu_ctrl::PRIVDEFENA != 0
    }

    /// Selected region number.
    pub open spec fn region_num(self) -> int {
        (self.rnr & 0x7) as int
    }

    /// Whether the core's MPU lets the access through: all accesses when it is
    /// disabled; otherwise the first region covering the address decides, and
    /// without one only privileged accesses with the default map enabled pass.
    pub open spec fn permits(self, addr: u32, write: bool, privileged: bool) -> bool {
        if !self.enabled() {
            true
        } else if has_match(self.regions, addr) {
            ap_permits(region_ap(self.regions[first_match(self.regions, addr)]), write, privileged)
        } else {
            self.privdef_enabled() && privileged
        }
    }

    /// Alias offset: 0 for RBAR/RLAR, 1..3 for the A1..A3 aliases.
    pub open spec fn alias_of(offset: u32) -> int {
        if offset == regs::RBAR || offset == regs::RLAR {
            0
        } else if offset == regs::RBAR_A1 || offset == regs::RLAR_A1 {
            1
        } else if offset == regs::RBAR_A2 || offset == regs::RLAR_A2 {
            2
        } else {
            3
        }
    }

    pub open spec fn is_rbar(offset: u32) -> bool {
        offset == regs::RBAR || offset == regs::RBAR_A1 || offset == regs::RBAR_A2 || offset
            == regs::RBAR_A3
    }

    pub open spec fn is_rlar(offset: u32) -> bool {
        offset == regs::RLAR || offset == regs::RLAR_A1 || offset == regs::RLAR_A2 || offset
            == regs::RLAR_A3
    }

    pub open spec fn read_value(self, offset: u32) -> u32 {
        let idx = self.region_num() + Self::alias_of(offset);
        if offset == regs::TYPE {
            self.mpu_type
        } else if offset == regs::CTRL {
            self.ctrl
        } else if offset == regs::RNR {
            self.rnr
        } else if Self::is_rbar(offset) {
            if idx < 8 { self.regions[idx].rbar } else { 0 }
        } else if Self::is_rlar(offset) {
            if idx < 8 { self.regions[idx].rlar } else { 0 }
        } else if offset == regs::MAIR0 {
            self.mair[0]
        } else if offset == regs::MAIR1 {
            self.mair[1]
        } else {
            0
        }
    }

    pub open spec fn after_write(self, offset: u32, value: u32) -> MpuCoreState {
        let idx = self.region_num() + Self::alias_of(offset);
        if offset == regs::CTRL {
            MpuCoreState { ctrl: value & 0x7, ..self }
        } else if offset == regs::RNR {
            MpuCoreState { rnr: value & 0x7, ..self }
        } else if Self::is_rbar(offset) {
            if idx < 8 {
                MpuCoreState {
                    regions: self.regions.update(idx, MpuRegion { rbar: value, ..self.regions[idx] }),
                    ..self
                }
            } else {
                self
            }
        } else if Self::is_rlar(offset) {
            if idx < 8 {
                MpuCoreState {
                    regions: self.regions.update(idx, MpuRegion { rlar: value, ..self.regions[idx] }),
                    ..self
                }
            } else {
                self
            }
        } else if offset == regs::MAIR0 {
            MpuCoreState { mair: self.mair.update(0, value), ..self }
        } else if offset == regs::MAIR1 {
            MpuCoreState { mair: self.mair.update(1, value), ..self }
        } else {
            self
        }
    }

    /// After a reset: the power-on state with the TYPE register kept.
    pub open spec fn after_reset(self) -> MpuCoreState {
        MpuCoreState { mpu_type: self.mpu_type, ..MpuCoreState::initial() }
    }
}

/// A write to RBAR (or an alias) reads back through the same register while
/// RNR is unchanged, when the addressed region exists.
pub proof fn lemma_region_write_read(s: MpuCoreState, offset: u32, value: u32)
    requires
        s.wf(),
        MpuCoreState::is_rbar(offset) || MpuCoreState::is_rlar(offset),
        s.region_num() + MpuCoreState::alias_of(offset) < 8,
    ensures
        s.after_write(offset, value).read_value(offset) == value,
        s.after_write(offset, value).wf(),
{
}

impl MpuCore {
    pub open spec fn wf(&self) -> bool {
        self@.wf()
    }

    /// Create a new MPU core with eight data regions.
    pub fn new() -> (r: Self)
        ensures
            r@ == MpuCoreState::initial(),
    {
        MpuCore {
            mpu_type: 8 << mpu_type::DREGION_SHIFT,
            ctrl: 0,
            rnr: 0,
            regions: [MpuRegion { rbar: 0, rlar: 0 }; 8],
            mair: [0u32; 2],
        }
    }

    /// Check if enabled.
    pub fn is_enabled(&self) -> (r: bool)
        ensures
            r == self@.enabled(),
    {
        (self.ctrl & mpu_ctrl::ENABLE) != 0
    }

    /// Check if the privileged default map is enabled.
    pub fn is_privdef_enabled(&self) -> (r: bool)
        ensures
            r == self@.privdef_enabled(),
    {
        (self.ctrl & mpu_ctrl::PRIVDEFENA) != 0
    }

    /// Get current region number.
    pub fn get_region_num(&self) -> (r: usize)
        ensures
            r == self@.region_num(),
            r < 8,
    {
        proof {
            crate::bits::lemma_word_facts(self.rnr, 0);
        }
        (self.rnr & 0x7) as usize
    }

    /// Memory attributes of an attribute index (byte of MAIR0/MAIR1).
    pub fn get_memory_attrs(&self, index: u32) -> (r: MemoryAttrs)
        ensures
            r.attrs == mair_byte(self.mair@, index),
    {
        let mair_idx = (index / 4) as usize;
        let byte_idx = index % 4;
        if mair_idx < 2 {
            let attrs = ((self.mair[mair_idx] >> (byte_idx * 8)) & 0xFF) as u8;
            MemoryAttrs::new(attrs)
        } else {
            MemoryAttrs::default()
        }
    }

    /// Index of the first region covering the address.
    fn find_index(&self, addr: u32) -> (r: Option<usize>)
        ensures
            r matches Some(i) ==> is_first_match(self.regions@, addr, i as int),
            r is None ==> !has_match(self.regions@, addr),
    {
        let mut i: usize = 0;
        while i < 8
            invariant
                0 <= i <= 8,
                self.regions@.len() == 8,
                forall|j: int| 0 <= j < i ==> !region_contains(#[trigger] self.regions@[j], addr),
            decreases 8 - i,
        {
            let region = self.regions[i];
            if region.is_enabled() && region.contains(addr) {
                return Some(i);
            }
            i = i + 1;
        }
        None
    }

    /// Check memory access.
    pub fn check_access(&self, addr: u32, write: bool, privileged: bool) -> (r: bool)
        ensures
            r == self@.permits(addr, write, privileged),
    {
        if !self.is_enabled() {
            return true;
        }
        match self.find_index(addr) {
            Some(i) => {
                proof {
                    lemma_first_match_exists(self.regions@, addr);
                    lemma_first_match_unique(
                        self.regions@,
                        addr,
                        i as int,
                        first_match(self.regions@, addr),
                    );
                }
                self.regions[i].check_access(addr, write, privileged)
            },
            None => self.is_privdef_enabled() && privileged,
        }
    }

    /// Find the first region containing the address.
    pub fn find_region(&self, addr: u32) -> (r: Option<&MpuRegion>)
        ensures
            r is None <==> !has_match(self.regions@, addr),
            r matches Some(reg) ==> *reg == self.regions@[first_match(self.regions@, addr)],
    {
        match self.find_index(addr) {
            Some(i) => {
                proof {
                    lemma_first_match_exists(self.regions@, addr);
                    lemma_first_match_unique(
                        self.regions@,
                        addr,
                        i as int,
                        first_match(self.regions@, addr),
                    );
                }
                Some(&self.regions[i])
            },
            None => None,
        }
    }

    /// Number of the region an RBAR/RLAR alias addresses.
    fn alias_index(offset: u32) -> (r: usize)
        ensures
            r == MpuCoreState::alias_of(offset),
    {
        if offset == regs::RBAR || offset == regs::RLAR {
            0
        } else if offset == regs::RBAR_A1 || offset == regs::RLAR_A1 {
            1
        } else if offset == regs::RBAR_A2 || offset == regs::RLAR_A2 {
            2
        } else {
            3
        }
    }

    /// Register read at an offset from the core's MPU base.
    pub fn read(&self, offset: u32) -> (r: u32)
        ensures
            r == self@.read_value(offset),
    {
        if offset == regs::TYPE {
            self.mpu_type
        } else if offset == regs::CTRL {
            self.ctrl
        } else if offset == regs::RNR {
            self.rnr
        } else if offset == regs::RBAR || offset == regs::RBAR_A1 || offset == regs::RBAR_A2
            || offset == regs::RBAR_A3 {
            let idx = self.get_region_num() + Self::alias_index(offset);
            if idx < 8 {
                self.regions[idx].rbar
            } else {
                0
            }
        } else if offset == regs::RLAR || offset == regs::RLAR_A1 || offset == regs::RLAR_A2
            || offset == regs::RLAR_A3 {
            let idx = self.get_region_num() + Self::alias_index(offset);
            if idx < 8 {
                self.regions[idx].rlar
            } else {
                0
            }
        } else if offset == regs::MAIR0 {
            self.mair[0]
        } else if offset == regs::MAIR1 {
            self.mair[1]
        } else {
            0
        }
    }

    /// Register write at an offset from the core's MPU base.
    pub fn write(&mut self, offset: u32, value: u32)
        ensures
            final(self)@ == old(self)@.after_write(offset, value),
    {
        if offset == regs::CTRL {
            self.ctrl = value & 0x7;
        } else if offset == regs::RNR {
            self.rnr = value & 0x7;
        } else if offset == regs::RBAR || offset == regs::RBAR_A1 || offset == regs::RBAR_A2
            || offset == regs::RBAR_A3 {
            let idx = self.get_region_num() + Self::alias_index(offset);
            if idx < 8 {
                let old_region = self.regions[idx];
                self.regions[idx] = MpuRegion { rbar: value, rlar: old_region.rlar };
            }
        } else if offset == regs::RLAR || offset == regs::RLAR_A1 || offset == regs::RLAR_A2
            || offset == regs::RLAR_A3 {
            let idx = self.get_region_num() + Self::alias_index(offset);
            if idx < 8 {
                let old_region = self.regions[idx];
                self.regions[idx] = MpuRegion { rbar: old_region.rbar, rlar: value };
            }
        } else if offset == regs::MAIR0 {
            self.mair[0] = value;
        } else if offset == regs::MAIR1 {
            self.mair[1] = value;
        }
    }

    /// Return to the power-on state, keeping the TYPE register.
    pub fn reset(&mut self)
        ensures
            final(self)@ == old(self)@.after_reset(),
    {
        let t = self.mpu_type;
        *self = MpuCore::new();
        self.mpu_type = t;
    }
}

impl Default for MpuCore {
    fn default() -> (r: Self)
        ensures
            r@ == MpuCoreState::initial(),
    {
        MpuCore::new()
    }
}

/// MPU peripheral of both cores.
#[derive(Debug)]
pub struct Mpu {
    /// Core 0 MPU.
    pub core0: MpuCore,
    /// Core 1 MPU.
    pub core1: MpuCore,
}

/// Core whose MPU window holds the address.
pub open spec fn core_of(addr: u32) -> int {
    if addr >= MPU_BASE_CORE1 { 1 } else { 0 }
}

/// Base address of a core's MPU window.
pub open spec fn base_of(core: int) -> u32 {
    if core == 0 { MPU_BASE_CORE0 } else { MPU_BASE_CORE1 }
}

impl Mpu {
    /// MPU of the selected core (core 1 for any index but 0).
    pub open spec fn core_at(&self, core: int) -> MpuCore {
        if core == 0 { self.core0 } else { self.core1 }
    }

    /// Create a new MPU instance.
    pub fn new() -> (r: Self)
        ensures
            r.core0@ == MpuCoreState::initial(),
            r.core1@ == MpuCoreState::initial(),
    {
        Mpu { core0: MpuCore::new(), core1: MpuCore::new() }
    }

    /// Device identifier.
    pub fn id(&self) -> (r: DeviceId)
        ensures
            r == DeviceId::MPU,
    {
        DeviceId::MPU
    }

    /// MPU of a core: core 0 for index 0, core 1 otherwise.
    pub fn get_core(&self, core: usize) -> (r: &MpuCore)
        ensures
            *r == self.core_at(core as int),
    {
        match core {
            0 => &self.core0,
            _ => &self.core1,
        }
    }

    /// Mutable MPU of a core: core 0 for index 0, core 1 otherwise.
    pub fn get_core_mut(&mut self, core: usize) -> (r: &mut MpuCore)
        ensures
            *r == old(self).core_at(core as int),
            core == 0 ==> *final(self) == (Mpu { core0: *final(r), core1: old(self).core1 }),
            core != 0 ==> *final(self) == (Mpu { core0: old(self).core0, core1: *final(r) }),
    {
        match core {
            0 => &mut self.core0,
            _ => &mut self.core1,
        }
    }

    /// Check memory access for a core.
    pub fn check_access(&self, core: usize, addr: u32, write: bool, privileged: bool) -> (r: bool)
        ensures
            r == self.core_at(core as int)@.permits(addr, write, privileged),
    {
        self.get_core(core).check_access(addr, write, privileged)
    }

    /// Core whose window holds the address.
    pub fn get_core_index(&self, addr: u32) -> (r: usize)
        ensures
            r == core_of(addr),
    {
        if addr >= MPU_BASE_CORE1 {
            1
        } else {
            0
        }
    }

    /// Base address of a core's window (core 1's for any index but 0).
    pub fn get_base(&self, core: usize) -> (r: u32)
        ensures
            r == base_of(core as int),
    {
        if core == 0 {
            MPU_BASE_CORE0
        } else {
            MPU_BASE_CORE1
        }
    }

    /// Register read; the address selects the core's window.
    pub fn read(&mut self, addr: u32) -> (r: u32)
        requires
            addr >= MPU_BASE_CORE0,
        ensures
            r == old(self).core_at(core_of(addr))@.read_value(
                (addr - base_of(core_of(addr))) as u32,
            ),
            *final(self) == *old(self),
    {
        let core_idx = self.get_core_index(addr);
        let base = self.get_base(core_idx);
        let offset = addr - base;
        if core_idx == 0 {
            self.core0.read(offset)
        } else {
            self.core1.read(offset)
        }
    }

    /// Register write; the address selects the core's window.
    pub fn write(&mut self, addr: u32, value: u32)
        requires
            addr >= MPU_BASE_CORE0,
        ensures
            core_of(addr) == 0 ==> final(self).core0@ == old(self).core0@.after_write(
                (addr - MPU_BASE_CORE0) as u32,
                value,
            ) && final(self).core1 == old(self).core1,
            core_of(addr) == 1 ==> final(self).core1@ == old(self).core1@.after_write(
                (addr - MPU_BASE_CORE1) as u32,
                value,
            ) && final(self).core0 == old(self).core0,
    {
        let core_idx = self.get_core_index(addr);
        let base = self.get_base(core_idx);
        let offset = addr - base;
        if core_idx == 0 {
            self.core0.write(offset, value);
        } else {
            self.core1.write(offset, value);
        }
    }

    /// Reset both cores' MPUs, keeping their TYPE registers.
    pub fn reset(&mut self)
        ensures
            final(self).core0@ == old(self).core0@.after_reset(),
            final(self).core1@ == old(self).core1@.after_reset(),
    {
        self.core0.reset();
        self.core1.reset();
    }
}

impl Default for Mpu {
    fn default() -> (r: Self)
        ensures
            r.core0@ == MpuCoreState::initial(),
            r.core1@ == MpuCoreState::initial(),
    {
        Mpu::new()
    }
}

} // verus!
