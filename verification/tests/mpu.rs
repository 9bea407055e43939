//! Tests of the Mpu model.

use rp2350sim_devices::mpu::{mpu_ctrl, mpu_rbar, mpu_rlar, mpu_type, regs, AccessPermission, MemoryAttrs, Mpu, MpuCore, MpuRegion, MPU_BASE_CORE0, MPU_BASE_CORE1};
use rp2350sim_devices::device::DeviceId;
const BASE0: u32 = MPU_BASE_CORE0;
const BASE1: u32 = MPU_BASE_CORE1;

// ==================== MpuRegion Tests ====================

#[test]
fn test_mpu_region_creation() {
    let region = MpuRegion::new();
    assert!(!region.is_enabled());
    assert_eq!(region.rbar, 0);
    assert_eq!(region.rlar, 0);
}

#[test]
fn test_mpu_region_default() {
    let region = MpuRegion::default();
    assert!(!region.is_enabled());
}

#[test]
fn test_mpu_region_enable() {
    let mut region = MpuRegion::new();
    region.rlar = mpu_rlar::EN;
    assert!(region.is_enabled());
}

#[test]
fn test_mpu_region_base_address() {
    let mut region = MpuRegion::new();
    region.rbar = 0x1000 << mpu_rbar::ADDR_SHIFT;
    let base = region.get_base();
    assert_eq!(base, 0x1000_0000);
}

#[test]
fn test_mpu_region_limit_address() {
    let mut region = MpuRegion::new();
    region.rlar = 0x1100 << mpu_rlar::ADDR_SHIFT | mpu_rlar::EN;
    let limit = region.get_limit();
    assert!(limit > region.get_base());
}

#[test]
fn test_mpu_region_contains() {
    let mut region = MpuRegion::new();
    region.rbar = 0x1000 << mpu_rbar::ADDR_SHIFT;
    region.rlar = 0x1100 << mpu_rlar::ADDR_SHIFT | mpu_rlar::EN;

    assert!(region.contains(0x1000_0000));
    assert!(region.contains(0x1050_0000));
    assert!(!region.contains(0x0000_0000));
}

#[test]
fn test_mpu_region_contains_disabled() {
    let mut region = MpuRegion::new();
    region.rbar = 0x1000 << mpu_rbar::ADDR_SHIFT;
    region.rlar = 0x1100 << mpu_rlar::ADDR_SHIFT; // No EN bit

    assert!(!region.contains(0x1000_0000));
}

#[test]
fn test_mpu_region_attr_index() {
    let mut region = MpuRegion::new();
    region.rlar = 3 << mpu_rlar::ATTRINDX_SHIFT;
    assert_eq!(region.get_attr_index(), 3);
}

#[test]
fn test_mpu_region_access_permissions() {
    let mut region = MpuRegion::new();

    region.rbar = 0 << mpu_rbar::AP_SHIFT;
    assert_eq!(region.get_ap(), AccessPermission::NoAccess);

    region.rbar = 1 << mpu_rbar::AP_SHIFT;
    assert_eq!(region.get_ap(), AccessPermission::PrivRW);

    region.rbar = 2 << mpu_rbar::AP_SHIFT;
    assert_eq!(region.get_ap(), AccessPermission::PrivRWUserR);

    region.rbar = 3 << mpu_rbar::AP_SHIFT;
    assert_eq!(region.get_ap(), AccessPermission::FullRW);
}

#[test]
fn test_mpu_region_executable() {
    let mut region = MpuRegion::new();

    assert!(region.is_executable()); // XN=0

    region.rbar = mpu_rbar::XN;
    assert!(!region.is_executable()); // XN=1
}

#[test]
fn test_mpu_region_shareability() {
    let mut region = MpuRegion::new();

    region.rbar = 2 << mpu_rbar::SH_SHIFT;
    assert_eq!(region.get_shareability(), 2);
}

#[test]
fn test_mpu_region_check_access_none() {
    let mut region = MpuRegion::new();
    region.rbar = 0x1000 << mpu_rbar::ADDR_SHIFT | (0 << mpu_rbar::AP_SHIFT);
    region.rlar = 0x1100 << mpu_rlar::ADDR_SHIFT | mpu_rlar::EN;

    assert!(!region.check_access(0x1000_0000, false, true));
    assert!(!region.check_access(0x1000_0000, true, true));
    assert!(!region.check_access(0x1000_0000, false, false));
}

#[test]
fn test_mpu_region_check_access_priv_rw() {
    let mut region = MpuRegion::new();
    region.rbar = 0x1000 << mpu_rbar::ADDR_SHIFT | (1 << mpu_rbar::AP_SHIFT);
    region.rlar = 0x1100 << mpu_rlar::ADDR_SHIFT | mpu_rlar::EN;

    assert!(region.check_access(0x1000_0000, false, true));
    assert!(region.check_access(0x1000_0000, true, true));
    assert!(!region.check_access(0x1000_0000, false, false));
}

#[test]
fn test_mpu_region_check_access_full_rw() {
    let mut region = MpuRegion::new();
    region.rbar = 0x1000 << mpu_rbar::ADDR_SHIFT | (3 << mpu_rbar::AP_SHIFT);
    region.rlar = 0x1100 << mpu_rlar::ADDR_SHIFT | mpu_rlar::EN;

    assert!(region.check_access(0x1000_0000, false, true));
    assert!(region.check_access(0x1000_0000, true, true));
    assert!(region.check_access(0x1000_0000, false, false));
    assert!(region.check_access(0x1000_0000, true, false));
}

// ==================== MemoryAttrs Tests ====================

#[test]
fn test_memory_attrs_creation() {
    let attrs = MemoryAttrs::new(0xFF);
    assert_eq!(attrs.attrs, 0xFF);
}

#[test]
fn test_memory_attrs_default() {
    let attrs = MemoryAttrs::default();
    assert_eq!(attrs.attrs, 0);
}

#[test]
fn test_memory_attrs_device() {
    let attrs = MemoryAttrs::new(0x00); // Device-nGnRnE
    assert!(attrs.is_device());
    assert!(!attrs.is_normal());
}

#[test]
fn test_memory_attrs_normal() {
    let attrs = MemoryAttrs::new(0xFF); // Normal, WBWA, Shareable
    assert!(!attrs.is_device());
    assert!(attrs.is_normal());
}

#[test]
fn test_memory_attrs_cacheable() {
    let attrs = MemoryAttrs::new(0xFF);
    assert!(attrs.is_cacheable());

    let attrs_nc = MemoryAttrs::new(0x40); // Normal, non-cacheable
    assert!(!attrs_nc.is_cacheable());
}

#[test]
fn test_memory_attrs_shareable() {
    let attrs = MemoryAttrs::new(0x10);
    assert!(attrs.is_shareable());

    let attrs_ns = MemoryAttrs::new(0x00);
    assert!(!attrs_ns.is_shareable());
}

// ==================== MpuCore Tests ====================

#[test]
fn test_mpu_core_creation() {
    let mpu = MpuCore::new();

    assert!(!mpu.is_enabled());
    assert_eq!(mpu.get_region_num(), 0);

    // TYPE should indicate 8 data regions
    assert_eq!((mpu.mpu_type >> mpu_type::DREGION_SHIFT) & 0xFF, 8);
}

#[test]
fn test_mpu_core_default() {
    let mpu = MpuCore::default();
    assert!(!mpu.is_enabled());
}

#[test]
fn test_mpu_core_enable() {
    let mut mpu = MpuCore::new();
    mpu.ctrl = mpu_ctrl::ENABLE;
    assert!(mpu.is_enabled());
}

#[test]
fn test_mpu_core_privdef() {
    let mut mpu = MpuCore::new();
    mpu.ctrl = mpu_ctrl::PRIVDEFENA;
    assert!(mpu.is_privdef_enabled());
}

#[test]
fn test_mpu_core_region_num() {
    let mut mpu = MpuCore::new();

    mpu.rnr = 3;
    assert_eq!(mpu.get_region_num(), 3);

    mpu.rnr = 10; // Out of range, should be masked
    assert_eq!(mpu.get_region_num(), 2); // 10 & 0x7 = 2
}

#[test]
fn test_mpu_core_check_access_disabled() {
    let mpu = MpuCore::new();
    // MPU disabled, all access allowed
    assert!(mpu.check_access(0x2000_0000, true, false));
    assert!(mpu.check_access(0x2000_0000, false, false));
}

#[test]
fn test_mpu_core_check_access_enabled_no_region() {
    let mut mpu = MpuCore::new();
    mpu.ctrl = mpu_ctrl::ENABLE;

    // No regions configured, access denied
    assert!(!mpu.check_access(0x2000_0000, true, false));
}

#[test]
fn test_mpu_core_check_access_privdef() {
    let mut mpu = MpuCore::new();
    mpu.ctrl = mpu_ctrl::ENABLE | mpu_ctrl::PRIVDEFENA;

    // No region match, but privdef enabled for privileged access
    assert!(mpu.check_access(0x2000_0000, true, true));
    assert!(!mpu.check_access(0x2000_0000, true, false));
}

#[test]
fn test_mpu_core_find_region() {
    let mut mpu = MpuCore::new();

    // Configure region 0
    mpu.regions[0].rbar = 0x1000 << mpu_rbar::ADDR_SHIFT | (3 << mpu_rbar::AP_SHIFT);
    mpu.regions[0].rlar = 0x1100 << mpu_rlar::ADDR_SHIFT | mpu_rlar::EN;

    let region = mpu.find_region(0x1050_0000);
    assert!(region.is_some());

    let region = mpu.find_region(0x0000_0000);
    assert!(region.is_none());
}

#[test]
fn test_mpu_core_get_memory_attrs() {
    let mut mpu = MpuCore::new();
    mpu.mair[0] = 0x12345678;

    // Index 0 = byte 0
    let attrs0 = mpu.get_memory_attrs(0);
    assert_eq!(attrs0.attrs, 0x78);

    // Index 1 = byte 1
    let attrs1 = mpu.get_memory_attrs(1);
    assert_eq!(attrs1.attrs, 0x56);
}

// ==================== MpuCore Register Tests ====================

#[test]
fn test_mpu_core_read_type() {
    let mpu = MpuCore::new();
    assert_eq!(mpu.read(regs::TYPE), mpu.mpu_type);
}

#[test]
fn test_mpu_core_read_ctrl() {
    let mut mpu = MpuCore::new();
    mpu.ctrl = 0x5;
    assert_eq!(mpu.read(regs::CTRL), 0x5);
}

#[test]
fn test_mpu_core_read_write_rnr() {
    let mut mpu = MpuCore::new();
    mpu.write(regs::RNR, 5);
    assert_eq!(mpu.read(regs::RNR), 5);
}

#[test]
fn test_mpu_core_read_write_rbar() {
    let mut mpu = MpuCore::new();
    mpu.write(regs::RNR, 2);
    mpu.write(regs::RBAR, 0x12345678);
    assert_eq!(mpu.read(regs::RBAR), 0x12345678);
    assert_eq!(mpu.regions[2].rbar, 0x12345678);
}

#[test]
fn test_mpu_core_read_write_rlar() {
    let mut mpu = MpuCore::new();
    mpu.write(regs::RNR, 1);
    mpu.write(regs::RLAR, 0xDEADBEEF);
    assert_eq!(mpu.read(regs::RLAR), 0xDEADBEEF);
    assert_eq!(mpu.regions[1].rlar, 0xDEADBEEF);
}

#[test]
fn test_mpu_core_read_write_rbar_a1() {
    let mut mpu = MpuCore::new();
    mpu.write(regs::RNR, 0);
    mpu.write(regs::RBAR_A1, 0xAAAAAAAA);
    assert_eq!(mpu.regions[1].rbar, 0xAAAAAAAA);
}

#[test]
fn test_mpu_core_read_write_mair() {
    let mut mpu = MpuCore::new();
    mpu.write(regs::MAIR0, 0x12345678);
    mpu.write(regs::MAIR1, 0xDEADBEEF);

    assert_eq!(mpu.read(regs::MAIR0), 0x12345678);
    assert_eq!(mpu.read(regs::MAIR1), 0xDEADBEEF);
}

#[test]
fn test_mpu_core_reset() {
    let mut mpu = MpuCore::new();

    mpu.ctrl = 0x7;
    mpu.regions[0].rbar = 0xFFFFFFFF;
    mpu.mair[0] = 0xFFFFFFFF;

    mpu.reset();

    assert_eq!(mpu.ctrl, 0);
    assert_eq!(mpu.regions[0].rbar, 0);
    assert_eq!(mpu.mair[0], 0);
    // TYPE should be preserved
    assert_eq!((mpu.mpu_type >> mpu_type::DREGION_SHIFT) & 0xFF, 8);
}

// ==================== Mpu (Dual Core) Tests ====================

#[test]
fn test_mpu_creation() {
    let mpu = Mpu::new();
    assert!(!mpu.core0.is_enabled());
    assert!(!mpu.core1.is_enabled());
}

#[test]
fn test_mpu_default() {
    let mpu = Mpu::default();
    assert!(!mpu.core0.is_enabled());
}

#[test]
fn test_mpu_get_core() {
    let mpu = Mpu::new();
    assert!(!mpu.get_core(0).is_enabled());
    assert!(!mpu.get_core(1).is_enabled());
}

#[test]
fn test_mpu_get_core_mut() {
    let mut mpu = Mpu::new();
    mpu.get_core_mut(0).ctrl = mpu_ctrl::ENABLE;
    assert!(mpu.core0.is_enabled());
    assert!(!mpu.core1.is_enabled());
}

#[test]
fn test_mpu_core_independence() {
    let mut mpu = Mpu::new();

    // Configure core 0
    mpu.write(BASE0 + regs::CTRL, mpu_ctrl::ENABLE);
    assert!(mpu.core0.is_enabled());
    assert!(!mpu.core1.is_enabled());

    // Configure core 1
    mpu.write(BASE1 + regs::CTRL, mpu_ctrl::ENABLE);
    assert!(mpu.core1.is_enabled());
}

#[test]
fn test_mpu_check_access() {
    let mut mpu = Mpu::new();

    // Configure region on core 0
    mpu.core0.ctrl = mpu_ctrl::ENABLE;
    mpu.core0.regions[0].rbar = 0x1000 << mpu_rbar::ADDR_SHIFT | (3 << mpu_rbar::AP_SHIFT);
    mpu.core0.regions[0].rlar = 0x1100 << mpu_rlar::ADDR_SHIFT | mpu_rlar::EN;

    assert!(mpu.check_access(0, 0x1000_0000, true, false));
    assert!(!mpu.check_access(0, 0x0000_0000, true, false));
}

#[test]
fn test_mpu_device_id() {
    let mpu = Mpu::new();
    assert_eq!(mpu.id(), DeviceId::MPU);
}

#[test]
fn test_mpu_read() {
    let mut mpu = Mpu::new();
    mpu.core0.ctrl = 0x5;
    assert_eq!(mpu.read(BASE0 + regs::CTRL), 0x5);
}

#[test]
fn test_mpu_write() {
    let mut mpu = Mpu::new();
    mpu.write(BASE0 + regs::CTRL, 0x7);
    assert_eq!(mpu.core0.ctrl, 0x7);
}

#[test]
fn test_mpu_reset() {
    let mut mpu = Mpu::new();

    mpu.core0.ctrl = 0x7;
    mpu.core1.ctrl = 0x7;

    mpu.reset();

    assert!(!mpu.core0.is_enabled());
    assert!(!mpu.core1.is_enabled());
}

// ==================== AccessPermission Enum Tests ====================

#[test]
fn test_access_permission_values() {
    assert_eq!(AccessPermission::NoAccess as u8, 0);
    assert_eq!(AccessPermission::PrivRW as u8, 1);
    assert_eq!(AccessPermission::PrivRWUserR as u8, 2);
    assert_eq!(AccessPermission::FullRW as u8, 3);
}

#[test]
fn test_access_permission_equality() {
    assert_eq!(AccessPermission::NoAccess, AccessPermission::NoAccess);
    assert_ne!(AccessPermission::NoAccess, AccessPermission::FullRW);
}

