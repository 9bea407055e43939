//! Tests of the Sysinfo model.

use rp2350sim_devices::sysinfo::{chip_id, package, platform, regs, ChipRevision, Sysinfo, SYSINFO_BASE};
use rp2350sim_devices::device::DeviceId;

#[test]
fn test_sysinfo_creation() {
    let sysinfo = Sysinfo::new();

    assert_eq!(sysinfo.get_chip_id() & !0xF, chip_id::RP2350);
    assert_eq!(sysinfo.get_platform(), platform::SIMULATION);
}

#[test]
fn test_sysinfo_default() {
    let sysinfo = Sysinfo::default();
    assert_eq!(sysinfo.platform, platform::SIMULATION);
}

#[test]
fn test_chip_id() {
    let mut sysinfo = Sysinfo::new();
    let chip_id = sysinfo.read(SYSINFO_BASE + regs::CHIP_ID);

    // Should be RP2350 with revision
    assert_eq!(chip_id & !0xF, chip_id::RP2350);
}

#[test]
fn test_chip_revision() {
    let mut sysinfo = Sysinfo::new();

    sysinfo.set_revision(ChipRevision::B0);
    let chip_id = sysinfo.get_chip_id();
    assert_eq!(chip_id & chip_id::REVISION_MASK, 3);

    sysinfo.set_revision(ChipRevision::B1);
    let chip_id = sysinfo.get_chip_id();
    assert_eq!(chip_id & chip_id::REVISION_MASK, 4);
}

#[test]
fn test_platform() {
    let mut sysinfo = Sysinfo::new();

    assert_eq!(sysinfo.get_platform(), platform::SIMULATION);

    sysinfo.set_platform(platform::ASIC);
    assert_eq!(sysinfo.get_platform(), platform::ASIC);

    sysinfo.set_platform(platform::FPGA);
    assert_eq!(sysinfo.get_platform(), platform::FPGA);
}

#[test]
fn test_gitrefs() {
    let mut sysinfo = Sysinfo::new();

    // Read all git references
    assert_eq!(sysinfo.read(SYSINFO_BASE + regs::GITREF_RP2040), 0x12345678);
    assert_eq!(sysinfo.read(SYSINFO_BASE + regs::GITREF_RP2350), 0x87654321);
    assert_eq!(sysinfo.read(SYSINFO_BASE + regs::GITREF_RP2350_RISCVCORE), 0xDEADBEEF);
}

#[test]
fn test_package() {
    let mut sysinfo = Sysinfo::new();

    let pkg = sysinfo.read(SYSINFO_BASE + regs::PACKAGE);
    assert_eq!(pkg, package::QFN_80);
}

#[test]
fn test_sysinfo_read_device_id() {
    let mut sysinfo = Sysinfo::new();

    // Default device ID
    let id = sysinfo.get_device_id();
    assert_eq!(id, 0x89AB_CDEF_0123_4567);

    // Set new device ID
    sysinfo.set_device_id(0x1122_3344_5566_7788);
    assert_eq!(sysinfo.get_device_id(), 0x1122_3344_5566_7788);

    // Read via registers
    assert_eq!(sysinfo.read(SYSINFO_BASE + regs::DEVICE_ID), 0x55667788);
    assert_eq!(sysinfo.read(SYSINFO_BASE + regs::DEVICE_ID_RISCV), 0x11223344);
}

#[test]
fn test_refclock_freq() {
    let mut sysinfo = Sysinfo::new();

    assert_eq!(sysinfo.get_refclock_freq(), 12_000_000);

    sysinfo.set_refclock_freq(24_000_000);
    assert_eq!(sysinfo.get_refclock_freq(), 24_000_000);

    // Read via register
    let freq = sysinfo.read(SYSINFO_BASE + regs::REFCLOCK_FREQ);
    assert_eq!(freq, 24_000_000);
}

#[test]
fn test_usr_access() {
    let mut sysinfo = Sysinfo::new();

    // Write and read USR_ACCESS
    sysinfo.write(SYSINFO_BASE + regs::USR_ACCESS, 0x12345678);
    assert_eq!(sysinfo.read(SYSINFO_BASE + regs::USR_ACCESS), 0x12345678);

    // USR_ACCESS_RISCV
    sysinfo.write(SYSINFO_BASE + regs::USR_ACCESS_RISCV, 0xABCDEF00);
    assert_eq!(sysinfo.read(SYSINFO_BASE + regs::USR_ACCESS_RISCV), 0xABCDEF00);
}

#[test]
fn test_jtag_usercode() {
    let mut sysinfo = Sysinfo::new();

    let code0 = sysinfo.read(SYSINFO_BASE + regs::JTAG_USERCODE);
    let code1 = sysinfo.read(SYSINFO_BASE + regs::JTAG_USERCODE_RISCV);

    assert_ne!(code0, 0);
    assert_ne!(code1, 0);
}

#[test]
fn test_chip_info() {
    let mut sysinfo = Sysinfo::new();

    let info0 = sysinfo.read(SYSINFO_BASE + regs::CHIP_INFO);
    let info1 = sysinfo.read(SYSINFO_BASE + regs::CHIP_INFO_RISCV);

    assert_ne!(info0, 0);
    assert_ne!(info1, 0);
}

#[test]
fn test_memory_config() {
    let sysinfo = Sysinfo::new();

    let (bootram_base, bootram_size, _xip_sram_base, _xip_sram_size, sram_base, sram_size, flash_base, flash_size) =
        sysinfo.get_memory_config();

    assert_eq!(bootram_base, 0x4000_0000);
    assert_eq!(bootram_size, 8 * 1024);
    assert_eq!(sram_base, 0x2000_0000);
    assert_eq!(sram_size, 512 * 1024);
    assert_eq!(flash_base, 0x1000_0000);
    assert_eq!(flash_size, 4 * 1024 * 1024);
}

#[test]
fn test_memory_registers() {
    let mut sysinfo = Sysinfo::new();

    // Bootram
    assert_eq!(sysinfo.read(SYSINFO_BASE + regs::BOOTRAM_BASE), 0x4000_0000);
    assert_eq!(sysinfo.read(SYSINFO_BASE + regs::BOOTRAM_SIZE), 8 * 1024);

    // XIP SRAM
    assert_eq!(sysinfo.read(SYSINFO_BASE + regs::XIP_SRAM_BASE), 0x1500_0000);
    assert_eq!(sysinfo.read(SYSINFO_BASE + regs::XIP_SRAM_SIZE), 64 * 1024);

    // SRAM
    assert_eq!(sysinfo.read(SYSINFO_BASE + regs::SRAM_BASE), 0x2000_0000);
    assert_eq!(sysinfo.read(SYSINFO_BASE + regs::SRAM_SIZE), 512 * 1024);

    // Flash
    assert_eq!(sysinfo.read(SYSINFO_BASE + regs::FLASH_BASE), 0x1000_0000);
    assert_eq!(sysinfo.read(SYSINFO_BASE + regs::FLASH_SIZE), 4 * 1024 * 1024);
}

#[test]
fn test_set_memory_config() {
    let mut sysinfo = Sysinfo::new();

    sysinfo.set_memory_config(
        0x5000_0000, 16 * 1024,  // bootram
        0x1600_0000, 128 * 1024, // xip_sram
        0x2100_0000, 1024 * 1024, // sram
        0x1100_0000, 8 * 1024 * 1024, // flash
    );

    let (bootram_base, bootram_size, _xip_sram_base, _xip_sram_size, sram_base, sram_size, _flash_base, _flash_size) =
        sysinfo.get_memory_config();

    assert_eq!(bootram_base, 0x5000_0000);
    assert_eq!(bootram_size, 16 * 1024);
    assert_eq!(sram_base, 0x2100_0000);
    assert_eq!(sram_size, 1024 * 1024);
}

#[test]
fn test_read_only_registers() {
    let mut sysinfo = Sysinfo::new();

    // Try to write to read-only registers
    sysinfo.write(SYSINFO_BASE + regs::CHIP_ID, 0xFFFFFFFF);
    sysinfo.write(SYSINFO_BASE + regs::PLATFORM, 0xFFFFFFFF);
    sysinfo.write(SYSINFO_BASE + regs::PACKAGE, 0xFFFFFFFF);

    // Values should not change
    assert_ne!(sysinfo.read(SYSINFO_BASE + regs::CHIP_ID), 0xFFFFFFFF);
    assert_ne!(sysinfo.read(SYSINFO_BASE + regs::PLATFORM), 0xFFFFFFFF);
    assert_ne!(sysinfo.read(SYSINFO_BASE + regs::PACKAGE), 0xFFFFFFFF);
}

#[test]
fn test_sysinfo_invalid_register() {
    let mut sysinfo = Sysinfo::new();

    // Invalid offset
    let result = sysinfo.read(SYSINFO_BASE + 0x1000);
    assert_eq!(result, 0);

    // Write to invalid offset should be ignored
    sysinfo.write(SYSINFO_BASE + 0x1000, 0x12345678);
}

#[test]
fn test_reset_preserves_device_id() {
    let mut sysinfo = Sysinfo::new();

    sysinfo.set_device_id(0xDEAD_BEEF_CAFE_BABE);
    sysinfo.set_revision(ChipRevision::B1);

    sysinfo.reset();

    // Device ID preserved
    assert_eq!(sysinfo.get_device_id(), 0xDEAD_BEEF_CAFE_BABE);
    // Revision reset to default
    assert_eq!(sysinfo.get_revision(), ChipRevision::A0);
}

#[test]
fn test_sysinfo_device_id() {
    let sysinfo = Sysinfo::new();
    assert_eq!(sysinfo.id(), DeviceId::SYSINFO);
}

#[test]
fn test_chip_revision_values() {
    assert_eq!(ChipRevision::A0.value(), 0);
    assert_eq!(ChipRevision::A1.value(), 1);
    assert_eq!(ChipRevision::A2.value(), 2);
    assert_eq!(ChipRevision::B0.value(), 3);
    assert_eq!(ChipRevision::B1.value(), 4);
}

#[test]
fn test_all_gitspecs() {
    let mut sysinfo = Sysinfo::new();

    let arm_ns = sysinfo.read(SYSINFO_BASE + regs::GITSPEC_RP2350_ARM_NS);
    let arm_s = sysinfo.read(SYSINFO_BASE + regs::GITSPEC_RP2350_ARM_S);
    let riscv = sysinfo.read(SYSINFO_BASE + regs::GITSPEC_RP2350_RISCV);

    assert_eq!(arm_ns, 0xABCDEF01);
    assert_eq!(arm_s, 0x23456789);
    assert_eq!(riscv, 0x98765432);
}

#[test]
fn test_chip_revisions() {
    let mut sysinfo = Sysinfo::new();

    // Test all ChipRevision variants comprehensively
    let revisions = [
        (ChipRevision::A0, 0),
        (ChipRevision::A1, 1),
        (ChipRevision::A2, 2),
        (ChipRevision::B0, 3),
        (ChipRevision::B1, 4),
    ];

    for (rev, expected_val) in revisions {
        sysinfo.set_revision(rev);
        assert_eq!(sysinfo.get_revision(), rev);
        assert_eq!(rev.value(), expected_val);

        let chip_id = sysinfo.get_chip_id();
        assert_eq!(chip_id & chip_id::REVISION_MASK, expected_val);
        assert_eq!(chip_id & !0xF, chip_id::RP2350);
    }

    // Test Default trait
    assert_eq!(ChipRevision::default(), ChipRevision::A0);
}

#[test]
fn test_device_id_64bit() {
    let mut sysinfo = Sysinfo::new();

    // Test maximum 64-bit device ID (edge case)
    let max_id = u64::MAX;
    sysinfo.set_device_id(max_id);
    assert_eq!(sysinfo.get_device_id(), max_id);
    assert_eq!(sysinfo.read(SYSINFO_BASE + regs::DEVICE_ID), 0xFFFFFFFF);
    assert_eq!(sysinfo.read(SYSINFO_BASE + regs::DEVICE_ID_RISCV), 0xFFFFFFFF);

    // Test zero device ID
    sysinfo.set_device_id(0);
    assert_eq!(sysinfo.get_device_id(), 0);

    // Test typical 64-bit ID with both halves populated
    let typical_id = 0x1234_5678_9ABC_DEF0_u64;
    sysinfo.set_device_id(typical_id);
    assert_eq!(sysinfo.get_device_id(), typical_id);
    assert_eq!(sysinfo.read(SYSINFO_BASE + regs::DEVICE_ID), 0x9ABC_DEF0);
    assert_eq!(sysinfo.read(SYSINFO_BASE + regs::DEVICE_ID_RISCV), 0x1234_5678);

    // Test bit pattern preservation
    let pattern_id = 0xAAAA_BBBB_CCCC_DDDD_u64;
    sysinfo.set_device_id(pattern_id);
    assert_eq!(sysinfo.get_device_id(), pattern_id);
}

#[test]
fn test_platform_types() {
    let mut sysinfo = Sysinfo::new();

    // Test ASIC platform
    sysinfo.set_platform(platform::ASIC);
    assert_eq!(sysinfo.get_platform(), platform::ASIC);
    assert_eq!(sysinfo.get_platform(), 0x0000_0001);
    let read_val = sysinfo.read(SYSINFO_BASE + regs::PLATFORM);
    assert_eq!(read_val, platform::ASIC);

    // Test FPGA platform
    sysinfo.set_platform(platform::FPGA);
    assert_eq!(sysinfo.get_platform(), platform::FPGA);
    assert_eq!(sysinfo.get_platform(), 0x0000_0002);
    let read_val = sysinfo.read(SYSINFO_BASE + regs::PLATFORM);
    assert_eq!(read_val, platform::FPGA);

    // Test SIMULATION platform (default)
    sysinfo.set_platform(platform::SIMULATION);
    assert_eq!(sysinfo.get_platform(), platform::SIMULATION);
    assert_eq!(sysinfo.get_platform(), 0x0000_0003);
    let read_val = sysinfo.read(SYSINFO_BASE + regs::PLATFORM);
    assert_eq!(read_val, platform::SIMULATION);

    // Test custom platform value
    sysinfo.set_platform(0x0000_00FF);
    assert_eq!(sysinfo.get_platform(), 0x0000_00FF);
}

#[test]
fn test_gitref_registers() {
    let mut sysinfo = Sysinfo::new();

    // Verify all 8 gitref registers are readable
    let gitref_offsets = [
        (regs::GITREF_RP2040, 0x12345678_u32),
        (regs::GITREF_RP2350, 0x87654321),
        (regs::GITREF_RP2350_RISCVCORE, 0xDEADBEEF),
        (regs::GITREF_RP2350_BOOTROM, 0xCAFEBABE),
        (regs::GITREF_RP2350_BOOTROM_RISCV, 0xFEEDFACE),
        (regs::GITSPEC_RP2350_ARM_NS, 0xABCDEF01),
        (regs::GITSPEC_RP2350_ARM_S, 0x23456789),
        (regs::GITSPEC_RP2350_RISCV, 0x98765432),
    ];

    for (offset, expected) in gitref_offsets {
        let val = sysinfo.read(SYSINFO_BASE + offset);
        assert_eq!(val, expected);
    }
}

#[test]
fn test_device_read_only() {
    let mut sysinfo = Sysinfo::new();

    // Record original values
    let original_chip_id = sysinfo.read(SYSINFO_BASE + regs::CHIP_ID);
    let original_platform = sysinfo.read(SYSINFO_BASE + regs::PLATFORM);
    let original_package = sysinfo.read(SYSINFO_BASE + regs::PACKAGE);
    let original_gitref = sysinfo.read(SYSINFO_BASE + regs::GITREF_RP2350);
    let original_device_id = sysinfo.read(SYSINFO_BASE + regs::DEVICE_ID);
    let original_refclock = sysinfo.read(SYSINFO_BASE + regs::REFCLOCK_FREQ);

    // Attempt writes to read-only registers
    sysinfo.write(SYSINFO_BASE + regs::CHIP_ID, 0xAAAAAAAA);
    sysinfo.write(SYSINFO_BASE + regs::PLATFORM, 0xBBBBBBBB);
    sysinfo.write(SYSINFO_BASE + regs::PACKAGE, 0xCCCCCCCC);
    sysinfo.write(SYSINFO_BASE + regs::GITREF_RP2350, 0xDDDDDDDD);
    sysinfo.write(SYSINFO_BASE + regs::DEVICE_ID, 0xEEEEEEEE);
    sysinfo.write(SYSINFO_BASE + regs::DEVICE_ID_RISCV, 0xFFFFFFFF);
    sysinfo.write(SYSINFO_BASE + regs::REFCLOCK_FREQ, 0x12345678);

    // Values should remain unchanged (writes ignored)
    assert_eq!(sysinfo.read(SYSINFO_BASE + regs::CHIP_ID), original_chip_id);
    assert_eq!(sysinfo.read(SYSINFO_BASE + regs::PLATFORM), original_platform);
    assert_eq!(sysinfo.read(SYSINFO_BASE + regs::PACKAGE), original_package);
    assert_eq!(sysinfo.read(SYSINFO_BASE + regs::GITREF_RP2350), original_gitref);
    assert_eq!(sysinfo.read(SYSINFO_BASE + regs::DEVICE_ID), original_device_id);
    assert_eq!(sysinfo.read(SYSINFO_BASE + regs::REFCLOCK_FREQ), original_refclock);

    // Memory config registers should also be read-only
    sysinfo.write(SYSINFO_BASE + regs::BOOTRAM_BASE, 0xFFFFFFFF);
    sysinfo.write(SYSINFO_BASE + regs::BOOTRAM_SIZE, 0xFFFFFFFF);
    sysinfo.write(SYSINFO_BASE + regs::SRAM_BASE, 0xFFFFFFFF);
    sysinfo.write(SYSINFO_BASE + regs::SRAM_SIZE, 0xFFFFFFFF);

    assert_ne!(sysinfo.read(SYSINFO_BASE + regs::BOOTRAM_BASE), 0xFFFFFFFF);
    assert_ne!(sysinfo.read(SYSINFO_BASE + regs::BOOTRAM_SIZE), 0xFFFFFFFF);
}

