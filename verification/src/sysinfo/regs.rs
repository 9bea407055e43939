use vstd::prelude::*;

verus! {

pub const CHIP_ID: u32 = 0;
pub const PLATFORM: u32 = 4;
pub const GITREF_RP2040: u32 = 8;
pub const GITREF_RP2350: u32 = 0xC;
pub const GITREF_RP2350_RISCVCORE: u32 = 0x10;
pub const GITREF_RP2350_BOOTROM: u32 = 0x14;
pub const GITREF_RP2350_BOOTROM_RISCV: u32 = 0x18;
pub const GITSPEC_RP2350_ARM_NS: u32 = 0x1C;
pub const GITSPEC_RP2350_ARM_S: u32 = 0x20;
pub const GITSPEC_RP2350_RISCV: u32 = 0x24;
pub const PACKAGE: u32 = 0x28;
pub const DEVICE_ID: u32 = 0x2C;
pub const DEVICE_ID_RISCV: u32 = 0x30;
pub const REFCLOCK_FREQ: u32 = 0x34;
pub const USR_ACCESS: u32 = 0x38;
pub const USR_ACCESS_RISCV: u32 = 0x3C;
pub const JTAG_USERCODE: u32 = 0x40;
pub const JTAG_USERCODE_RISCV: u32 = 0x44;
pub const CHIP_INFO: u32 = 0x48;
pub const CHIP_INFO_RISCV: u32 = 0x4C;
pub const BOOTRAM_BASE: u32 = 0x50;
pub const BOOTRAM_SIZE: u32 = 0x54;
pub const XIP_SRAM_BASE: u32 = 0x58;
pub const XIP_SRAM_SIZE: u32 = 0x5C;
pub const SRAM_BASE: u32 = 0x60;
pub const SRAM_SIZE: u32 = 0x64;
pub const FLASH_BASE: u32 = 0x68;
pub const FLASH_SIZE: u32 = 0x6C;

} // verus!
