//! System information: chip identification, device ID and memory map.
use vstd::prelude::*;

use crate::device::DeviceId;

pub mod chip_id;
pub mod package;
pub mod platform;
pub mod regs;

verus! {

/// Sysinfo base address.
pub const SYSINFO_BASE: u32 = 0x4000_8000;

/// Chip revision.
#[derive(Debug, Clone, Copy, PartialEq, Eq, Structural)]
pub enum ChipRevision {
    A0,
    A1,
    A2,
    B0,
    B1,
}

/// Revision number of a chip revision.
pub open spec fn revision_value(r: ChipRevision) -> u32 {
    match r {
        ChipRevision::A0 => 0,
        ChipRevision::A1 => 1,
        ChipRevision::A2 => 2,
        ChipRevision::B0 => 3,
        ChipRevision::B1 => 4,
    }
}

impl ChipRevision {
    /// Revision number.
    pub fn value(&self) -> (r: u32)
        ensures
            r == revision_value(*self),
    {
        match self {
            ChipRevision::A0 => 0,
            ChipRevision::A1 => 1,
            ChipRevision::A2 => 2,
            ChipRevision::B0 => 3,
            ChipRevision::B1 => 4,
        }
    }
}

impl Default for ChipRevision {
    fn default() -> (r: Self)
        ensures
            r == ChipRevision::A0,
    {
        ChipRevision::A0
    }
}

/// Sysinfo peripheral.
#[derive(Debug)]
pub struct Sysinfo {
    /// Chip ID.
    pub chip_id: u32,
    /// Platform type.
    pub platform: u32,
    /// Git references.
    pub gitrefs: [u32; 8],
    /// Package type.
    pub package: u32,
    /// Device ID words (low, high).
    pub device_id: [u32; 2],
    /// Reference clock frequency.
    pub refclock_freq: u32,
    /// User access registers.
    pub usr_access: [u32; 2],
    /// JTAG user codes.
    pub jtag_usercode: [u32; 2],
    /// Chip info.
    pub chip_info: [u32; 2],
    /// Memory configuration.
    pub bootram_base: u32,
    pub bootram_size: u32,
    pub xip_sram_base: u32,
    pub xip_sram_size: u32,
    pub sram_base: u32,
    pub sram_size: u32,
    pub flash_base: u32,
    pub flash_size: u32,
    /// Chip revision.
    pub revision: ChipRevision,
}

/// The 64-bit device ID of its two words.
pub open spec fn device_id_of(lo: u32, hi: u32) -> u64 {
    ((hi as u64) << 32u64) | (lo as u64)
}

/// Setting the device ID and reading it back gives the same 64-bit value.
pub proof fn lemma_device_id_round_trip(id: u64)
    ensures
        device_id_of(id as u32, (id >> 32u64) as u32) == id,
{
    assert(((((id >> 32u64) as u32) as u64) << 32u64) | ((id as u32) as u64) == id) by (bit_vector);
}

impl Sysinfo {
    /// CHIP_ID: the chip number with the revision in its low bits.
    pub open spec fn chip_id_value(&self) -> u32 {
        self.chip_id | (revision_value(self.revision) << chip_id::REVISION_SHIFT)
    }

    /// Every field but the device ID as at power-on.
    pub open spec fn is_power_on(&self) -> bool {
        &&& self.chip_id == chip_id::RP2350
        &&& self.platform == platform::SIMULATION
        &&& self.gitrefs@ == seq![
            0x1234_5678u32,
            0x8765_4321u32,
            0xDEAD_BEEFu32,
            0xCAFE_BABEu32,
            0xFEED_FACEu32,
            0xABCD_EF01u32,
            0x2345_6789u32,
            0x9876_5432u32,
        ]
        &&& self.package == package::QFN_80
        &&& self.refclock_freq == 12_000_000
        &&& self.usr_access@ == seq![0u32, 0u32]
        &&& self.jtag_usercode@ == seq![0x1234_5678u32, 0x8765_4321u32]
        &&& self.chip_info@ == seq![1u32, 1u32]
        &&& self.bootram_base == 0x4000_0000
        &&& self.bootram_size == 8 * 1024
        &&& self.xip_sram_base == 0x1500_0000
        &&& self.xip_sram_size == 64 * 1024
        &&& self.sram_base == 0x2000_0000
        &&& self.sram_size == 512 * 1024
        &&& self.flash_base == 0x1000_0000
        &&& self.flash_size == 4 * 1024 * 1024
        &&& self.revision == ChipRevision::A0
    }

    pub open spec fn read_value(&self, offset: u32) -> u32 {
        if offset == regs::CHIP_ID {
            self.chip_id_value()
        } else if offset == regs::PLATFORM {
            self.platform
        } else if offset == regs::GITREF_RP2040 {
            self.gitrefs@[0]
        } else if offset == regs::GITREF_RP2350 {
            self.gitrefs@[1]
        } else if offset == regs::GITREF_RP2350_RISCVCORE {
            self.gitrefs@[2]
        } else if offset == regs::GITREF_RP2350_BOOTROM {
            self.gitrefs@[3]
        } else if offset == regs::GITREF_RP2350_BOOTROM_RISCV {
            self.gitrefs@[4]
        } else if offset == regs::GITSPEC_RP2350_ARM_NS {
            self.gitrefs@[5]
        } else if offset == regs::GITSPEC_RP2350_ARM_S {
            self.gitrefs@[6]
        } else if offset == regs::GITSPEC_RP2350_RISCV {
            self.gitrefs@[7]
        } else if offset == regs::PACKAGE {
            self.package
        } else if offset == regs::DEVICE_ID {
            self.device_id@[0]
        } else if offset == regs::DEVICE_ID_RISCV {
            self.device_id@[1]
        } else if offset == regs::REFCLOCK_FREQ {
            self.refclock_freq
        } else if offset == regs::USR_ACCESS {
            self.usr_access@[0]
        } else if offset == regs::USR_ACCESS_RISCV {
            self.usr_access@[1]
        } else if offset == regs::JTAG_USERCODE {
            self.jtag_usercode@[0]
        } else if offset == regs::JTAG_USERCODE_RISCV {
            self.jtag_usercode@[1]
        } else if offset == regs::CHIP_INFO {
            self.chip_info@[0]
        } else if offset == regs::CHIP_INFO_RISCV {
            self.chip_info@[1]
        } else if offset == regs::BOOTRAM_BASE {
            self.bootram_base
        } else if offset == regs::BOOTRAM_SIZE {
            self.bootram_size
        } else if offset == regs::XIP_SRAM_BASE {
            self.xip_sram_base
        } else if offset == regs::XIP_SRAM_SIZE {
            self.xip_sram_size
        } else if offset == regs::SRAM_BASE {
            self.sram_base
        } else if offset == regs::SRAM_SIZE {
            self.sram_size
        } else if offset == regs::FLASH_BASE {
            self.flash_base
        } else if offset == regs::FLASH_SIZE {
            self.flash_size
        } else {
            0
        }
    }

    /// Create the power-on information block.
    pub fn new() -> (r: Self)
        ensures
            r.is_power_on(),
            r.device_id@ == seq![0x0123_4567u32, 0x89AB_CDEFu32],
    {
        let r = Sysinfo {
            chip_id: chip_id::RP2350,
            platform: platform::SIMULATION,
            gitrefs: [
                0x1234_5678,
                0x8765_4321,
                0xDEAD_BEEF,
                0xCAFE_BABE,
                0xFEED_FACE,
                0xABCD_EF01,
                0x2345_6789,
                0x9876_5432,
            ],
            package: package::QFN_80,
            device_id: [0x0123_4567, 0x89AB_CDEF],
            refclock_freq: 12_000_000,
            usr_access: [0, 0],
            jtag_usercode: [0x1234_5678, 0x8765_4321],
            chip_info: [0x0000_0001, 0x0000_0001],
            bootram_base: 0x4000_0000,
            bootram_size: 8 * 1024,
            xip_sram_base: 0x1500_0000,
            xip_sram_size: 64 * 1024,
            sram_base: 0x2000_0000,
            sram_size: 512 * 1024,
            flash_base: 0x1000_0000,
            flash_size: 4 * 1024 * 1024,
            revision: ChipRevision::A0,
        };
        assert(r.gitrefs@ =~= seq![
            0x1234_5678u32,
            0x8765_4321u32,
            0xDEAD_BEEFu32,
            0xCAFE_BABEu32,
            0xFEED_FACEu32,
            0xABCD_EF01u32,
            0x2345_6789u32,
            0x9876_5432u32,
        ]);
        assert(r.device_id@ =~= seq![0x0123_4567u32, 0x89AB_CDEFu32]);
        assert(r.usr_access@ =~= seq![0u32, 0u32]);
        assert(r.jtag_usercode@ =~= seq![0x1234_5678u32, 0x8765_4321u32]);
        assert(r.chip_info@ =~= seq![1u32, 1u32]);
        r
    }

    /// Device identifier.
    pub fn id(&self) -> (r: DeviceId)
        ensures
            r == DeviceId::SYSINFO,
    {
        DeviceId::SYSINFO
    }

    /// Chip ID with the revision.
    pub fn get_chip_id(&self) -> (r: u32)
        ensures
            r == self.chip_id_value(),
    {
        self.chip_id | (self.revision.value() << chip_id::REVISION_SHIFT)
    }

    /// Get platform type.
    pub fn get_platform(&self) -> (r: u32)
        ensures
            r == self.platform,
    {
        self.platform
    }

    /// Set platform type.
    pub fn set_platform(&mut self, platform: u32)
        ensures
            *final(self) == (Sysinfo { platform, ..*old(self) }),
    {
        self.platform = platform;
    }

    /// The 64-bit device ID (high word, low word).
    pub fn get_device_id(&self) -> (r: u64)
        ensures
            r == device_id_of(self.device_id@[0], self.device_id@[1]),
    {
        ((self.device_id[1] as u64) << 32) | (self.device_id[0] as u64)
    }

    /// Set the 64-bit device ID.
    pub fn set_device_id(&mut self, id: u64)
        ensures
            final(self).device_id@ == seq![id as u32, (id >> 32u64) as u32],
            *final(self) == (Sysinfo { device_id: final(self).device_id, ..*old(self) }),
    {
        self.device_id[0] = id as u32;
        self.device_id[1] = (id >> 32) as u32;
        assert(self.device_id@ =~= seq![id as u32, (id >> 32u64) as u32]);
    }

    /// Get chip revision.
    pub fn get_revision(&self) -> (r: ChipRevision)
        ensures
            r == self.revision,
    {
        self.revision
    }

    /// Set chip revision.
    pub fn set_revision(&mut self, revision: ChipRevision)
        ensures
            *final(self) == (Sysinfo { revision, ..*old(self) }),
    {
        self.revision = revision;
    }

    /// Get reference clock frequency.
    pub fn get_refclock_freq(&self) -> (r: u32)
        ensures
            r == self.refclock_freq,
    {
        self.refclock_freq
    }

    /// Set reference clock frequency.
    pub fn set_refclock_freq(&mut self, freq: u32)
        ensures
            *final(self) == (Sysinfo { refclock_freq: freq, ..*old(self) }),
    {
        self.refclock_freq = freq;
    }

    /// Memory map: boot RAM, XIP SRAM, SRAM and flash, base and size each.
    pub fn get_memory_config(&self) -> (r: (u32, u32, u32, u32, u32, u32, u32, u32))
        ensures
            r == (
                self.bootram_base,
                self.bootram_size,
                self.xip_sram_base,
                self.xip_sram_size,
                self.sram_base,
                self.sram_size,
                self.flash_base,
                self.flash_size,
            ),
    {
        (
            self.bootram_base,
            self.bootram_size,
            self.xip_sram_base,
            self.xip_sram_size,
            self.sram_base,
            self.sram_size,
            self.flash_base,
            self.flash_size,
        )
    }

    /// Set the memory map.
    pub fn set_memory_config(
        &mut self,
        bootram_base: u32,
        bootram_size: u32,
        xip_sram_base: u32,
        xip_sram_size: u32,
        sram_base: u32,
        sram_size: u32,
        flash_base: u32,
        flash_size: u32,
    )
        ensures
            *final(self) == (Sysinfo {
                bootram_base,
                bootram_size,
                xip_sram_base,
                xip_sram_size,
                sram_base,
                sram_size,
                flash_base,
                flash_size,
                ..*old(self)
            }),
    {
        self.bootram_base = bootram_base;
        self.bootram_size = bootram_size;
        self.xip_sram_base = xip_sram_base;
        self.xip_sram_size = xip_sram_size;
        self.sram_base = sram_base;
        self.sram_size = sram_size;
        self.flash_base = flash_base;
        self.flash_size = flash_size;
    }

    /// Register read.
    pub fn read(&mut self, addr: u32) -> (r: u32)
        requires
            addr >= SYSINFO_BASE,
        ensures
            r == old(self).read_value((addr - SYSINFO_BASE) as u32),
            *final(self) == *old(self),
    {
        let offset = addr - SYSINFO_BASE;
        if offset == regs::CHIP_ID {
            self.get_chip_id()
        } else if offset == regs::PLATFORM {
            self.platform
        } else if offset == regs::GITREF_RP2040 {
            self.gitrefs[0]
        } else if offset == regs::GITREF_RP2350 {
            self.gitrefs[1]
        } else if offset == regs::GITREF_RP2350_RISCVCORE {
            self.gitrefs[2]
        } else if offset == regs::GITREF_RP2350_BOOTROM {
            self.gitrefs[3]
        } else if offset == regs::GITREF_RP2350_BOOTROM_RISCV {
            self.gitrefs[4]
        } else if offset == regs::GITSPEC_RP2350_ARM_NS {
            self.gitrefs[5]
        } else if offset == regs::GITSPEC_RP2350_ARM_S {
            self.gitrefs[6]
        } else if offset == regs::GITSPEC_RP2350_RISCV {
            self.gitrefs[7]
        } else if offset == regs::PACKAGE {
            self.package
        } else if offset == regs::DEVICE_ID {
            self.device_id[0]
        } else if offset == regs::DEVICE_ID_RISCV {
            self.device_id[1]
        } else if offset == regs::REFCLOCK_FREQ {
            self.refclock_freq
        } else if offset == regs::USR_ACCESS {
            self.usr_access[0]
        } else if offset == regs::USR_ACCESS_RISCV {
            self.usr_access[1]
        } else if offset == regs::JTAG_USERCODE {
            self.jtag_usercode[0]
        } else if offset == regs::JTAG_USERCODE_RISCV {
            self.jtag_usercode[1]
        } else if offset == regs::CHIP_INFO {
            self.chip_info[0]
        } else if offset == regs::CHIP_INFO_RISCV {
            self.chip_info[1]
        } else if offset == regs::BOOTRAM_BASE {
            self.bootram_base
        } else if offset == regs::BOOTRAM_SIZE {
            self.bootram_size
        } else if offset == regs::XIP_SRAM_BASE {
            self.xip_sram_base
        } else if offset == regs::XIP_SRAM_SIZE {
            self.xip_sram_size
        } else if offset == regs::SRAM_BASE {
            self.sram_base
        } else if offset == regs::SRAM_SIZE {
            self.sram_size
        } else if offset == regs::FLASH_BASE {
            self.flash_base
        } else if offset == regs::FLASH_SIZE {
            self.flash_size
        } else {
            0
        }
    }

    /// Register write: only the user access registers are writable.
    pub fn write(&mut self, addr: u32, value: u32)
        requires
            addr >= SYSINFO_BASE,
        ensures
            (addr - SYSINFO_BASE) as u32 == regs::USR_ACCESS ==> final(self).usr_access@ == old(
                self,
            ).usr_access@.update(0, value),
            (addr - SYSINFO_BASE) as u32 == regs::USR_ACCESS_RISCV ==> final(self).usr_access@
                == old(self).usr_access@.update(1, value),
            (addr - SYSINFO_BASE) as u32 != regs::USR_ACCESS && (addr - SYSINFO_BASE) as u32
                != regs::USR_ACCESS_RISCV ==> final(self).usr_access@ == old(self).usr_access@,
            *final(self) == (Sysinfo { usr_access: final(self).usr_access, ..*old(self) }),
    {
        let offset = addr - SYSINFO_BASE;
        if offset == regs::USR_ACCESS {
            self.usr_access[0] = value;
        } else if offset == regs::USR_ACCESS_RISCV {
            self.usr_access[1] = value;
        }
    }

    /// Return to the power-on state, keeping the device ID.
    pub fn reset(&mut self)
        ensures
            final(self).device_id == old(self).device_id,
            final(self).is_power_on(),
    {
        let device_id = self.device_id;
        *self = Sysinfo::new();
        self.device_id = device_id;
    }
}

impl Default for Sysinfo {
    fn default() -> (r: Self)
        ensures
            r.is_power_on(),
            r.device_id@ == seq![0x0123_4567u32, 0x89AB_CDEFu32],
    {
        Sysinfo::new()
    }
}

} // verus!
