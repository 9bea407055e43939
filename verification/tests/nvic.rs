//! Tests of the Nvic model.

use rp2350sim_devices::nvic::{regs, Nvic, NvicCore, NVIC_BASE_CORE0, NVIC_BASE_CORE1};
use rp2350sim_devices::device::DeviceId;
const BASE0: u32 = NVIC_BASE_CORE0;
const BASE1: u32 = NVIC_BASE_CORE1;

// ==================== NvicCore Tests ====================

#[test]
fn test_nvic_core_creation() {
    let nvic = NvicCore::new();

    // All interrupts disabled
    assert!(!nvic.is_enabled(0));
    assert!(!nvic.is_enabled(127));

    // No pending interrupts
    assert!(!nvic.is_pending(0));

    // No active interrupts
    assert!(!nvic.is_active(0));
}

#[test]
fn test_nvic_core_default() {
    let nvic = NvicCore::default();
    assert!(!nvic.is_enabled(0));
}

#[test]
fn test_enable_disable_irq() {
    let mut nvic = NvicCore::new();

    // Enable IRQ 0
    nvic.enable_irq(0);
    assert!(nvic.is_enabled(0));

    // Disable IRQ 0
    nvic.disable_irq(0);
    assert!(!nvic.is_enabled(0));
}

#[test]
fn test_enable_multiple_irqs() {
    let mut nvic = NvicCore::new();

    nvic.enable_irq(0);
    nvic.enable_irq(31);
    nvic.enable_irq(32);
    nvic.enable_irq(127);

    assert!(nvic.is_enabled(0));
    assert!(nvic.is_enabled(31));
    assert!(nvic.is_enabled(32));
    assert!(nvic.is_enabled(127));

    // IRQ 128 doesn't exist
    assert!(!nvic.is_enabled(128));
}

#[test]
fn test_set_clear_pending() {
    let mut nvic = NvicCore::new();

    nvic.set_pending(5);
    assert!(nvic.is_pending(5));

    nvic.clear_pending(5);
    assert!(!nvic.is_pending(5));
}

#[test]
fn test_active_state() {
    let mut nvic = NvicCore::new();

    assert!(!nvic.is_active(10));

    // Use acknowledge to set active
    nvic.set_pending(10);
    nvic.acknowledge(10);
    assert!(nvic.is_active(10));

    nvic.end_of_interrupt(10);
    assert!(!nvic.is_active(10));
}

#[test]
fn test_priority() {
    let mut nvic = NvicCore::new();

    // Default priority is 0
    assert_eq!(nvic.get_priority(0), 0);

    // Set priority
    nvic.set_priority(0, 100);
    assert_eq!(nvic.get_priority(0), 100);

    nvic.set_priority(127, 255);
    assert_eq!(nvic.get_priority(127), 255);
}

#[test]
fn test_priority_multiple_irqs_per_register() {
    let mut nvic = NvicCore::new();

    // Each IPR register holds 4 priorities
    nvic.set_priority(0, 0x11);
    nvic.set_priority(1, 0x22);
    nvic.set_priority(2, 0x33);
    nvic.set_priority(3, 0x44);

    assert_eq!(nvic.get_priority(0), 0x11);
    assert_eq!(nvic.get_priority(1), 0x22);
    assert_eq!(nvic.get_priority(2), 0x33);
    assert_eq!(nvic.get_priority(3), 0x44);
}

#[test]
fn test_vector_table() {
    let mut nvic = NvicCore::new();

    assert_eq!(nvic.get_vector_table(), 0);

    nvic.set_vector_table(0x2000_0000);
    assert_eq!(nvic.get_vector_table(), 0x2000_0000);
}

#[test]
fn test_get_vector_address() {
    let mut nvic = NvicCore::new();

    nvic.set_vector_table(0x2000_0000);

    // IRQ 0 = vector 16
    assert_eq!(nvic.get_vector_address(0), 0x2000_0000 + 16 * 4);

    // IRQ 5 = vector 21
    assert_eq!(nvic.get_vector_address(5), 0x2000_0000 + 21 * 4);
}

#[test]
fn test_highest_pending() {
    let mut nvic = NvicCore::new();

    // No pending
    assert!(nvic.get_highest_pending().is_none());

    // Set pending but not enabled
    nvic.set_pending(10);
    assert!(nvic.get_highest_pending().is_none());

    // Enable and set pending
    nvic.enable_irq(10);
    assert_eq!(nvic.get_highest_pending(), Some(10));

    // Lower priority (lower value = higher priority)
    nvic.set_priority(10, 50);
    nvic.enable_irq(20);
    nvic.set_pending(20);
    nvic.set_priority(20, 30); // Higher priority
    assert_eq!(nvic.get_highest_pending(), Some(20));
}

#[test]
fn test_acknowledge_and_eoi() {
    let mut nvic = NvicCore::new();

    nvic.enable_irq(5);
    nvic.set_pending(5);

    // Acknowledge
    nvic.acknowledge(5);
    assert!(!nvic.is_pending(5));
    assert!(nvic.is_active(5));
    assert_eq!(nvic.current_irq, Some(5));

    // End of interrupt
    nvic.end_of_interrupt(5);
    assert!(!nvic.is_active(5));
    assert_eq!(nvic.current_irq, None);
}

#[test]
fn test_nvic_core_reset() {
    let mut nvic = NvicCore::new();

    nvic.enable_irq(10);
    nvic.set_pending(10);
    nvic.set_priority(10, 100);

    nvic.reset();

    assert!(!nvic.is_enabled(10));
    assert!(!nvic.is_pending(10));
    assert_eq!(nvic.get_priority(10), 0);
}

// ==================== Register Read/Write Tests ====================

#[test]
fn test_iser_read_write() {
    let mut nvic = NvicCore::new();

    // Write to ISER0
    nvic.write(regs::ISER0, 0xFFFFFFFF);

    // Read back - all bits set
    assert_eq!(nvic.read(regs::ISER0), 0xFFFFFFFF);

    // All IRQs 0-31 enabled
    for irq in 0..32 {
        assert!(nvic.is_enabled(irq));
    }
}

#[test]
fn test_icer_clear_enable() {
    let mut nvic = NvicCore::new();

    nvic.write(regs::ISER0, 0xFFFFFFFF);
    assert_eq!(nvic.read(regs::ISER0), 0xFFFFFFFF);

    // Clear some bits via ICER0
    nvic.write(regs::ICER0, 0x0000_FFFF);

    assert_eq!(nvic.read(regs::ISER0), 0xFFFF_0000);
}

#[test]
fn test_ispr_icpr() {
    let mut nvic = NvicCore::new();

    // Set pending via ISPR
    nvic.write(regs::ISPR0, 0x0000_0001);
    assert!(nvic.is_pending(0));

    // Read back
    assert_eq!(nvic.read(regs::ISPR0), 0x0000_0001);

    // Clear via ICPR
    nvic.write(regs::ICPR0, 0x0000_0001);
    assert!(!nvic.is_pending(0));
}

#[test]
fn test_iabr_read_only() {
    let nvic = NvicCore::new();

    // Read active bits (should be 0)
    assert_eq!(nvic.read(regs::IABR0), 0);
}

#[test]
fn test_ipr_read_write() {
    let mut nvic = NvicCore::new();

    // Write to IPR0
    nvic.write(regs::IPR0, 0x4433_2211);

    assert_eq!(nvic.get_priority(0), 0x11);
    assert_eq!(nvic.get_priority(1), 0x22);
    assert_eq!(nvic.get_priority(2), 0x33);
    assert_eq!(nvic.get_priority(3), 0x44);
}

#[test]
fn test_stir() {
    let mut nvic = NvicCore::new();

    // Trigger software interrupt
    nvic.write(regs::STIR, 10);
    assert!(nvic.is_pending(10));
}

// ==================== Nvic (Dual Core) Tests ====================

#[test]
fn test_nvic_creation() {
    let nvic = Nvic::new();

    assert!(!nvic.get_core(0).is_enabled(0));
    assert!(!nvic.get_core(1).is_enabled(0));
}

#[test]
fn test_nvic_default() {
    let nvic = Nvic::default();
    assert!(!nvic.core0.is_enabled(0));
}

#[test]
fn test_nvic_core_independence() {
    let mut nvic = Nvic::new();

    // Enable IRQ 5 on core 0 only
    nvic.write(BASE0 + regs::ISER0, 1 << 5);

    assert!(nvic.get_core(0).is_enabled(5));
    assert!(!nvic.get_core(1).is_enabled(5));
}

#[test]
fn test_nvic_trigger_irq() {
    let mut nvic = Nvic::new();

    nvic.trigger_irq(10);

    assert!(nvic.get_core(0).is_pending(10));
    assert!(nvic.get_core(1).is_pending(10));
}

#[test]
fn test_nvic_read_core0() {
    let mut nvic = Nvic::new();

    nvic.write(BASE0 + regs::ISER0, 0xFF);
    let val = nvic.read(BASE0 + regs::ISER0);
    assert_eq!(val, 0xFF);
}

#[test]
fn test_nvic_read_core1() {
    let mut nvic = Nvic::new();

    nvic.write(BASE1 + regs::ISER1, 0xFF);
    let val = nvic.read(BASE1 + regs::ISER1);
    assert_eq!(val, 0xFF);
}

#[test]
fn test_nvic_write_core0() {
    let mut nvic = Nvic::new();

    nvic.write(BASE0 + regs::ISER0, 0x12345678);
    assert_eq!(nvic.core0.read(regs::ISER0), 0x12345678);
}

#[test]
fn test_nvic_write_core1() {
    let mut nvic = Nvic::new();

    nvic.write(BASE1 + regs::ISER1, 0x12345678);
    assert_eq!(nvic.core1.read(regs::ISER1), 0x12345678);
}

#[test]
fn test_nvic_reset() {
    let mut nvic = Nvic::new();

    nvic.write(BASE0 + regs::ISER0, 0xFFFFFFFF);
    nvic.write(BASE1 + regs::ISER0, 0xFFFFFFFF);

    nvic.reset();

    assert!(!nvic.core0.is_enabled(0));
    assert!(!nvic.core1.is_enabled(0));
}

#[test]
fn test_nvic_device_id() {
    let nvic = Nvic::new();
    assert_eq!(nvic.id(), DeviceId::NVIC);
}

#[test]
fn test_nvic_get_core_mut() {
    let mut nvic = Nvic::new();

    let core0 = nvic.get_core_mut(0);
    core0.enable_irq(5);

    assert!(nvic.get_core(0).is_enabled(5));
}

#[test]
fn test_nvic_all_iser_registers() {
    let mut nvic = NvicCore::new();

    nvic.write(regs::ISER0, 0xFFFFFFFF);
    nvic.write(regs::ISER1, 0xFFFFFFFF);
    nvic.write(regs::ISER2, 0xFFFFFFFF);
    nvic.write(regs::ISER3, 0xFFFFFFFF);

    // Check all 128 IRQs are enabled
    for irq in 0..128 {
        assert!(nvic.is_enabled(irq));
    }
}

#[test]
fn test_nvic_all_ipr_registers() {
    let mut nvic = NvicCore::new();

    // Write to all priority registers
    for i in 0..16 {
        nvic.write(regs::IPR0 + i * 4, 0xFFFFFFFF);
    }

    // All priorities should be 0xFF
    for irq in 0..64 {
        assert_eq!(nvic.get_priority(irq), 0xFF);
    }
}


#[test]
fn test_highest_pending_includes_lowest_priority_value_255() {
    let mut core = NvicCore::new();
    core.enable_irq(7);
    core.set_priority(7, 255);
    core.set_pending(7);
    assert_eq!(core.get_highest_pending(), Some(7));
}
