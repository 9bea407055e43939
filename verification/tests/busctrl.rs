//! Tests of the BusControl model.

use rp2350sim_devices::busctrl::{bus_priority, perf_event, regs, BusControl, BusMaster, PerfCounter, BUSCTRL_BASE};
use rp2350sim_devices::device::DeviceId;
const BASE: u32 = BUSCTRL_BASE;

// ==================== Basic Creation Tests ====================

#[test]
fn test_busctrl_creation() {
    let bus = BusControl::new();

    assert_eq!(bus.priority, 0);
    assert_eq!(bus.priority_ack, 0);

    // All priorities are 0
    assert_eq!(bus.get_priority(BusMaster::Proc0), 0);
    assert_eq!(bus.get_priority(BusMaster::Proc1), 0);
    assert_eq!(bus.get_priority(BusMaster::DmaRead), 0);
    assert_eq!(bus.get_priority(BusMaster::DmaWrite), 0);

    // All performance counters are 0
    for i in 0..4 {
        assert_eq!(bus.get_perf_counter(i), 0);
    }
}

#[test]
fn test_busctrl_default() {
    let bus = BusControl::default();
    assert_eq!(bus.priority, 0);
}

// ==================== Priority Tests ====================

#[test]
fn test_set_priority_proc0() {
    let mut bus = BusControl::new();

    bus.set_priority(BusMaster::Proc0, 50);
    assert_eq!(bus.get_priority(BusMaster::Proc0), 50);
    assert_eq!(bus.priority_ack, 50);
}

#[test]
fn test_set_priority_proc1() {
    let mut bus = BusControl::new();

    bus.set_priority(BusMaster::Proc1, 75);
    assert_eq!(bus.get_priority(BusMaster::Proc1), 75);
}

#[test]
fn test_set_priority_dma_read() {
    let mut bus = BusControl::new();

    bus.set_priority(BusMaster::DmaRead, 100);
    assert_eq!(bus.get_priority(BusMaster::DmaRead), 100);
}

#[test]
fn test_set_priority_dma_write() {
    let mut bus = BusControl::new();

    bus.set_priority(BusMaster::DmaWrite, 200);
    assert_eq!(bus.get_priority(BusMaster::DmaWrite), 200);
}

#[test]
fn test_priority_all_masters() {
    let mut bus = BusControl::new();

    bus.set_priority(BusMaster::Proc0, 10);
    bus.set_priority(BusMaster::Proc1, 20);
    bus.set_priority(BusMaster::DmaRead, 30);
    bus.set_priority(BusMaster::DmaWrite, 40);

    assert_eq!(bus.get_priority(BusMaster::Proc0), 10);
    assert_eq!(bus.get_priority(BusMaster::Proc1), 20);
    assert_eq!(bus.get_priority(BusMaster::DmaRead), 30);
    assert_eq!(bus.get_priority(BusMaster::DmaWrite), 40);
}

#[test]
fn test_priority_register_encoding() {
    let mut bus = BusControl::new();

    // Set all priorities
    bus.set_priority(BusMaster::Proc0, 0x11);
    bus.set_priority(BusMaster::Proc1, 0x22);
    bus.set_priority(BusMaster::DmaRead, 0x33);
    bus.set_priority(BusMaster::DmaWrite, 0x44);

    // Check raw register value
    assert_eq!(bus.priority, 0x44332211);
}

// ==================== Arbitration Tests ====================

#[test]
fn test_arbitrate_no_master() {
    let bus = BusControl::new();
    assert!(bus.arbitrate().is_none());
}

#[test]
fn test_arbitrate_single_master() {
    let mut bus = BusControl::new();

    bus.set_priority(BusMaster::Proc0, 10);
    assert_eq!(bus.arbitrate(), Some(BusMaster::Proc0));
}

#[test]
fn test_arbitrate_highest_priority() {
    let mut bus = BusControl::new();

    bus.set_priority(BusMaster::Proc0, 10);
    bus.set_priority(BusMaster::Proc1, 50);
    bus.set_priority(BusMaster::DmaRead, 30);

    assert_eq!(bus.arbitrate(), Some(BusMaster::Proc1));
}

#[test]
fn test_is_contested() {
    let mut bus = BusControl::new();

    // No masters
    assert!(!bus.is_contested());

    // Single master
    bus.set_priority(BusMaster::Proc0, 10);
    assert!(!bus.is_contested());

    // Two masters
    bus.set_priority(BusMaster::Proc1, 20);
    assert!(bus.is_contested());
}

// ==================== Performance Counter Tests ====================

#[test]
fn test_perf_counter_initial() {
    let bus = BusControl::new();

    for i in 0..4 {
        assert_eq!(bus.get_perf_counter(i), 0);
        assert_eq!(bus.get_perf_event(i), 0);
    }
}

#[test]
fn test_set_perf_event() {
    let mut bus = BusControl::new();

    bus.set_perf_event(0, perf_event::APB);
    assert_eq!(bus.get_perf_event(0), perf_event::APB);

    bus.set_perf_event(1, perf_event::SRAM0);
    assert_eq!(bus.get_perf_event(1), perf_event::SRAM0);

    bus.set_perf_event(2, perf_event::XIP_MAIN);
    assert_eq!(bus.get_perf_event(2), perf_event::XIP_MAIN);

    bus.set_perf_event(3, perf_event::ROM);
    assert_eq!(bus.get_perf_event(3), perf_event::ROM);
}

#[test]
fn test_perf_event_masked() {
    let mut bus = BusControl::new();

    // Event is 5-bit (0x1F mask)
    bus.set_perf_event(0, 0xFF);
    assert_eq!(bus.get_perf_event(0), 0x1F);
}

#[test]
fn test_perf_event_invalid_index() {
    let mut bus = BusControl::new();

    bus.set_perf_event(4, 5);
    assert_eq!(bus.get_perf_event(4), 0);
}

#[test]
fn test_record_access() {
    let mut bus = BusControl::new();

    bus.set_perf_event(0, perf_event::APB);

    bus.record_access(perf_event::APB);
    assert_eq!(bus.get_perf_counter(0), 1);

    bus.record_access(perf_event::APB);
    assert_eq!(bus.get_perf_counter(0), 2);
}

#[test]
fn test_record_access_multiple_counters() {
    let mut bus = BusControl::new();

    bus.set_perf_event(0, perf_event::APB);
    bus.set_perf_event(1, perf_event::SRAM0);

    bus.record_access(perf_event::APB);
    bus.record_access(perf_event::SRAM0);
    bus.record_access(perf_event::APB);

    assert_eq!(bus.get_perf_counter(0), 2);
    assert_eq!(bus.get_perf_counter(1), 1);
}

#[test]
fn test_record_access_wrapping() {
    let mut bus = BusControl::new();

    bus.set_perf_event(0, perf_event::APB);
    bus.perf_counters[0].value = 0xFFFFFFFF;

    bus.record_access(perf_event::APB);
    assert_eq!(bus.get_perf_counter(0), 0); // Wraps to 0
}

// ==================== Register Read/Write Tests ====================

#[test]
fn test_read_bus_priority() {
    let mut bus = BusControl::new();

    bus.priority = 0x12345678;
    assert_eq!(bus.read(BASE + regs::BUS_PRIORITY), 0x12345678);
}

#[test]
fn test_read_bus_priority_ack() {
    let mut bus = BusControl::new();

    bus.priority_ack = 0x99;
    assert_eq!(bus.read(BASE + regs::BUS_PRIORITY_ACK), 0x99);
}

#[test]
fn test_read_perf_priority() {
    let mut bus = BusControl::new();

    bus.perf_priority[0] = 100;
    bus.perf_priority[5] = 200;
    bus.perf_priority[11] = 300;

    assert_eq!(bus.read(BASE + regs::BUS_PRIORITY_PERF0), 100);
    assert_eq!(bus.read(BASE + regs::BUS_PRIORITY_PERF5), 200);
    assert_eq!(bus.read(BASE + regs::BUS_PRIORITY_PERF11), 300);
}

#[test]
fn test_write_bus_priority() {
    let mut bus = BusControl::new();

    bus.write(BASE + regs::BUS_PRIORITY, 0x12345678);
    assert_eq!(bus.priority, 0x12345678);
}

#[test]
fn test_write_perf_priority() {
    let mut bus = BusControl::new();

    bus.write(BASE + regs::BUS_PRIORITY_PERF0, 100);
    assert_eq!(bus.perf_priority[0], 100);

    bus.write(BASE + regs::BUS_PRIORITY_PERF11, 300);
    assert_eq!(bus.perf_priority[11], 300);
}

#[test]
fn test_read_perf_counter() {
    let mut bus = BusControl::new();

    bus.perf_counters[0].value = 1000;
    bus.perf_counters[3].value = 5000;

    assert_eq!(bus.read(BASE + regs::PERFCTR0), 1000);
    assert_eq!(bus.read(BASE + regs::PERFCTR3), 5000);
}

#[test]
fn test_write_perf_counter() {
    let mut bus = BusControl::new();

    bus.write(BASE + regs::PERFCTR0, 1000);
    assert_eq!(bus.perf_counters[0].value, 1000);

    bus.write(BASE + regs::PERFCTR3, 5000);
    assert_eq!(bus.perf_counters[3].value, 5000);
}

#[test]
fn test_read_perfsel() {
    let mut bus = BusControl::new();

    bus.set_perf_event(0, perf_event::APB);
    bus.set_perf_event(3, perf_event::ROM);

    assert_eq!(bus.read(BASE + regs::PERFSEL0), perf_event::APB);
    assert_eq!(bus.read(BASE + regs::PERFSEL3), perf_event::ROM);
}

#[test]
fn test_write_perfsel() {
    let mut bus = BusControl::new();

    bus.write(BASE + regs::PERFSEL0, perf_event::SRAM5);
    assert_eq!(bus.get_perf_event(0), perf_event::SRAM5);
}

#[test]
fn test_read_invalid_register() {
    let mut bus = BusControl::new();
    assert_eq!(bus.read(BASE + 0x1000), 0);
}

#[test]
fn test_write_invalid_register() {
    let mut bus = BusControl::new();
    // Should not panic
    bus.write(BASE + 0x1000, 0xFFFFFFFF);
}

// ==================== Device Trait Tests ====================

#[test]
fn mod_test_device_id() {
    let bus = BusControl::new();
    assert_eq!(bus.id(), DeviceId::BUSCTRL);
}

#[test]
fn mod_test_device_reset() {
    let mut bus = BusControl::new();

    bus.priority = 0x12345678;
    bus.perf_counters[0].value = 1000;
    bus.set_perf_event(0, perf_event::APB);

    bus.reset();

    assert_eq!(bus.priority, 0);
    assert_eq!(bus.get_perf_counter(0), 0);
    assert_eq!(bus.get_perf_event(0), 0);
}

// ==================== BusMaster Enum Tests ====================

#[test]
fn test_bus_master_values() {
    assert_eq!(BusMaster::Proc0 as u8, 0);
    assert_eq!(BusMaster::Proc1 as u8, 1);
    assert_eq!(BusMaster::DmaRead as u8, 2);
    assert_eq!(BusMaster::DmaWrite as u8, 3);
}

#[test]
fn test_bus_master_equality() {
    assert_eq!(BusMaster::Proc0, BusMaster::Proc0);
    assert_ne!(BusMaster::Proc0, BusMaster::Proc1);
}

// ==================== PerfCounter Tests ====================

#[test]
fn test_perf_counter_default() {
    let counter = PerfCounter::default();
    assert_eq!(counter.value, 0);
    assert_eq!(counter.event, 0);
}

#[test]
fn test_perf_counter_clone() {
    let counter = PerfCounter { value: 100, event: 5 };
    let cloned = counter.clone();
    assert_eq!(cloned.value, 100);
    assert_eq!(cloned.event, 5);
}

