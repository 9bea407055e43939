//! Tests of the Interp model.

use rp2350sim_devices::interp::{ctrl, regs, Interp, InterpLane, INTERP0_BASE, INTERP1_BASE};
use rp2350sim_devices::device::DeviceId;

// ==================== Basic Tests ====================

#[test]
fn test_interp_creation() {
    let interp0 = Interp::new(0);
    let interp1 = Interp::new(1);

    assert_eq!(interp0.id, 0);
    assert_eq!(interp1.id, 1);
    assert_eq!(interp0.base(), INTERP0_BASE);
    assert_eq!(interp1.base(), INTERP1_BASE);
}

#[test]
fn test_interp_default() {
    let interp = Interp::default();
    assert_eq!(interp.id, 0);
    assert_eq!(interp.base(), INTERP0_BASE);
}

#[test]
fn test_accumulator_read_write() {
    let mut interp = Interp::new(0);

    // Write to accumulators
    interp.write(INTERP0_BASE + regs::ACCUM0, 0x12345678);
    interp.write(INTERP0_BASE + regs::ACCUM1, 0xDEADBEEF);

    // Read back
    assert_eq!(interp.read(INTERP0_BASE + regs::ACCUM0), 0x12345678);
    assert_eq!(interp.read(INTERP0_BASE + regs::ACCUM1), 0xDEADBEEF);
}

#[test]
fn test_base_read_write() {
    let mut interp = Interp::new(0);

    // Write to base registers
    interp.write(INTERP0_BASE + regs::BASE0, 0x100);
    interp.write(INTERP0_BASE + regs::BASE1, 0x200);
    interp.write(INTERP0_BASE + regs::BASE2, 0x300);

    // Read back
    assert_eq!(interp.read(INTERP0_BASE + regs::BASE0), 0x100);
    assert_eq!(interp.read(INTERP0_BASE + regs::BASE1), 0x200);
    assert_eq!(interp.read(INTERP0_BASE + regs::BASE2), 0x300);
}

#[test]
fn test_base0_and1_register() {
    let mut interp = Interp::new(0);

    // Write to BASE0_AND1 - sets both base registers
    interp.write(INTERP0_BASE + regs::BASE0_AND1, 0x00020001);

    assert_eq!(interp.read(INTERP0_BASE + regs::BASE0), 0x0001);
    assert_eq!(interp.read(INTERP0_BASE + regs::BASE1), 0x0002);

    // Read back via BASE0_AND1
    assert_eq!(interp.read(INTERP0_BASE + regs::BASE0_AND1), 0x00020001);
}

#[test]
fn test_ctrl_lane_settings() {
    let mut interp = Interp::new(0);

    // Set control register with various fields
    let ctrl = (5 << ctrl::SHIFT_SHIFT) | (8 << ctrl::MASK_LSB_SHIFT) | (15 << ctrl::MASK_MSB_SHIFT);
    interp.write(INTERP0_BASE + regs::CTRL_LANE0, ctrl);

    // Read back and verify
    let read_ctrl = interp.read(INTERP0_BASE + regs::CTRL_LANE0);
    assert_eq!(read_ctrl & ctrl::SHIFT_MASK, 5);
    assert_eq!((read_ctrl >> ctrl::MASK_LSB_SHIFT) & 0x1F, 8);
    assert_eq!((read_ctrl >> ctrl::MASK_MSB_SHIFT) & 0x1F, 15);
}

#[test]
fn test_ctrl_signed_mode() {
    let mut interp = Interp::new(0);

    // Test signed mode via CTRL_LANE0_SIGNED
    interp.write(INTERP0_BASE + regs::CTRL_LANE0_SIGNED, 1);
    assert_eq!(interp.read(INTERP0_BASE + regs::CTRL_LANE0_SIGNED), 1);

    interp.write(INTERP0_BASE + regs::CTRL_LANE0_SIGNED, 0);
    assert_eq!(interp.read(INTERP0_BASE + regs::CTRL_LANE0_SIGNED), 0);
}

#[test]
fn test_ctrl_flags() {
    let mut interp = Interp::new(0);

    // Set various flags
    let ctrl = ctrl::SIGNED | ctrl::CROSS_INPUT | ctrl::CROSS_RESULT | ctrl::ADD_RAW;
    interp.write(INTERP0_BASE + regs::CTRL_LANE0, ctrl);

    let read_ctrl = interp.read(INTERP0_BASE + regs::CTRL_LANE0);
    assert_eq!(read_ctrl & ctrl::SIGNED, ctrl::SIGNED);
    assert_eq!(read_ctrl & ctrl::CROSS_INPUT, ctrl::CROSS_INPUT);
    assert_eq!(read_ctrl & ctrl::CROSS_RESULT, ctrl::CROSS_RESULT);
    assert_eq!(read_ctrl & ctrl::ADD_RAW, ctrl::ADD_RAW);
}

// ==================== Compute Tests ====================

#[test]
fn test_peek_lane0() {
    let mut interp = Interp::new(0);

    // Set accumulator and base
    interp.write(INTERP0_BASE + regs::ACCUM0, 100);
    interp.write(INTERP0_BASE + regs::BASE0, 50);

    // Peek should return accum + base (with default mask)
    let result = interp.read(INTERP0_BASE + regs::PEEK_LANE0);
    assert_eq!(result, 150);
}

#[test]
fn test_peek_lane1() {
    let mut interp = Interp::new(0);

    interp.write(INTERP0_BASE + regs::ACCUM1, 200);
    interp.write(INTERP0_BASE + regs::BASE1, 25);

    let result = interp.read(INTERP0_BASE + regs::PEEK_LANE1);
    assert_eq!(result, 225);
}

#[test]
fn test_pop_lane0() {
    let mut interp = Interp::new(0);

    interp.write(INTERP0_BASE + regs::ACCUM0, 0x12345678);

    let result = interp.read(INTERP0_BASE + regs::POP_LANE0);
    assert_eq!(result, 0x12345678); // With default mask, result should equal accum
}

#[test]
fn test_pop_updates_accum() {
    let mut interp = Interp::new(0);

    // Write to POP_LANE0 also sets accum
    interp.write(INTERP0_BASE + regs::POP_LANE0, 0xABCDEF00);

    assert_eq!(interp.read(INTERP0_BASE + regs::ACCUM0), 0xABCDEF00);
}

// ==================== Mask and Shift Tests ====================

#[test]
fn test_mask_extract_bits() {
    let mut interp = Interp::new(0);

    // Configure mask: bits 8-15 (8 bits)
    let ctrl = (8 << ctrl::MASK_LSB_SHIFT) | (15 << ctrl::MASK_MSB_SHIFT);
    interp.write(INTERP0_BASE + regs::CTRL_LANE0, ctrl);

    // Set accumulator with value in bits 8-15
    interp.write(INTERP0_BASE + regs::ACCUM0, 0x00FF0000);
    interp.write(INTERP0_BASE + regs::BASE0, 0);

    let result = interp.read(INTERP0_BASE + regs::PEEK_LANE0);
    // Mask extracts bits 8-15, result should be 0xFF00
    assert_eq!(result, 0xFF00);
}

#[test]
fn test_shift_operation() {
    let mut interp = Interp::new(0);

    // Configure shift by 4
    let ctrl = 4 << ctrl::SHIFT_SHIFT;
    interp.write(INTERP0_BASE + regs::CTRL_LANE0, ctrl);

    interp.write(INTERP0_BASE + regs::ACCUM0, 0x100);
    interp.write(INTERP0_BASE + regs::BASE0, 0);

    let result = interp.read(INTERP0_BASE + regs::PEEK_LANE0);
    // 0x100 >> 4 = 0x10
    assert_eq!(result, 0x10);
}

#[test]
fn test_shift_and_mask_combined() {
    let mut interp = Interp::new(0);

    // Shift by 8, mask bits 0-7
    let ctrl = (8 << ctrl::SHIFT_SHIFT) | (0 << ctrl::MASK_LSB_SHIFT) | (7 << ctrl::MASK_MSB_SHIFT);
    interp.write(INTERP0_BASE + regs::CTRL_LANE0, ctrl);

    // Value: 0x12345678 >> 8 = 0x123456, mask bits 0-7 = 0x56
    interp.write(INTERP0_BASE + regs::ACCUM0, 0x12345678);
    interp.write(INTERP0_BASE + regs::BASE0, 0);

    let result = interp.read(INTERP0_BASE + regs::PEEK_LANE0);
    assert_eq!(result, 0x56);
}

// ==================== Cross Input/Result Tests ====================

#[test]
fn test_cross_input() {
    let mut interp = Interp::new(0);

    // Enable cross input for lane 1
    let ctrl = ctrl::CROSS_INPUT;
    interp.write(INTERP0_BASE + regs::CTRL_LANE1, ctrl);

    // Lane 0 result should be used as input for lane 1
    interp.write(INTERP0_BASE + regs::ACCUM0, 100);
    interp.write(INTERP0_BASE + regs::ACCUM1, 0);
    interp.write(INTERP0_BASE + regs::BASE0, 50);
    interp.write(INTERP0_BASE + regs::BASE1, 0);

    // Lane 1 result = lane 0 result (150) + lane 1 base (0)
    let result1 = interp.read(INTERP0_BASE + regs::PEEK_LANE1);
    assert_eq!(result1, 150);
}

// ==================== Add Raw Mode Tests ====================

#[test]
fn test_add_raw_mode() {
    let mut interp = Interp::new(0);

    // Enable add raw mode
    interp.write(INTERP0_BASE + regs::ADD_RAW, 1);

    let ctrl = ctrl::ADD_RAW;
    interp.write(INTERP0_BASE + regs::CTRL_LANE0, ctrl);

    interp.write(INTERP0_BASE + regs::ACCUM0, 1000);
    interp.write(INTERP0_BASE + regs::BASE0, 500);

    // In add raw mode, result = accum + base directly
    let result = interp.read(INTERP0_BASE + regs::PEEK_LANE0);
    assert_eq!(result, 1500);
}

// ==================== Reset Test ====================

#[test]
fn test_interp_reset() {
    let mut interp = Interp::new(0);

    // Set various values
    interp.write(INTERP0_BASE + regs::ACCUM0, 0x12345678);
    interp.write(INTERP0_BASE + regs::ACCUM1, 0xDEADBEEF);
    interp.write(INTERP0_BASE + regs::BASE0, 0x100);
    interp.write(INTERP0_BASE + regs::BASE1, 0x200);

    // Reset
    interp.reset();

    // Check values are cleared
    assert_eq!(interp.read(INTERP0_BASE + regs::ACCUM0), 0);
    assert_eq!(interp.read(INTERP0_BASE + regs::ACCUM1), 0);
    assert_eq!(interp.read(INTERP0_BASE + regs::BASE0), 0);
    assert_eq!(interp.read(INTERP0_BASE + regs::BASE1), 0);

    // Base address should be preserved
    assert_eq!(interp.base(), INTERP0_BASE);
}

// ==================== Interp1 Tests ====================

#[test]
fn test_interp1_independence() {
    let mut interp0 = Interp::new(0);
    let mut interp1 = Interp::new(1);

    // Write to interp0
    interp0.write(INTERP0_BASE + regs::ACCUM0, 0x11111111);

    // Write to interp1
    interp1.write(INTERP1_BASE + regs::ACCUM0, 0x22222222);

    // Verify they are independent
    assert_eq!(interp0.read(INTERP0_BASE + regs::ACCUM0), 0x11111111);
    assert_eq!(interp1.read(INTERP1_BASE + regs::ACCUM0), 0x22222222);
}

// ==================== Device Trait Tests ====================

#[test]
fn test_interp_device_id() {
    let interp = Interp::new(0);
    assert_eq!(interp.id(), DeviceId::INTERP);
}

#[test]
fn mod_test_invalid_register() {
    let mut interp = Interp::new(0);

    // Read from invalid offset should return 0
    let result = interp.read(INTERP0_BASE + 0x1000);
    assert_eq!(result, 0);

    // Write to invalid offset should be ignored
    interp.write(INTERP0_BASE + 0x1000, 0x12345678);
}

// ==================== Edge Case Tests ====================

#[test]
fn test_mask_full_32bit() {
    let mut interp = Interp::new(0);

    // Default mask should be full 32-bit
    interp.write(INTERP0_BASE + regs::ACCUM0, 0xFFFFFFFF);
    interp.write(INTERP0_BASE + regs::BASE0, 0);

    let result = interp.read(INTERP0_BASE + regs::PEEK_LANE0);
    assert_eq!(result, 0xFFFFFFFF);
}

#[test]
fn test_shift_31() {
    let mut interp = Interp::new(0);

    // Shift by 31
    let ctrl = 31 << ctrl::SHIFT_SHIFT;
    interp.write(INTERP0_BASE + regs::CTRL_LANE0, ctrl);

    interp.write(INTERP0_BASE + regs::ACCUM0, 0x80000000);
    interp.write(INTERP0_BASE + regs::BASE0, 0);

    let result = interp.read(INTERP0_BASE + regs::PEEK_LANE0);
    // 0x80000000 >> 31 = 1
    assert_eq!(result, 1);
}

#[test]
fn test_wrapping_add() {
    let mut interp = Interp::new(0);

    interp.write(INTERP0_BASE + regs::ACCUM0, 0xFFFFFFFF);
    interp.write(INTERP0_BASE + regs::BASE0, 1);

    let result = interp.read(INTERP0_BASE + regs::PEEK_LANE0);
    // Should wrap around
    assert_eq!(result, 0);
}

#[test]
fn test_pop_full() {
    let mut interp = Interp::new(0);

    // Set both accumulators
    interp.write(INTERP0_BASE + regs::ACCUM0, 0x1234);
    interp.write(INTERP0_BASE + regs::ACCUM1, 0x5678);

    // Pop full returns combined result (lower 32 bits)
    let result = interp.read(INTERP0_BASE + regs::POP_FULL);
    // Result depends on implementation; just verify it doesn't panic
    assert!(result >= 0);
}

#[test]
fn test_pop_full_write() {
    let mut interp = Interp::new(0);

    // Write to POP_FULL sets both accumulators (16 bits each)
    interp.write(INTERP0_BASE + regs::POP_FULL, 0x00020001);

    assert_eq!(interp.read(INTERP0_BASE + regs::ACCUM0), 0x0001);
    assert_eq!(interp.read(INTERP0_BASE + regs::ACCUM1), 0x0002);
}

