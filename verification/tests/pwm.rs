//! Tests of the Pwm model.

use rp2350sim_devices::pwm::{csr, regs, Pwm, PWM_BASE};
#[test]
fn test_pwm_creation() {
    let pwm = Pwm::new();
    // Check that all slices have default top value
    for slice in &pwm.slices {
        assert_eq!(slice.top, 0xFFFF);
    }
}

#[test]
fn test_pwm_duty_cycle() {
    let mut pwm = Pwm::new();

    // Set duty cycle for channel 0 (slice 0, channel A)
    pwm.set_duty(0, 0x8000);
    assert_eq!(pwm.get_duty(0), 0x8000);

    // Set duty cycle for channel 1 (slice 0, channel B)
    pwm.set_duty(1, 0x4000);
    assert_eq!(pwm.get_duty(1), 0x4000);

    // Set duty cycle for channel 2 (slice 1, channel A)
    pwm.set_duty(2, 0x2000);
    assert_eq!(pwm.get_duty(2), 0x2000);
}

#[test]
fn test_pwm_slice_enable() {
    let mut pwm = Pwm::new();

    // Enable slice 0
    pwm.write(PWM_BASE + regs::EN, 0x01);
    assert!(pwm.is_slice_enabled(0));
    assert!(!pwm.is_slice_enabled(1));

    // Enable multiple slices
    pwm.write(PWM_BASE + regs::EN, 0x0F);
    assert!(pwm.is_slice_enabled(0));
    assert!(pwm.is_slice_enabled(1));
    assert!(pwm.is_slice_enabled(2));
    assert!(pwm.is_slice_enabled(3));
    assert!(!pwm.is_slice_enabled(4));
}

#[test]
fn test_pwm_register_read_write() {
    let mut pwm = Pwm::new();

    // Test CH0_CSR register
    pwm.write(PWM_BASE + regs::CH0_CSR, csr::EN);
    assert_eq!(pwm.read(PWM_BASE + regs::CH0_CSR), csr::EN);

    // Test CH0_DIV register
    pwm.write(PWM_BASE + regs::CH0_DIV, 0x0010);
    assert_eq!(pwm.read(PWM_BASE + regs::CH0_DIV), 0x0010);

    // Test CH0_TOP register
    pwm.write(PWM_BASE + regs::CH0_TOP, 0x1000);
    assert_eq!(pwm.read(PWM_BASE + regs::CH0_TOP), 0x1000);
}

#[test]
fn test_pwm_counter() {
    let mut pwm = Pwm::new();

    // Set counter value
    pwm.write(PWM_BASE + regs::CH0_CTR, 0x1234);
    assert_eq!(pwm.read(PWM_BASE + regs::CH0_CTR), 0x1234);
}

#[test]
fn test_pwm_compare_values() {
    let mut pwm = Pwm::new();

    // Set compare values for channel A and B
    // CC register format: (B << 16) | A
    pwm.write(PWM_BASE + regs::CH0_CC, 0x2000_1000);
    let cc = pwm.read(PWM_BASE + regs::CH0_CC);
    assert_eq!(cc, 0x2000_1000);

    // Check duty cycle matches
    assert_eq!(pwm.get_duty(0), 0x1000); // Channel A (low 16 bits)
    assert_eq!(pwm.get_duty(1), 0x2000); // Channel B (high 16 bits)
}

#[test]
fn test_pwm_interrupts() {
    let mut pwm = Pwm::new();

    // Enable interrupt for slice 0
    pwm.write(PWM_BASE + regs::INTE, 0x01);
    assert_eq!(pwm.read(PWM_BASE + regs::INTE), 0x01);

    // Force interrupt for slice 0
    pwm.write(PWM_BASE + regs::INTF, 0x01);
    assert_eq!(pwm.read(PWM_BASE + regs::INTF), 0x01);
}

