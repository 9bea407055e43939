//! Tests of the GPIO model.

use rp2350sim_devices::gpio::{regs, Gpio, GpioFunction, GPIO_BASE};
#[test]
fn test_gpio_creation() {
    let gpio = Gpio::new();
    assert_eq!(gpio.pin_count(), 48);
}

#[test]
fn test_gpio_direction() {
    let mut gpio = Gpio::new();
    gpio.set_dir(0, true);
    assert!(gpio.pins[0].direction);
}

#[test]
fn test_gpio_output() {
    let mut gpio = Gpio::new();
    gpio.set_dir(0, true);
    gpio.set_output(0, true);
    assert!(gpio.get_value(0));
}

#[test]
fn test_gpio_input() {
    let mut gpio = Gpio::new();
    gpio.set_input(0, true);
    assert!(gpio.get_value(0));
}

#[test]
fn test_gpio_function() {
    let mut gpio = Gpio::new();
    gpio.pins[0].function = GpioFunction::Uart;
    assert_eq!(gpio.pins[0].function, GpioFunction::Uart);
}

#[test]
fn test_gpio_ctrl_register() {
    let mut gpio = Gpio::new();
    // FUNCSEL is bits 12-15, value 4 = Pwm
    gpio.write(GPIO_BASE + regs::GPIO_CTRL_OFFSET, 0x0000_4000);
    assert_eq!(gpio.pins[0].function, GpioFunction::Pwm);
}

#[test]
fn test_gpio_edge_detection() {
    let mut gpio = Gpio::new();

    // Configure rising edge detection on pin 0
    gpio.configure_irq(0, true, false, false, false);

    // Initial state is low
    gpio.set_input(0, false);

    // Rising edge should trigger interrupt
    gpio.set_input(0, true);
    assert!(gpio.has_interrupt(0));

    // Clear interrupt
    gpio.clear_interrupt(0);
    assert!(!gpio.has_interrupt(0));

    // No edge (staying high) should not trigger
    gpio.set_input(0, true);
    assert!(!gpio.has_interrupt(0));
}

#[test]
fn test_gpio_falling_edge_detection() {
    let mut gpio = Gpio::new();

    // Configure falling edge detection on pin 5
    gpio.configure_irq(5, false, true, false, false);

    // Start high
    gpio.set_input(5, true);

    // Falling edge should trigger interrupt
    gpio.set_input(5, false);
    assert!(gpio.has_interrupt(5));
}

#[test]
fn test_gpio_level_detection() {
    let mut gpio = Gpio::new();

    // Configure level high detection on pin 10
    gpio.configure_irq(10, false, false, true, false);

    // Level high should trigger interrupt
    gpio.set_input(10, true);
    assert!(gpio.has_interrupt(10));

    // Clear and set low
    gpio.clear_interrupt(10);
    gpio.set_input(10, false);
    assert!(!gpio.has_interrupt(10));
}


#[test]
fn test_gpio_rising_edge_pends_until_cleared() {
    let mut gpio = Gpio::new();
    gpio.configure_irq(9, true, false, false, false);
    gpio.configure_irq(10, true, false, false, false);
    gpio.set_input(9, true);
    gpio.set_input(10, true);
    assert!(gpio.has_interrupt(9));
    assert!(gpio.has_interrupt(10));
    gpio.clear_interrupt(9);
    assert!(!gpio.has_interrupt(9));
    assert!(gpio.has_interrupt(10));
}
