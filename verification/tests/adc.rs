//! Tests of the ADC model.

use rp2350sim_devices::adc::{cs, fcs, regs, Adc, ADC_BASE};
#[test]
fn test_adc_creation() {
    let adc = Adc::new();
    assert!(!adc.is_enabled());
    assert_eq!(adc.get_channel(), 0);
}

#[test]
fn test_adc_enable() {
    let mut adc = Adc::new();
    assert!(!adc.is_enabled());

    adc.write(ADC_BASE + regs::CS, cs::EN);
    assert!(adc.is_enabled());
}

#[test]
fn test_adc_channel_selection() {
    let mut adc = Adc::new();

    // Select channel 2
    adc.write(ADC_BASE + regs::CS, cs::EN | (2 << cs::AINSEL_SHIFT));
    assert_eq!(adc.get_channel(), 2);

    // Select channel 4
    adc.write(ADC_BASE + regs::CS, cs::EN | (4 << cs::AINSEL_SHIFT));
    assert_eq!(adc.get_channel(), 4);
}

#[test]
fn test_adc_value_set_get() {
    let mut adc = Adc::new();

    // Set channel values
    adc.set_value(0, 1000);
    adc.set_value(1, 2000);
    adc.set_value(2, 3000);

    assert_eq!(adc.get_value(0), 1000);
    assert_eq!(adc.get_value(1), 2000);
    assert_eq!(adc.get_value(2), 3000);
}

#[test]
fn test_adc_conversion() {
    let mut adc = Adc::new();

    // Set channel 0 value
    adc.set_value(0, 2048);

    // Enable ADC and select channel 0
    adc.write(ADC_BASE + regs::CS, cs::EN | cs::START_ONCE);

    // Read result
    let result = adc.read(ADC_BASE + regs::RESULT);
    assert_eq!(result & 0xFFF, 2048);
}

#[test]
fn test_adc_temperature_sensor() {
    let mut adc = Adc::new();

    // Enable temperature sensor
    adc.write(ADC_BASE + regs::CS, cs::EN | cs::TS_EN);
    assert!(adc.is_temp_sensor_enabled());
}

#[test]
fn test_adc_fifo() {
    let mut adc = Adc::new();

    // Enable FIFO
    adc.write(ADC_BASE + regs::FCS, fcs::EN);

    // Check FIFO is empty
    let fcs = adc.read(ADC_BASE + regs::FCS);
    assert_eq!(fcs & fcs::EMPTY, fcs::EMPTY);
}

#[test]
fn test_adc_interrupts() {
    let mut adc = Adc::new();

    // Enable interrupt
    adc.write(ADC_BASE + regs::INTE, 0x01);
    assert_eq!(adc.read(ADC_BASE + regs::INTE), 0x01);

    // Force interrupt
    adc.write(ADC_BASE + regs::INTF, 0x01);
    assert_eq!(adc.read(ADC_BASE + regs::INTF), 0x01);
}

#[test]
fn test_adc_value_clamping() {
    let mut adc = Adc::new();

    // Set value above 12-bit range
    adc.set_value(0, 5000);
    // Should be clamped to 4095
    assert_eq!(adc.get_value(0), 4095);

    // Set value below 0 (wrapping)
    adc.set_value(0, 0);
    assert_eq!(adc.get_value(0), 0);
}

#[test]
fn test_adc_clock_divider() {
    let mut adc = Adc::new();

    // Set clock divider
    adc.write(ADC_BASE + regs::DIV, 0x0001_0000);
    assert_eq!(adc.read(ADC_BASE + regs::DIV), 0x0001_0000);

    // Different divider value
    adc.write(ADC_BASE + regs::DIV, 0x00FF_0000);
    assert_eq!(adc.read(ADC_BASE + regs::DIV), 0x00FF_0000);
}

#[test]
fn test_adc_fifo_threshold() {
    let mut adc = Adc::new();

    // Set FIFO threshold to 4
    adc.write(ADC_BASE + regs::FCS, fcs::EN | (4 << 0));
    let fcs = adc.read(ADC_BASE + regs::FCS);
    assert_eq!(fcs & fcs::THRESH_MASK, 4);
}

#[test]
fn test_adc_start_many() {
    let mut adc = Adc::new();

    // Enable continuous sampling
    adc.write(ADC_BASE + regs::CS, cs::EN | cs::START_MANY);
    let cs = adc.read(ADC_BASE + regs::CS);
    assert_eq!(cs & cs::START_MANY, cs::START_MANY);
}

#[test]
fn test_adc_error_status() {
    let mut adc = Adc::new();

    // Check initial error status
    let cs = adc.read(ADC_BASE + regs::CS);
    assert_eq!(cs & cs::ERR, 0);
}

#[test]
fn test_adc_all_channels() {
    let mut adc = Adc::new();

    // Set values for all channels
    for i in 0..4u16 {
        adc.set_value(i as usize, (i + 1) * 1000);
    }

    // Verify all channels
    for i in 0..4 {
        assert_eq!(adc.get_value(i), ((i + 1) * 1000) as u16);
    }
}

#[test]
fn test_adc_reset() {
    let mut adc = Adc::new();

    // Modify state
    adc.write(ADC_BASE + regs::CS, cs::EN);
    adc.write(ADC_BASE + regs::DIV, 0x1234_5678);
    adc.set_value(0, 3000);

    // Reset
    adc.reset();

    // Check state is reset
    assert!(!adc.is_enabled());
    assert_eq!(adc.read(ADC_BASE + regs::DIV), 0);
    assert_eq!(adc.get_value(0), 0);
}

#[test]
fn test_adc_fifo_operations() {
    let mut adc = Adc::new();

    // Enable ADC and FIFO
    adc.write(ADC_BASE + regs::CS, cs::EN);
    adc.write(ADC_BASE + regs::FCS, fcs::EN);

    // Set channel value
    adc.set_value(0, 1234);

    // Perform conversion
    adc.write(ADC_BASE + regs::CS, cs::EN | cs::START_ONCE);

    // Check FIFO level
    let fcs = adc.read(ADC_BASE + regs::FCS);
    let level = (fcs >> 24) & 0x0F;
    assert_eq!(level, 1);

    // Read from FIFO
    let fifo_val = adc.read(ADC_BASE + regs::FIFO);
    assert_eq!(fifo_val & 0xFFF, 1234);
}

#[test]
fn test_adc_fifo_full_empty() {
    let mut adc = Adc::new();

    // Enable ADC and FIFO
    adc.write(ADC_BASE + regs::CS, cs::EN);
    adc.write(ADC_BASE + regs::FCS, fcs::EN);

    // Initially empty
    let fcs = adc.read(ADC_BASE + regs::FCS);
    assert_eq!(fcs & fcs::EMPTY, fcs::EMPTY);
    assert_eq!(fcs & fcs::FULL, 0);

    // Fill FIFO (16 entries max)
    adc.set_value(0, 1000);
    for _ in 0..16 {
        adc.write(ADC_BASE + regs::CS, cs::EN | cs::START_ONCE);
    }

    // Check FIFO is full
    let fcs = adc.read(ADC_BASE + regs::FCS);
    assert_eq!(fcs & fcs::FULL, fcs::FULL);
    assert_eq!(fcs & fcs::EMPTY, 0);
}

#[test]
fn test_adc_continuous_mode() {
    let mut adc = Adc::new();

    // Enable ADC and continuous mode
    adc.set_value(0, 2000);
    adc.write(ADC_BASE + regs::CS, cs::EN | cs::START_MANY);

    // Tick should perform conversion
    adc.tick();
    assert!(adc.is_ready());

    // Result should be updated
    let result = adc.read(ADC_BASE + regs::RESULT);
    assert_eq!(result & 0xFFF, 2000);

    // Change value and tick again
    adc.set_value(0, 3000);
    adc.tick();
    let result = adc.read(ADC_BASE + regs::RESULT);
    assert_eq!(result & 0xFFF, 3000);
}

#[test]
fn test_adc_temperature_reading() {
    let mut adc = Adc::new();

    // Set temperature sensor value (channel 4)
    adc.set_value(4, 2048); // ~27°C typical

    // Enable temperature sensor and start conversion
    adc.write(ADC_BASE + regs::CS, cs::EN | cs::TS_EN | cs::START_ONCE);

    // Read result - should be temperature sensor value
    let result = adc.read(ADC_BASE + regs::RESULT);
    assert_eq!(result & 0xFFF, 2048);
}

#[test]
fn test_adc_interrupt_status() {
    let mut adc = Adc::new();

    // Enable interrupt
    adc.write(ADC_BASE + regs::INTE, 0x01);

    // Set interrupt status
    adc.intr = 0x01;

    // Check interrupt pending
    assert!(adc.has_interrupt());

    // Read INTS (masked interrupt status)
    let ints = adc.read(ADC_BASE + regs::INTS);
    assert_eq!(ints, 0x01);
}

#[test]
fn test_adc_interrupt_force() {
    let mut adc = Adc::new();

    // Force interrupt without enabling
    adc.write(ADC_BASE + regs::INTF, 0x02);

    // Should have interrupt due to force
    assert!(adc.has_interrupt());

    // Clear force
    adc.write(ADC_BASE + regs::INTF, 0x00);
    assert!(!adc.has_interrupt());
}

#[test]
fn test_adc_fifo_error_on_empty_read() {
    let mut adc = Adc::new();

    // Enable FIFO but don't add any data
    adc.write(ADC_BASE + regs::FCS, fcs::EN);

    // Read from empty FIFO
    let fifo_val = adc.read(ADC_BASE + regs::FIFO);

    // Should have error bit set (bit 15)
    assert_eq!(fifo_val & 0x8000, 0x8000);
}

#[test]
fn test_adc_channel_switching() {
    let mut adc = Adc::new();

    // Set different values for each channel
    adc.set_value(0, 1000);
    adc.set_value(1, 2000);
    adc.set_value(2, 3000);
    adc.set_value(3, 4000);

    // Enable ADC
    adc.write(ADC_BASE + regs::CS, cs::EN);

    // Test each channel
    for ch in 0..4u32 {
        adc.write(ADC_BASE + regs::CS, cs::EN | (ch << cs::AINSEL_SHIFT) | cs::START_ONCE);
        let result = adc.read(ADC_BASE + regs::RESULT);
        assert_eq!(result & 0xFFF, (ch + 1) * 1000);
    }
}

#[test]
fn test_adc_ready_flag() {
    let mut adc = Adc::new();

    // Initially not ready
    assert!(!adc.is_ready());

    // Enable and start conversion
    adc.write(ADC_BASE + regs::CS, cs::EN | cs::START_ONCE);

    // Should be ready after conversion
    assert!(adc.is_ready());

    // Read CS to check READY bit
    let cs = adc.read(ADC_BASE + regs::CS);
    assert_eq!(cs & cs::READY, cs::READY);
}

#[test]
fn test_adc_fifo_level_tracking() {
    let mut adc = Adc::new();

    // Enable ADC and FIFO
    adc.write(ADC_BASE + regs::CS, cs::EN);
    adc.write(ADC_BASE + regs::FCS, fcs::EN);
    adc.set_value(0, 1000);

    // Add multiple entries
    for i in 0..5 {
        adc.set_value(0, 1000 + i as u16);
        adc.write(ADC_BASE + regs::CS, cs::EN | cs::START_ONCE);
    }

    // Check FIFO level
    let fcs = adc.read(ADC_BASE + regs::FCS);
    let level = (fcs >> 24) & 0x0F;
    assert_eq!(level, 5);

    // Read some entries
    for _ in 0..3 {
        adc.read(ADC_BASE + regs::FIFO);
    }

    // Check new level
    let fcs = adc.read(ADC_BASE + regs::FCS);
    let level = (fcs >> 24) & 0x0F;
    assert_eq!(level, 2);
}

#[test]
fn test_adc_clear_interrupt() {
    let mut adc = Adc::new();

    // Set interrupt status
    adc.intr = 0x03;

    // Clear by writing 1s
    adc.write(ADC_BASE + regs::INTR, 0x01);
    assert_eq!(adc.intr, 0x02);

    adc.write(ADC_BASE + regs::INTR, 0x02);
    assert_eq!(adc.intr, 0x00);
}

#[test]
fn test_adc_fifo_with_threshold() {
    let mut adc = Adc::new();

    // Enable FIFO with threshold of 4
    adc.write(ADC_BASE + regs::FCS, fcs::EN | (4 << 0));

    // Verify threshold is set
    let fcs = adc.read(ADC_BASE + regs::FCS);
    assert_eq!(fcs & 0x0F, 4);
}

#[test]
fn test_adc_multiple_conversions_same_channel() {
    let mut adc = Adc::new();

    // Enable ADC
    adc.write(ADC_BASE + regs::CS, cs::EN);

    // Perform multiple conversions on same channel
    for i in 0..10 {
        let val = (i * 400) as u16;
        adc.set_value(0, val);
        adc.write(ADC_BASE + regs::CS, cs::EN | cs::START_ONCE);
        let result = adc.read(ADC_BASE + regs::RESULT);
        assert_eq!(result & 0xFFF, val as u32);
    }
}

#[test]
fn test_adc_disabled_no_conversion() {
    let mut adc = Adc::new();

    // Set channel value but don't enable ADC
    adc.set_value(0, 1234);

    // START_ONCE triggers conversion even without EN bit
    // This matches hardware behavior where START_ONCE forces a conversion
    adc.write(ADC_BASE + regs::CS, cs::START_ONCE);

    // Result should be the channel value (START_ONCE forces conversion)
    let result = adc.read(ADC_BASE + regs::RESULT);
    assert_eq!(result & 0xFFF, 1234);
}


#[test]
fn test_adc_one_shot_reads_selected_input() {
    let mut adc = Adc::new();
    adc.set_value(2, 0x123);
    adc.set_value(3, 0x456);
    adc.write(ADC_BASE + regs::FCS, fcs::EN);
    adc.write(ADC_BASE + regs::CS, cs::EN | cs::START_ONCE | (3 << cs::AINSEL_SHIFT));
    assert_eq!(adc.read(ADC_BASE + regs::RESULT), 0x456);
    let status = adc.read(ADC_BASE + regs::CS);
    assert_eq!(status & cs::READY, cs::READY);
    assert_eq!(status & cs::START_ONCE, 0);
    assert_eq!(adc.read(ADC_BASE + regs::FIFO), 0x456);
}

#[test]
fn test_adc_fifo_oldest_first() {
    let mut adc = Adc::new();
    adc.write(ADC_BASE + regs::FCS, fcs::EN);
    adc.set_value(0, 1000);
    adc.write(ADC_BASE + regs::CS, cs::EN | cs::START_ONCE);
    adc.set_value(0, 1001);
    adc.write(ADC_BASE + regs::CS, cs::EN | cs::START_ONCE);
    assert_eq!(adc.read(ADC_BASE + regs::FIFO), 1000);
    assert_eq!(adc.read(ADC_BASE + regs::FIFO), 1001);
}
