//! Tests of the Trng model.

use rp2350sim_devices::trng::{ctrl, irq, regs, status, Trng, TRNG_BASE};
#[test]
fn test_trng_creation() {
    let trng = Trng::new();
    assert!(!trng.is_enabled());
    assert!(trng.is_ready());
    assert!(trng.is_fifo_empty());
}

#[test]
fn test_trng_enable() {
    let mut trng = Trng::new();

    // Enable TRNG
    trng.write(TRNG_BASE + regs::CTRL, ctrl::ENABLE);
    assert!(trng.is_enabled());

    // FIFO should be filled
    assert!(!trng.is_fifo_empty());
}

#[test]
fn test_trng_disable() {
    let mut trng = Trng::new();

    // Enable then disable
    trng.write(TRNG_BASE + regs::CTRL, ctrl::ENABLE);
    assert!(trng.is_enabled());

    trng.write(TRNG_BASE + regs::CTRL, 0);
    assert!(!trng.is_enabled());
}

#[test]
fn test_trng_read_data() {
    let mut trng = Trng::new();

    // Enable TRNG
    trng.write(TRNG_BASE + regs::CTRL, ctrl::ENABLE);

    // Read random data
    let data = trng.read(TRNG_BASE + regs::DATA);
    // Just check it doesn't panic - value is pseudo-random
    assert!(data != 0 || data == 0); // Always true, just checking read works
}

#[test]
fn test_trng_randomness() {
    let mut trng = Trng::new();

    // Enable TRNG
    trng.write(TRNG_BASE + regs::CTRL, ctrl::ENABLE);

    // Generate multiple random numbers
    let mut values = Vec::new();
    for _ in 0..10 {
        values.push(trng.read(TRNG_BASE + regs::DATA));
    }

    // Check that not all values are the same (very unlikely for a good RNG)
    let first = values[0];
    let all_same = values.iter().all(|&v| v == first);
    assert!(!all_same, "TRNG should produce different values");
}

#[test]
fn test_trng_reset() {
    let mut trng = Trng::new();

    // Enable and fill FIFO
    trng.write(TRNG_BASE + regs::CTRL, ctrl::ENABLE);
    assert!(!trng.is_fifo_empty());

    // Reset via control register
    trng.write(TRNG_BASE + regs::CTRL, ctrl::RESET);

    // Check state is reset
    assert!(trng.is_ready());
    assert!(trng.is_fifo_empty());
}

#[test]
fn test_trng_reseed() {
    let mut trng = Trng::new();

    // Enable TRNG
    trng.write(TRNG_BASE + regs::CTRL, ctrl::ENABLE);

    // Read some data
    let _ = trng.read(TRNG_BASE + regs::DATA);

    // Reseed
    trng.write(TRNG_BASE + regs::CTRL, ctrl::ENABLE | ctrl::RESEED);

    // Should still be enabled and have data
    assert!(trng.is_enabled());
    assert!(!trng.is_fifo_empty());
}

#[test]
fn test_trng_fifo_full() {
    let mut trng = Trng::new();

    // Enable TRNG - should fill FIFO
    trng.write(TRNG_BASE + regs::CTRL, ctrl::ENABLE);

    // Check FIFO is full
    assert!(trng.is_fifo_full());

    // Check status register
    let status = trng.read(TRNG_BASE + regs::STATUS);
    assert_eq!(status & status::FIFO_FULL, status::FIFO_FULL);
}

#[test]
fn test_trng_interrupt_enable() {
    let mut trng = Trng::new();

    // Enable interrupts
    trng.write(TRNG_BASE + regs::INTEN, irq::READY | irq::ERROR);

    let inten = trng.read(TRNG_BASE + regs::INTEN);
    assert_eq!(inten, irq::READY | irq::ERROR);
}

#[test]
fn test_trng_sample_count() {
    let mut trng = Trng::new();

    // Set sample count
    trng.write(TRNG_BASE + regs::SAMPLE_CNT, 64);

    let sample_cnt = trng.read(TRNG_BASE + regs::SAMPLE_CNT);
    assert_eq!(sample_cnt, 64);
}

#[test]
fn test_trng_random_source_enable() {
    let mut trng = Trng::new();

    // Enable random source
    trng.write(TRNG_BASE + regs::RND_SRC_EN, 0x1);

    let rnd_src_en = trng.read(TRNG_BASE + regs::RND_SRC_EN);
    assert_eq!(rnd_src_en, 0x1);
}

#[test]
fn test_trng_device_reset() {
    let mut trng = Trng::new();

    // Modify state
    trng.write(TRNG_BASE + regs::CTRL, ctrl::ENABLE);
    trng.write(TRNG_BASE + regs::SAMPLE_CNT, 128);

    // Reset via Device trait
    trng.reset();

    // Check state is reset
    assert!(!trng.is_enabled());
    assert!(trng.is_ready());
    assert_eq!(trng.sample_cnt, 32); // Default value
}

#[test]
fn test_trng_status_register() {
    let mut trng = Trng::new();

    // Check initial status
    let status = trng.read(TRNG_BASE + regs::STATUS);
    assert_eq!(status & status::READY, status::READY);
    assert_eq!(status & status::FIFO_EMPTY, status::FIFO_EMPTY);

    // Enable and check status
    trng.write(TRNG_BASE + regs::CTRL, ctrl::ENABLE);
    let status = trng.read(TRNG_BASE + regs::STATUS);
    assert_eq!(status & status::FIFO_FULL, status::FIFO_FULL);
}

#[test]
fn test_trng_fifo_level() {
    let mut trng = Trng::new();

    // Enable TRNG
    trng.write(TRNG_BASE + regs::CTRL, ctrl::ENABLE);

    // Check FIFO is not empty
    assert!(!trng.is_fifo_empty());

    // Read one value
    let _ = trng.read(TRNG_BASE + regs::DATA);

    // FIFO should still have values
    assert!(!trng.is_fifo_empty());
}

#[test]
fn test_trng_multiple_reads() {
    let mut trng = Trng::new();

    trng.write(TRNG_BASE + regs::CTRL, ctrl::ENABLE);

    // Read multiple values
    let mut values = Vec::new();
    for _ in 0..10 {
        values.push(trng.read(TRNG_BASE + regs::DATA));
    }

    // All values should be valid u32
    for v in &values {
        assert_ne!(*v, 0); // Very unlikely to be 0
    }
}

#[test]
fn test_trng_clear_interrupt() {
    let mut trng = Trng::new();

    // Enable interrupts
    trng.write(TRNG_BASE + regs::INTEN, irq::READY);

    // Check interrupt enable
    let inten = trng.read(TRNG_BASE + regs::INTEN);
    assert_eq!(inten, irq::READY);
}

#[test]
fn test_trng_consecutive_values_different() {
    let mut trng = Trng::new();

    trng.write(TRNG_BASE + regs::CTRL, ctrl::ENABLE);

    // Get two consecutive values
    let v1 = trng.read(TRNG_BASE + regs::DATA);
    let v2 = trng.read(TRNG_BASE + regs::DATA);

    // They should be different (statistically)
    assert_ne!(v1, v2);
}

#[test]
fn test_trng_bit_distribution() {
    let mut trng = Trng::new();

    trng.write(TRNG_BASE + regs::CTRL, ctrl::ENABLE);

    // Collect samples
    let mut bit_counts = [0u32; 32];
    for _ in 0..100 {
        let value = trng.read(TRNG_BASE + regs::DATA);
        for bit in 0..32 {
            if value & (1 << bit) != 0 {
                bit_counts[bit] += 1;
            }
        }
    }

    // Each bit should have roughly 50% 1s (allow 30-70% range)
    for (bit, &count) in bit_counts.iter().enumerate() {
        assert!(count > 20 && count < 80,
            "Bit {} has count {} which is outside expected range", bit, count);
    }
}

#[test]
fn test_trng_reseed_changes_output() {
    let mut trng = Trng::new();

    trng.write(TRNG_BASE + regs::CTRL, ctrl::ENABLE);

    // Get first value
    let v1 = trng.read(TRNG_BASE + regs::DATA);

    // Reseed
    trng.write(TRNG_BASE + regs::CTRL, ctrl::ENABLE | ctrl::RESEED);

    // Get second value
    let v2 = trng.read(TRNG_BASE + regs::DATA);

    // Values should be different after reseed
    // (Note: This is a probabilistic test, but very likely to pass)
    assert_ne!(v1, v2);
}

#[test]
fn test_trng_disabled_read_returns_zero() {
    let mut trng = Trng::new();

    // Don't enable TRNG
    // Reading data should return 0 or some default
    let data = trng.read(TRNG_BASE + regs::DATA);
    // When disabled, FIFO is empty, so data should be 0
    assert_eq!(data, 0);
}

#[test]
fn test_trng_error_interrupt() {
    let mut trng = Trng::new();

    // Enable error interrupt
    trng.write(TRNG_BASE + regs::INTEN, irq::ERROR);

    let inten = trng.read(TRNG_BASE + regs::INTEN);
    assert_eq!(inten, irq::ERROR);
}

#[test]
fn test_trng_all_interrupt_sources() {
    let mut trng = Trng::new();

    // Enable all interrupts
    let all_irqs = irq::READY | irq::ERROR;
    trng.write(TRNG_BASE + regs::INTEN, all_irqs);

    let inten = trng.read(TRNG_BASE + regs::INTEN);
    assert_eq!(inten, all_irqs);
}


#[test]
fn test_trng_enable_fills_known_sequence() {
    let mut trng = Trng::new();
    trng.write(TRNG_BASE + regs::CTRL, ctrl::ENABLE);
    assert_eq!(trng.fifo.len(), 16);
    assert_eq!(trng.fifo[0], 0x56b9_72ed);
    assert_eq!(trng.fifo[15], 0x8584_c659);
    assert_eq!(trng.seed, 0x94cc_f797_d2b9_e979);
    let status = trng.read(TRNG_BASE + regs::STATUS);
    assert_eq!(status, status::READY | status::FIFO_FULL);
}

#[test]
fn test_trng_enabled_read_takes_last_and_refills() {
    let mut trng = Trng::new();
    trng.write(TRNG_BASE + regs::CTRL, ctrl::ENABLE);
    let data = trng.read(TRNG_BASE + regs::DATA);
    assert_eq!(data, 0x8584_c659);
    assert_eq!(trng.fifo.len(), 16);
    assert_eq!(trng.fifo[14], 0x95ec_17a7);
    assert_eq!(trng.fifo[15], 0x5463_798b);
    assert!(trng.is_fifo_full());
}

#[test]
fn test_trng_disabled_read_drains_without_refill() {
    let mut trng = Trng::new();
    trng.write(TRNG_BASE + regs::CTRL, ctrl::ENABLE);
    trng.write(TRNG_BASE + regs::CTRL, 0);
    for _ in 0..16 {
        let _ = trng.read(TRNG_BASE + regs::DATA);
    }
    assert!(trng.is_fifo_empty());
    let status = trng.read(TRNG_BASE + regs::STATUS);
    assert_eq!(status & status::FIFO_EMPTY, status::FIFO_EMPTY);
    assert_eq!(status & status::FIFO_FULL, 0);
    let seed = trng.seed;
    assert_eq!(trng.read(TRNG_BASE + regs::DATA), 0);
    assert_eq!(trng.seed, seed);
}

#[test]
fn test_trng_reset_command_moves_seed() {
    let mut trng = Trng::new();
    trng.intstat = 3;
    trng.write(TRNG_BASE + regs::CTRL, ctrl::RESET);
    assert_eq!(trng.seed, 0x1234_5678_9ABC_DEF0u64.wrapping_add(0xDEAD_BEEF_CAFE_BABE));
    assert_eq!(trng.intstat, 0);
    assert_eq!(trng.read(TRNG_BASE + regs::STATUS), status::READY | status::FIFO_EMPTY);
    assert!(!trng.is_enabled());
}

#[test]
fn test_trng_reseed_while_disabled_fills() {
    let mut trng = Trng::new();
    trng.write(TRNG_BASE + regs::CTRL, ctrl::RESEED);
    assert!(!trng.is_enabled());
    assert!(trng.is_fifo_full());
}

#[test]
fn test_trng_intstat_write_one_to_clear() {
    let mut trng = Trng::new();
    trng.intstat = irq::READY | irq::ERROR;
    trng.write(TRNG_BASE + regs::INTEN, irq::ERROR);
    assert!(trng.has_interrupt());
    trng.write(TRNG_BASE + regs::INTSTAT, irq::ERROR);
    assert_eq!(trng.read(TRNG_BASE + regs::INTSTAT), irq::READY);
    assert!(!trng.has_interrupt());
}

#[test]
fn test_trng_unknown_register_reads_zero() {
    let mut trng = Trng::new();
    assert_eq!(trng.read(TRNG_BASE + 0x100), 0);
}
