//! Tests of the I2S model.

use rp2350sim_devices::i2s::{ctrl, fmt, regs, AudioFormat, DataWidth, I2s, I2sChannel, I2S0_BASE, I2S1_BASE};
use rp2350sim_devices::device::DeviceId;

// ==================== Basic Tests ====================

#[test]
fn test_i2s_creation() {
    let i2s0 = I2s::new(0);
    let i2s1 = I2s::new(1);

    assert_eq!(i2s0.id, 0);
    assert_eq!(i2s1.id, 1);
    assert_eq!(i2s0.base(), I2S0_BASE);
    assert_eq!(i2s1.base(), I2S1_BASE);
}

#[test]
fn test_i2s_default() {
    let i2s = I2s::default();
    assert_eq!(i2s.id, 0);
    assert_eq!(i2s.base(), I2S0_BASE);
    assert_eq!(i2s.get_sample_rate(), 48000);
    assert_eq!(i2s.get_data_width(), DataWidth::Bits16);
    assert_eq!(i2s.get_audio_format(), AudioFormat::I2S);
}

#[test]
fn test_i2s_enable_disable() {
    let mut i2s = I2s::new(0);

    assert!(!i2s.is_enabled());

    // Enable via IER register
    i2s.write(I2S0_BASE + regs::IER, 1);
    assert!(i2s.is_enabled());

    // Disable
    i2s.write(I2S0_BASE + regs::IER, 0);
    assert!(!i2s.is_enabled());
}

#[test]
fn test_ctrl_register() {
    let mut i2s = I2s::new(0);

    // Write control register
    i2s.write(I2S0_BASE + regs::CTRL, ctrl::I2S_EN | ctrl::TX_EN | ctrl::RX_EN);

    let ctrl_val = i2s.read(I2S0_BASE + regs::CTRL);
    assert_eq!(ctrl_val & ctrl::I2S_EN, ctrl::I2S_EN);
    assert_eq!(ctrl_val & ctrl::TX_EN, ctrl::TX_EN);
    assert_eq!(ctrl_val & ctrl::RX_EN, ctrl::RX_EN);
}

// ==================== TX/RX Tests ====================

#[test]
fn test_tx_enable() {
    let mut i2s = I2s::new(0);

    i2s.write(I2S0_BASE + regs::CTRL, ctrl::TX_EN);
    assert!(i2s.channel.tx_enabled);

    // Verify via ITER register
    assert_eq!(i2s.read(I2S0_BASE + regs::ITER), 1);
}

#[test]
fn test_rx_enable() {
    let mut i2s = I2s::new(0);

    i2s.write(I2S0_BASE + regs::CTRL, ctrl::RX_EN);
    assert!(i2s.channel.rx_enabled);

    // Verify via IRER register
    assert_eq!(i2s.read(I2S0_BASE + regs::IRER), 1);
}

#[test]
fn test_tx_pause() {
    let mut i2s = I2s::new(0);

    i2s.write(I2S0_BASE + regs::CTRL, ctrl::TX_EN | ctrl::TX_PAUSE);

    assert!(i2s.channel.tx_enabled);
    assert!(i2s.channel.tx_pause);
}

#[test]
fn test_rx_pause() {
    let mut i2s = I2s::new(0);

    i2s.write(I2S0_BASE + regs::CTRL, ctrl::RX_EN | ctrl::RX_PAUSE);

    assert!(i2s.channel.rx_enabled);
    assert!(i2s.channel.rx_pause);
}

// ==================== FIFO Tests ====================

#[test]
fn test_tx_fifo_write() {
    let mut i2s = I2s::new(0);

    // Write to TX FIFO
    i2s.write(I2S0_BASE + regs::TXDR, 0x12345678);

    assert_eq!(i2s.tx_fifo_level(), 1);

    // Pop sample
    let sample = i2s.pop_tx_sample().unwrap();
    assert_eq!(sample.0 as u16, 0x5678); // Left
    assert_eq!(sample.1 as u16, 0x1234); // Right
}

#[test]
fn test_rx_fifo_read() {
    let mut i2s = I2s::new(0);

    // Push sample to RX FIFO
    i2s.push_rx_sample(-1000, 2000);

    assert_eq!(i2s.rx_fifo_level(), 1);

    // Read via register
    let data = i2s.read(I2S0_BASE + regs::RXDR);
    assert_eq!(data & 0xFFFF, (-1000i16 as u16) as u32);
    assert_eq!((data >> 16) & 0xFFFF, 2000 as u32);
}

#[test]
fn test_fifo_clear() {
    let mut i2s = I2s::new(0);

    // Add data to both FIFOs
    i2s.write(I2S0_BASE + regs::TXDR, 0x12345678);
    i2s.push_rx_sample(100, 200);

    assert_eq!(i2s.tx_fifo_level(), 1);
    assert_eq!(i2s.rx_fifo_level(), 1);

    // Clear
    i2s.write(I2S0_BASE + regs::CLR, 1);

    assert_eq!(i2s.tx_fifo_level(), 0);
    assert_eq!(i2s.rx_fifo_level(), 0);
}

#[test]
fn test_fifo_levels() {
    let mut i2s = I2s::new(0);

    // Fill TX FIFO partially
    for i in 0..10 {
        i2s.write(I2S0_BASE + regs::TXDR, i);
    }

    let level = i2s.read(I2S0_BASE + regs::TXFIFOLR);
    assert_eq!(level, 10);
}

#[test]
fn mod_test_fifo_full() {
    let mut i2s = I2s::new(0);

    // Fill TX FIFO to capacity (32 entries)
    for i in 0..32 {
        assert!(i2s.write_tx_fifo(i));
    }

    // Next write should fail
    assert!(!i2s.write_tx_fifo(999));
    assert_eq!(i2s.tx_fifo_level(), 32);
}

// ==================== Format Tests ====================

#[test]
fn test_data_width_8bit() {
    let mut i2s = I2s::new(0);

    let fmt = 0 << fmt::DATA_WIDTH_SHIFT;
    i2s.write(I2S0_BASE + regs::FMT, fmt);

    assert_eq!(i2s.get_data_width(), DataWidth::Bits8);
}

#[test]
fn test_data_width_16bit() {
    let mut i2s = I2s::new(0);

    let fmt = 1 << fmt::DATA_WIDTH_SHIFT;
    i2s.write(I2S0_BASE + regs::FMT, fmt);

    assert_eq!(i2s.get_data_width(), DataWidth::Bits16);
}

#[test]
fn test_data_width_24bit() {
    let mut i2s = I2s::new(0);

    let fmt = 2 << fmt::DATA_WIDTH_SHIFT;
    i2s.write(I2S0_BASE + regs::FMT, fmt);

    assert_eq!(i2s.get_data_width(), DataWidth::Bits24);
}

#[test]
fn test_data_width_32bit() {
    let mut i2s = I2s::new(0);

    let fmt = 3 << fmt::DATA_WIDTH_SHIFT;
    i2s.write(I2S0_BASE + regs::FMT, fmt);

    assert_eq!(i2s.get_data_width(), DataWidth::Bits32);
}

#[test]
fn test_audio_format_i2s() {
    let mut i2s = I2s::new(0);

    i2s.write(I2S0_BASE + regs::FMT, fmt::I2S);
    assert_eq!(i2s.get_audio_format(), AudioFormat::I2S);
}

#[test]
fn test_audio_format_left_justified() {
    let mut i2s = I2s::new(0);

    i2s.write(I2S0_BASE + regs::FMT, fmt::LEFT_JUSTIFIED);
    assert_eq!(i2s.get_audio_format(), AudioFormat::LeftJustified);
}

#[test]
fn test_audio_format_right_justified() {
    let mut i2s = I2s::new(0);

    i2s.write(I2S0_BASE + regs::FMT, fmt::RIGHT_JUSTIFIED);
    assert_eq!(i2s.get_audio_format(), AudioFormat::RightJustified);
}

#[test]
fn test_channels() {
    let mut i2s = I2s::new(0);

    // 1 channel
    let fmt = 0 << fmt::CHANNELS_SHIFT;
    i2s.write(I2S0_BASE + regs::FMT, fmt);
    assert_eq!(i2s.channels, 1);

    // 2 channels
    let fmt = 1 << fmt::CHANNELS_SHIFT;
    i2s.write(I2S0_BASE + regs::FMT, fmt);
    assert_eq!(i2s.channels, 2);

    // 4 channels
    let fmt = 2 << fmt::CHANNELS_SHIFT;
    i2s.write(I2S0_BASE + regs::FMT, fmt);
    assert_eq!(i2s.channels, 4);

    // 8 channels
    let fmt = 3 << fmt::CHANNELS_SHIFT;
    i2s.write(I2S0_BASE + regs::FMT, fmt);
    assert_eq!(i2s.channels, 8);
}

// ==================== Clock Tests ====================

#[test]
fn test_clock_enable() {
    let mut i2s = I2s::new(0);

    assert!(!i2s.clock_enabled);

    i2s.write(I2S0_BASE + regs::CER, 1);
    assert!(i2s.clock_enabled);

    // Verify via CER register
    assert_eq!(i2s.read(I2S0_BASE + regs::CER), 1);
}

#[test]
fn test_sample_rate() {
    let mut i2s = I2s::new(0);

    i2s.write(I2S0_BASE + regs::CLOCK, 44100);

    assert_eq!(i2s.get_sample_rate(), 44100);
    assert_eq!(i2s.mclk_freq, 44100 * 256);
}

#[test]
fn test_clock_ratio() {
    let mut i2s = I2s::new(0);

    i2s.write(I2S0_BASE + regs::RATIO, 512);

    assert_eq!(i2s.ratio, 512);
    assert_eq!(i2s.mclk_freq, i2s.sample_rate * 512);
}

// ==================== DMA Tests ====================

#[test]
fn test_dma_control() {
    let mut i2s = I2s::new(0);

    i2s.write(I2S0_BASE + regs::DMA, 0x03);
    assert_eq!(i2s.read(I2S0_BASE + regs::DMA), 0x03);
}

#[test]
fn test_dma_tx_enable() {
    let mut i2s = I2s::new(0);

    i2s.write(I2S0_BASE + regs::CTRL, ctrl::DMA_TX_EN);

    let ctrl = i2s.read(I2S0_BASE + regs::CTRL);
    assert_eq!(ctrl & ctrl::DMA_TX_EN, ctrl::DMA_TX_EN);
}

// ==================== Interrupt Tests ====================

#[test]
fn test_interrupt_control() {
    let mut i2s = I2s::new(0);

    i2s.write(I2S0_BASE + regs::INTCR, 0xFF);
    assert_eq!(i2s.read(I2S0_BASE + regs::INTCR), 0xFF);
}

#[test]
fn test_interrupt_status() {
    let mut i2s = I2s::new(0);

    i2s.intsr = 0x0F;
    assert_eq!(i2s.read(I2S0_BASE + regs::INTSR), 0x0F);
}

#[test]
fn test_has_interrupt() {
    let mut i2s = I2s::new(0);

    assert!(!i2s.has_interrupt());

    i2s.intcr = 0x01;
    i2s.intsr = 0x01;

    assert!(i2s.has_interrupt());
}

// ==================== Reset Test ====================

#[test]
fn test_i2s_reset() {
    let mut i2s = I2s::new(0);

    // Set various values
    i2s.write(I2S0_BASE + regs::IER, 1);
    i2s.write(I2S0_BASE + regs::CTRL, ctrl::TX_EN | ctrl::RX_EN);
    i2s.write(I2S0_BASE + regs::TXDR, 0x12345678);
    i2s.write(I2S0_BASE + regs::CLOCK, 96000);

    // Reset
    i2s.reset();

    // Check values are reset
    assert!(!i2s.is_enabled());
    assert_eq!(i2s.tx_fifo_level(), 0);
    assert_eq!(i2s.rx_fifo_level(), 0);
    assert_eq!(i2s.get_sample_rate(), 48000); // Default

    // Base address should be preserved
    assert_eq!(i2s.base(), I2S0_BASE);
}

// ==================== I2S1 Independence Tests ====================

#[test]
fn test_i2s1_independence() {
    let mut i2s0 = I2s::new(0);
    let mut i2s1 = I2s::new(1);

    // Write to I2S0
    i2s0.write(I2S0_BASE + regs::TXDR, 0x11111111);

    // Write to I2S1
    i2s1.write(I2S1_BASE + regs::TXDR, 0x22222222);

    // Verify they are independent
    assert_eq!(i2s0.tx_fifo_level(), 1);
    assert_eq!(i2s1.tx_fifo_level(), 1);

    let sample0 = i2s0.pop_tx_sample().unwrap();
    let sample1 = i2s1.pop_tx_sample().unwrap();

    assert_ne!(sample0, sample1);
}

// ==================== Device Trait Tests ====================

#[test]
fn test_i2s_device_id() {
    let i2s = I2s::new(0);
    assert_eq!(i2s.id(), DeviceId::I2S);
}

#[test]
fn test_invalid_register() {
    let mut i2s = I2s::new(0);

    // Read from invalid offset should return 0
    let result = i2s.read(I2S0_BASE + 0x1000);
    assert_eq!(result, 0);

    // Write to invalid offset should be ignored
    i2s.write(I2S0_BASE + 0x1000, 0x12345678);
}

// ==================== Audio Sample Tests ====================

#[test]
fn test_stereo_sample_conversion() {
    let mut i2s = I2s::new(0);

    // Push stereo sample
    i2s.push_rx_sample(-32768, 32767); // Min and max 16-bit values

    // Pop via register
    let data = i2s.read(I2S0_BASE + regs::RXDR);
    assert_eq!(data & 0xFFFF, (-32768i16 as u16) as u32);
    assert_eq!((data >> 16) & 0xFFFF, 32767 as u32);
}

#[test]
fn test_sample_count() {
    let mut i2s = I2s::new(0);

    // Write multiple samples
    for _ in 0..5 {
        i2s.write_tx_fifo(0x12345678);
    }

    assert_eq!(i2s.channel.tx_count, 5);
}

#[test]
fn test_tick_no_crash() {
    let mut i2s = I2s::new(0);

    // Tick should not crash even when disabled
    i2s.tick();

    // Enable and tick
    i2s.write(I2S0_BASE + regs::IER, 1);
    i2s.write(I2S0_BASE + regs::CER, 1);
    i2s.tick();
}


#[test]
fn test_i2s_fifos_first_in_first_out() {
    let mut i2s = I2s::new(0);
    i2s.write_tx_fifo(0x0002_0001);
    i2s.write_tx_fifo(0x0004_0003);
    assert_eq!(i2s.pop_tx_sample(), Some((1, 2)));
    assert_eq!(i2s.pop_tx_sample(), Some((3, 4)));
    assert_eq!(i2s.pop_tx_sample(), None);
    i2s.push_rx_sample(5, 6);
    i2s.push_rx_sample(7, 8);
    assert_eq!(i2s.read_rx_fifo(), Some(0x0006_0005));
    assert_eq!(i2s.read_rx_fifo(), Some(0x0008_0007));
    assert_eq!(i2s.read_rx_fifo(), None);
}
