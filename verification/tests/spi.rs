//! Tests of the Spi model.

use rp2350sim_devices::spi::{cr1, imsc, regs, sr, Spi, SpiSlave, SPI0_BASE};
#[test]
fn test_spi_creation() {
    let spi = Spi::spi0();
    assert_eq!(spi.base(), SPI0_BASE);
}

#[test]
fn test_spi_enable() {
    let mut spi = Spi::spi0();
    assert!(!spi.is_enabled());
    spi.cr1 = cr1::SSE;
    assert!(spi.is_enabled());
}

#[test]
fn test_spi_loopback() {
    let mut spi = Spi::spi0();
    spi.cr1 = cr1::SSE;
    spi.set_loopback(true);

    let rx = spi.transfer(0xAB);
    assert_eq!(rx, Some(0xAB));
}

#[test]
fn test_spi_clock_polarity() {
    let mut spi = Spi::spi0();
    spi.set_clock_polarity(true);
    assert!(spi.get_clock_polarity());

    spi.set_clock_polarity(false);
    assert!(!spi.get_clock_polarity());
}

#[test]
fn test_spi_clock_phase() {
    let mut spi = Spi::spi0();
    spi.set_clock_phase(true);
    assert!(spi.get_clock_phase());

    spi.set_clock_phase(false);
    assert!(!spi.get_clock_phase());
}

#[test]
fn test_spi_fifo_operations() {
    let mut spi = Spi::spi0();
    spi.cr1 = cr1::SSE; // Enable SPI

    // Check initial status - TX FIFO should be empty
    let sr = spi.read(SPI0_BASE + regs::SSPSR);
    assert_eq!(sr & sr::TFE, sr::TFE); // TX FIFO empty
    assert_eq!(sr & sr::TNF, sr::TNF); // TX FIFO not full

    // Write to TX FIFO via DR register
    spi.write(SPI0_BASE + regs::SSPDR, 0x55);

    // Check status after write
    let sr = spi.read(SPI0_BASE + regs::SSPSR);
    assert_eq!(sr & sr::TFE, 0); // TX FIFO not empty
}

#[test]
fn test_spi_transfer_with_slave() {
    let mut spi = Spi::spi0();
    spi.cr1 = cr1::SSE; // Enable SPI

    // Create a simple slave that echoes back the received byte + 1
    struct EchoSlave;
    impl SpiSlave for EchoSlave {
        fn transfer(&mut self, data: u16) -> u16 {
            data.wrapping_add(1)
        }
    }

    spi.set_slave(EchoSlave);

    // Transfer should return slave's response
    let rx = spi.transfer(0x42);
    assert_eq!(rx, Some(0x43));
}

#[test]
fn test_spi_register_read_write() {
    let mut spi = Spi::spi0();

    // Test CR0 register
    spi.write(SPI0_BASE + regs::SSPCR0, 0x0007); // 8-bit data
    assert_eq!(spi.read(SPI0_BASE + regs::SSPCR0), 0x0007);

    // Test CR1 register
    spi.write(SPI0_BASE + regs::SSPCR1, cr1::SSE);
    assert_eq!(spi.read(SPI0_BASE + regs::SSPCR1), cr1::SSE);

    // Test CPSR register
    spi.write(SPI0_BASE + regs::SSPCPSR, 128);
    assert_eq!(spi.read(SPI0_BASE + regs::SSPCPSR), 128);
}

#[test]
fn test_spi_status_register() {
    let spi = Spi::spi0();

    // Check initial status (read doesn't require mutable)
    let sr = spi.sr;
    assert_eq!(sr & sr::TFE, sr::TFE); // TX FIFO empty
    assert_eq!(sr & sr::TNF, sr::TNF); // TX FIFO not full
    assert_eq!(sr & sr::RNE, 0);       // RX FIFO empty
}

#[test]
fn test_spi_interrupt_status() {
    let mut spi = Spi::spi0();

    // Set interrupt mask
    spi.write(SPI0_BASE + regs::SSPIMSC, imsc::TXIM);
    assert_eq!(spi.read(SPI0_BASE + regs::SSPIMSC), imsc::TXIM);

    // Check raw interrupt status
    let ris = spi.read(SPI0_BASE + regs::SSPRIS);
    // TX interrupt should be set since TX FIFO is empty
    assert_eq!(ris & imsc::TXIM, imsc::TXIM);
}


#[test]
fn test_spi_loopback_data_register_echo() {
    let mut spi = Spi::spi0();
    spi.write(SPI0_BASE + regs::SSPCR1, cr1::SSE | cr1::LBM);
    spi.write(SPI0_BASE + regs::SSPDR, 0x5A);
    assert_eq!(spi.read(SPI0_BASE + regs::SSPDR), 0x5A);
}
