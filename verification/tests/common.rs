//! Tests of the shared building blocks.

use rp2350sim_devices::common::config::ConfigBits;
use rp2350sim_devices::common::status::StatusBits;
use rp2350sim_devices::common::{Fifo, Reg32};

#[test]
fn test_fifo_keeps_order() {
    let mut f: Fifo<u32> = Fifo::new(3);
    assert!(f.is_empty());
    assert!(f.push(1));
    assert!(f.push(2));
    assert_eq!(f.peek(), Some(&1));
    assert_eq!(f.pop(), Some(1));
    assert!(f.push(3));
    assert_eq!(f.pop(), Some(2));
    assert_eq!(f.pop(), Some(3));
    assert_eq!(f.pop(), None);
    assert_eq!(f.peek(), None);
}

#[test]
fn test_fifo_refuses_when_full() {
    let mut f: Fifo<u8> = Fifo::new(2);
    assert!(f.push(10));
    assert!(f.push(20));
    assert!(f.is_full());
    assert!(!f.push(30));
    assert_eq!(f.len(), 2);
    assert_eq!(f.pop(), Some(10));
    assert!(!f.is_full());
    f.clear();
    assert!(f.is_empty());
    assert_eq!(f.len(), 0);
}

#[test]
fn test_fifo_zero_capacity() {
    let mut f: Fifo<u8> = Fifo::new(0);
    assert!(f.is_full());
    assert!(!f.push(1));
    assert!(f.is_empty());
}

#[test]
fn test_reg32_fields() {
    let mut r = Reg32::new(0xFFFF_0000);
    assert_eq!(r.read_field(16, 8), 0xFF);
    assert_eq!(r.read_field(8, 8), 0);
    r.write_field(4, 4, 0x1A);
    assert_eq!(r.get(), 0xFFFF_00A0);
    assert_eq!(r.read_field(4, 4), 0xA);
    r.write_field(28, 8, 0x5);
    assert_eq!(r.get(), 0x5FFF_00A0);
    r.set(7);
    assert_eq!(r.get(), 7);
    assert_eq!(r.read_field(0, 0), 0);
}

#[test]
fn test_reg32_operators() {
    let a = Reg32::new(0b1100);
    let b = Reg32::new(0b1010);
    assert_eq!((a & b).get(), 0b1000);
    assert_eq!((a | b).get(), 0b1110);
    assert_eq!((!a).get(), !0b1100u32);
    assert_eq!(Reg32::default().get(), 0);
}

#[test]
fn test_shared_bits() {
    assert_eq!(ConfigBits::ENABLE | ConfigBits::RESET | ConfigBits::IRQ_ENABLE, 0x7);
    assert_eq!(StatusBits::BUSY | StatusBits::READY | StatusBits::ERROR | StatusBits::ENABLED, 0xF);
}

#[test]
fn test_fifo_k_pushes_then_k_pops() {
    let mut f: Fifo<u16> = Fifo::new(4);
    for x in [11u16, 22, 33, 44] {
        assert!(f.push(x));
    }
    for x in [11u16, 22, 33, 44] {
        assert_eq!(f.peek(), Some(&x));
        assert_eq!(f.pop(), Some(x));
    }
    assert_eq!(f.pop(), None);
    assert!(f.is_empty());
}
