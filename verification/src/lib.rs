//! Register-level models of RP2350 peripherals.
use vstd::prelude::*;

pub mod adc;
pub mod bits;
pub mod bootram;
pub mod busctrl;
pub mod common;
pub mod coresight;
pub mod dma;
pub mod gpio;
pub mod hstx;
pub mod i2c;
pub mod i2s;
pub mod interp;
pub mod mpu;
pub mod nvic;
pub mod otp;
pub mod pio;
pub mod plic;
pub mod pll;
pub mod powman;
pub mod pwm;
pub mod reset;
pub mod rtc;
pub mod sha256;
pub mod spi;
pub mod sysinfo;
pub mod systick;
pub mod timer;
pub mod trng;
pub mod device;

verus! {

} // verus!
