use vstd::prelude::*;

verus! {

pub const USBCTRL: u32 = 1;
pub const UART0: u32 = 2;
pub const UART1: u32 = 4;
pub const SPI0: u32 = 8;
pub const SPI1: u32 = 0x10;
pub const I2C0: u32 = 0x20;
pub const I2C1: u32 = 0x40;
pub const ADC: u32 = 0x80;
pub const PWM: u32 = 0x100;
pub const SIO: u32 = 0x200;
pub const PIO0: u32 = 0x400;
pub const PIO1: u32 = 0x800;
pub const TIMER0: u32 = 0x1000;
pub const TIMER1: u32 = 0x2000;
pub const TRNG: u32 = 0x4000;
pub const TBMAN: u32 = 0x8000;
pub const PLL_USB: u32 = 0x10000;
pub const PLL_SYS: u32 = 0x20000;

} // verus!
