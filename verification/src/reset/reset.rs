use vstd::prelude::*;

verus! {

pub const USBCTRL: u32 = 1;
pub const UART0: u32 = 2;
pub const UART1: u32 = 4;
pub const SPI0: u32 = 8;
pub const SPI1: u32 = 0x10;
pub const I2C0: u32 = 0x20;
pub const I2C1: u32 = 0x40;
pub const ADC: u32 = 0x80;
pub const PWM: u32 = 0x100;
pub const SIO: u32 = 0x200;
pub const PIO0: u32 = 0x400;
pub const PIO1: u32 = 0x800;
pub const TIMER0: u32 = 0x1000;
pub const TIMER1: u32 = 0x2000;
pub const SPI_USB: u32 = 0x4000;
pub const UART_USB: u32 = 0x8000;
pub const ADC_ALT: u32 = 0x10000;
pub const PIO0_ALT: u32 = 0x20000;
pub const PIO1_ALT: u32 = 0x40000;
pub const I2C0_ALT: u32 = 0x80000;
pub const I2C1_ALT: u32 = 0x100000;
pub const SPI0_ALT: u32 = 0x200000;
pub const SPI1_ALT: u32 = 0x400000;
pub const UART0_ALT: u32 = 0x800000;
pub const UART1_ALT: u32 = 0x1000000;
pub const HSTX: u32 = 0x2000000;
pub const TIMER2: u32 = 0x4000000;
pub const TIMER3: u32 = 0x8000000;
pub const TRNG: u32 = 0x10000000;
pub const TBMAN: u32 = 0x20000000;
pub const PLL_USB: u32 = 0x40000000;
pub const PLL_SYS: u32 = 0x80000000;

} // verus!
