use vstd::prelude::*;

verus! {

/// Identifies which peripheral a device model simulates.
#[derive(Debug, Clone, Copy, PartialEq, Eq, Structural)]
pub enum DeviceId {
    ADC,
    BOOTRAM,
    BUSCTRL,
    CORESIGHT,
    DMA,
    GPIO,
    HSTX,
    I2C,
    I2S,
    INTERP,
    MPU,
    NVIC,
    OTP,
    PIO,
    PLIC,
    PLL,
    POWMAN,
    PWM,
    RESETS,
    RTC,
    SHA256,
    SPI,
    SYSINFO,
    SYSTICK,
    TIMER,
    TRNG,
}

} // verus!
