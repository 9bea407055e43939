# rp2350sim_devices

Register-level models of the RP2350 peripherals (ADC, boot RAM, bus control,
CoreSight, DMA, GPIO, HSTX, I2C, I2S, interpolators, MPU, NVIC, OTP, PIO,
PLIC, PLL, power manager, PWM, resets, RTC, SHA-256, SPI, sysinfo, SysTick,
timers, TRNG), verified with Verus.

Each device lives in `src/<device>/`: `mod.rs` holds the device, its abstract
state (a `View` onto a ghost struct of plain values), the spec functions that
say what each register read returns and what each write does, and the laws
that tie several operations together; the other files hold the register
offsets and bit constants. `src/common/` holds a bounded FIFO, a 32-bit
register with bit fields, and shared configuration and status bits;
`src/bits.rs` collects the bit-vector facts the devices share.

Every device offers `id`, `read(addr)`, `write(addr, value)` and `reset`;
their contracts state the register semantics. Where data leaves the
controller, the contracts speak through the traits that users implement:
`DmaMemory::bytes` (what DMA transfers read and write), `I2cSlave::received`
(the bytes an addressed I2C device receives) and `SpiSlave::exchanges` (the
frames an SPI slave receives and answers). What an implementation of those
traits answers is its own; the library states what it hands over and what it
does with the answer.

`app/` holds what the verified library cannot: the `bitflags`-based interrupt
flag set and the temperature sensor's Celsius setter, which works in floating
point.
