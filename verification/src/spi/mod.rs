//! SPI controller (PL022): control and status registers, FIFOs, loopback and
//! an attached slave device.
use vstd::prelude::*;
use std::collections::VecDeque;

use crate::device::DeviceId;

pub mod cr0;
pub mod cr1;
pub mod imsc;
pub mod regs;
pub mod sr;

verus! {

/// SPI0 base address.
pub const SPI0_BASE: u32 = 0x4003_C000;

/// SPI1 base address.
pub const SPI1_BASE: u32 = 0x4004_0000;

/// FIFO depth.
pub const FIFO_SIZE: usize = 8;

/// A device on the SPI bus: every transfer sends a frame and returns one.
///
/// An implementation records its exchanges in `exchanges`; the devices of this
/// library do. The default, an empty record, is for implementations that
/// keep none, and those do not meet `transfer`'s contract.
pub trait SpiSlave: Send + Sync {
    /// Frames exchanged so far, oldest first: each frame received with the
    /// frame answered.
    open spec fn exchanges(&self) -> Seq<(u16, u16)> {
        Seq::empty()
    }

    /// Exchange one frame.
    fn transfer(&mut self, tx_data: u16) -> (r: u16)
        ensures
            final(self).exchanges() == old(self).exchanges().push((tx_data, r)),
    ;
}

/// The attached slave device.
pub struct SpiSlot {
    pub device: Box<dyn SpiSlave>,
}

/// Box a device as a trait object (std's `Box::new` with unsizing coercion).
/// Claimed: the boxed object is the same device, so its record of exchanges
/// is the device's.
#[verifier::external_body]
fn box_spi_slave<S: SpiSlave + 'static>(slave: S) -> (r: SpiSlot)
    ensures
        r.device.exchanges() == slave.exchanges(),
{
    SpiSlot { device: Box::new(slave) }
}

/// SPI controller.
pub struct Spi {
    /// Base address.
    pub base: u32,
    /// Control register 0.
    pub cr0: u32,
    /// Control register 1.
    pub cr1: u32,
    /// Status register.
    pub sr: u32,
    /// Clock prescale register.
    pub cpsr: u32,
    /// Interrupt mask.
    pub imsc: u32,
    /// Raw interrupt status.
    pub ris: u32,
    /// DMA control.
    pub dmacr: u32,
    /// TX FIFO.
    pub tx_fifo: VecDeque<u16>,
    /// RX FIFO.
    pub rx_fifo: VecDeque<u16>,
    /// Loopback mode.
    pub loopback: bool,
    /// Attached slave device.
    pub slave: Option<SpiSlot>,
}

/// Abstract state of the controller; of the slave its presence and its
/// record of exchanges.
#[verifier::ext_equal]
pub ghost struct SpiState {
    pub base: u32,
    pub cr0: u32,
    pub cr1: u32,
    pub sr: u32,
    pub cpsr: u32,
    pub imsc: u32,
    pub ris: u32,
    pub dmacr: u32,
    pub tx: Seq<u16>,
    pub rx: Seq<u16>,
    pub loopback: bool,
    pub has_slave: bool,
    pub slave_exchanges: Seq<(u16, u16)>,
}

impl View for Spi {
    type V = SpiState;

    open spec fn view(&self) -> SpiState {
        SpiState {
            base: self.base,
            cr0: self.cr0,
            cr1: self.cr1,
            sr: self.sr,
            cpsr: self.cpsr,
            imsc: self.imsc,
            ris: self.ris,
            dmacr: self.dmacr,
            tx: self.tx_fifo@,
            rx: self.rx_fifo@,
            loopback: self.loopback,
            has_slave: self.slave is Some,
            slave_exchanges: match self.slave {
                Some(slot) => slot.device.exchanges(),
                None => Seq::empty(),
            },
        }
    }
}

/// Base address of an SPI instance.
pub open spec fn base_of_id(id: u8) -> u32 {
    if id == 0 { SPI0_BASE } else { SPI1_BASE }
}

impl SpiState {
    pub open spec fn initial(id: u8) -> SpiState {
        SpiState {
            base: base_of_id(id),
            cr0: 0,
            cr1: 0,
            sr: sr::TFE | sr::TNF,
            cpsr: 0,
            imsc: 0,
            ris: imsc::TXIM,
            dmacr: 0,
            tx: Seq::empty(),
            rx: Seq::empty(),
            loopback: false,
            has_slave: false,
            slave_exchanges: Seq::empty(),
        }
    }

    pub open spec fn enabled(self) -> bool {
        self.cr1 & cr1::SSE != 0
    }

    /// Status and raw interrupts recomputed from the FIFOs.
    pub open spec fn status_updated(self) -> SpiState {
        let s0 = 0u32;
        let s1 = if self.tx.len() == 0 { s0 | sr::TFE } else { s0 };
        let s2 = if self.tx.len() < FIFO_SIZE { s1 | sr::TNF } else { s1 };
        let s3 = if self.rx.len() != 0 { s2 | sr::RNE } else { s2 };
        let s4 = if self.rx.len() >= FIFO_SIZE { s3 | sr::RFF } else { s3 };
        let s5 = if self.tx.len() != 0 || self.rx.len() != 0 { s4 | sr::BSY } else { s4 };
        let r1 = if self.tx.len() <= FIFO_SIZE / 2 {
            self.ris | imsc::TXIM
        } else {
            self.ris & !imsc::TXIM
        };
        let r2 = if self.rx.len() >= FIFO_SIZE / 2 { r1 | imsc::RXIM } else { r1 & !imsc::RXIM };
        SpiState { sr: s5, ris: r2, ..self }
    }

    /// What a transfer of `tx` may answer: nothing while disabled, the frame
    /// itself in loopback, zero without a slave, and otherwise whatever the
    /// slave returns.
    pub open spec fn transfer_answer(self, tx: u16, rx: Option<u16>) -> bool {
        if !self.enabled() {
            rx is None
        } else if self.loopback {
            rx == Some(tx)
        } else if !self.has_slave {
            rx == Some(0u16)
        } else {
            rx is Some
        }
    }

    /// A transfer is handed to the slave: enabled, not in loopback, and a
    /// slave attached.
    pub open spec fn asks_slave(self) -> bool {
        self.enabled() && !self.loopback && self.has_slave
    }

    /// State after a transfer of `tx` that answered `rx`: a slave that was
    /// asked has recorded receiving `tx` and answering `rx`.
    pub open spec fn after_transfer(self, tx: u16, rx: Option<u16>) -> SpiState {
        if self.asks_slave() {
            match rx {
                Some(v) => SpiState { slave_exchanges: self.slave_exchanges.push((tx, v)), ..self },
                None => self,
            }
        } else {
            self
        }
    }

    /// Effect of a data write when the TX FIFO has room and the transfer
    /// answered `rx`.
    pub open spec fn data_written(self, tx: u16, rx: Option<u16>) -> SpiState {
        let s = SpiState { tx: self.tx.push(tx), ..self.after_transfer(tx, rx) };
        let t = match rx {
            Some(v) => SpiState { rx: s.rx.push(v), ..s },
            None => s,
        };
        t.status_updated()
    }

    pub open spec fn read_value(self, offset: u32) -> u32 {
        if offset == regs::SSPCR0 {
            self.cr0
        } else if offset == regs::SSPCR1 {
            self.cr1
        } else if offset == regs::SSPDR {
            if self.rx.len() > 0 { self.rx[0] as u32 } else { 0 }
        } else if offset == regs::SSPSR {
            self.sr
        } else if offset == regs::SSPCPSR {
            self.cpsr
        } else if offset == regs::SSPIMSC {
            self.imsc
        } else if offset == regs::SSPRIS {
            self.ris
        } else if offset == regs::SSPMIS {
            self.ris & self.imsc
        } else if offset == regs::SSPDMACR {
            self.dmacr
        } else if offset == regs::SSPPERIPHID0 {
            0x22
        } else if offset == regs::SSPPERIPHID1 {
            0x10
        } else if offset == regs::SSPPERIPHID2 {
            0x34
        } else if offset == regs::SSPPERIPHID3 {
            0x00
        } else if offset == regs::SSPPCELLID0 {
            0x0D
        } else if offset == regs::SSPPCELLID1 {
            0xF0
        } else if offset == regs::SSPPCELLID2 {
            0x05
        } else if offset == regs::SSPPCELLID3 {
            0xB1
        } else {
            0
        }
    }

    /// A read of the data register pops the RX FIFO and updates the status.
    pub open spec fn after_read(self, offset: u32) -> SpiState {
        if offset == regs::SSPDR {
            SpiState { rx: if self.rx.len() > 0 { self.rx.drop_first() } else { self.rx }, ..self }.status_updated()
        } else {
            self
        }
    }

    /// Effect of a register write other than a data write.
    pub open spec fn after_write(self, offset: u32, value: u32) -> SpiState {
        if offset == regs::SSPCR0 {
            SpiState { cr0: value, ..self }
        } else if offset == regs::SSPCR1 {
            SpiState { cr1: value & 0x0F, loopback: value & cr1::LBM != 0, ..self }
        } else if offset == regs::SSPCPSR {
            SpiState { cpsr: value & 0xFE, ..self }
        } else if offset == regs::SSPIMSC {
            SpiState { imsc: value & 0x0F, ..self }
        } else if offset == regs::SSPICR {
            SpiState { ris: self.ris & !value, ..self }
        } else if offset == regs::SSPDMACR {
            SpiState { dmacr: value & 0x03, ..self }
        } else {
            self
        }
    }
}

/// In loopback, a frame written to the data register with the receive FIFO empty
/// is the next value the data register reads.
pub proof fn lemma_loopback_echo(s: SpiState, tx: u16, rx: Option<u16>)
    requires
        s.enabled(),
        s.loopback,
        s.rx.len() == 0,
        s.transfer_answer(tx, rx),
    ensures
        s.data_written(tx, rx).read_value(regs::SSPDR) == tx as u32,
{
}

impl Spi {
    /// Create SPI0 or SPI1 (any id other than 0 selects SPI1's address).
    pub fn new(id: u8) -> (r: Self)
        ensures
            r@ == SpiState::initial(id),
    {
        Spi {
            base: if id == 0 { SPI0_BASE } else { SPI1_BASE },
            cr0: 0,
            cr1: 0,
            sr: sr::TFE | sr::TNF,
            cpsr: 0,
            imsc: 0,
            ris: imsc::TXIM,
            dmacr: 0,
            tx_fifo: VecDeque::with_capacity(FIFO_SIZE),
            rx_fifo: VecDeque::with_capacity(FIFO_SIZE),
            loopback: false,
            slave: None,
        }
    }

    /// Create SPI0.
    pub fn spi0() -> (r: Self)
        ensures
            r@ == SpiState::initial(0),
    {
        Spi::new(0)
    }

    /// Create SPI1.
    pub fn spi1() -> (r: Self)
        ensures
            r@ == SpiState::initial(1),
    {
        Spi::new(1)
    }

    /// Device identifier.
    pub fn id(&self) -> (r: DeviceId)
        ensures
            r == DeviceId::SPI,
    {
        DeviceId::SPI
    }

    /// Get base address.
    pub fn base(&self) -> (r: u32)
        ensures
            r == self.base,
    {
        self.base
    }

    /// Check if enabled.
    pub fn is_enabled(&self) -> (r: bool)
        ensures
            r == self@.enabled(),
    {
        (self.cr1 & cr1::SSE) != 0
    }

    /// Master mode: the MS bit is clear.
    pub fn is_master(&self) -> (r: bool)
        ensures
            r == (self.cr1 & cr1::MS == 0),
    {
        (self.cr1 & cr1::MS) == 0
    }

    /// Clock polarity (CPOL).
    pub fn get_clock_polarity(&self) -> (r: bool)
        ensures
            r == (self.cr0 & cr0::SPO != 0),
    {
        (self.cr0 & cr0::SPO) != 0
    }

    /// Set clock polarity.
    pub fn set_clock_polarity(&mut self, value: bool)
        ensures
            final(self)@ == (SpiState {
                cr0: if value { old(self).cr0 | cr0::SPO } else { old(self).cr0 & !cr0::SPO },
                ..old(self)@
            }),
    {
        if value {
            self.cr0 = self.cr0 | cr0::SPO;
        } else {
            self.cr0 = self.cr0 & !cr0::SPO;
        }
    }

    /// Clock phase (CPHA).
    pub fn get_clock_phase(&self) -> (r: bool)
        ensures
            r == (self.cr0 & cr0::SPH != 0),
    {
        (self.cr0 & cr0::SPH) != 0
    }

    /// Set clock phase.
    pub fn set_clock_phase(&mut self, value: bool)
        ensures
            final(self)@ == (SpiState {
                cr0: if value { old(self).cr0 | cr0::SPH } else { old(self).cr0 & !cr0::SPH },
                ..old(self)@
            }),
    {
        if value {
            self.cr0 = self.cr0 | cr0::SPH;
        } else {
            self.cr0 = self.cr0 & !cr0::SPH;
        }
    }

    /// Frame size in bits: the DSS field plus one.
    pub fn get_data_size(&self) -> (r: u8)
        ensures
            r == (self.cr0 & cr0::DSS_MASK) + 1,
    {
        proof {
            crate::bits::lemma_word_facts(self.cr0, 0);
        }
        ((self.cr0 & cr0::DSS_MASK) as u8) + 1
    }

    /// Get clock divider.
    pub fn get_clock_divider(&self) -> (r: u32)
        ensures
            r == self.cpsr,
    {
        self.cpsr
    }

    /// Set loopback mode (and the LBM bit).
    pub fn set_loopback(&mut self, value: bool)
        ensures
            final(self)@ == (SpiState {
                loopback: value,
                cr1: if value { old(self).cr1 | cr1::LBM } else { old(self).cr1 & !cr1::LBM },
                ..old(self)@
            }),
    {
        self.loopback = value;
        if value {
            self.cr1 = self.cr1 | cr1::LBM;
        } else {
            self.cr1 = self.cr1 & !cr1::LBM;
        }
    }

    /// Chip select is driven through GPIO; the controller ignores it.
    pub fn set_cs(&mut self, _cs: usize, _value: bool)
        ensures
            final(self)@ == old(self)@,
    {
    }

    /// Chip select reads inactive (high).
    pub fn get_cs(&self, _cs: usize) -> (r: bool)
        ensures
            r,
    {
        true
    }

    /// Exchange one frame: nothing while disabled, the frame itself in
    /// loopback, the slave's answer when one is attached (the slave receives
    /// the frame), zero otherwise.
    pub fn transfer(&mut self, tx_data: u16) -> (r: Option<u16>)
        ensures
            old(self)@.transfer_answer(tx_data, r),
            final(self)@ == old(self)@.after_transfer(tx_data, r),
    {
        if !self.is_enabled() {
            return None;
        }
        if self.loopback {
            return Some(tx_data);
        }
        match &mut self.slave {
            Some(slot) => {
                let rx = slot.device.transfer(tx_data);
                Some(rx)
            },
            None => Some(0),
        }
    }

    /// Attach a slave device.
    pub fn set_slave<S: SpiSlave + Send + 'static>(&mut self, slave: S)
        ensures
            final(self)@ == (SpiState {
                has_slave: true,
                slave_exchanges: slave.exchanges(),
                ..old(self)@
            }),
    {
        self.slave = Some(box_spi_slave(slave));
    }

    /// Recompute the status register and the FIFO level interrupts.
    fn update_sr(&mut self)
        ensures
            final(self)@ == old(self)@.status_updated(),
    {
        let mut s: u32 = 0;
        if self.tx_fifo.len() == 0 {
            s = s | sr::TFE;
        }
        if self.tx_fifo.len() < FIFO_SIZE {
            s = s | sr::TNF;
        }
        if self.rx_fifo.len() != 0 {
            s = s | sr::RNE;
        }
        if self.rx_fifo.len() >= FIFO_SIZE {
            s = s | sr::RFF;
        }
        if self.tx_fifo.len() != 0 || self.rx_fifo.len() != 0 {
            s = s | sr::BSY;
        }
        self.sr = s;
        if self.tx_fifo.len() <= FIFO_SIZE / 2 {
            self.ris = self.ris | imsc::TXIM;
        } else {
            self.ris = self.ris & !imsc::TXIM;
        }
        if self.rx_fifo.len() >= FIFO_SIZE / 2 {
            self.ris = self.ris | imsc::RXIM;
        } else {
            self.ris = self.ris & !imsc::RXIM;
        }
    }

    /// Check if there's a pending interrupt.
    pub fn has_interrupt(&self) -> (r: bool)
        ensures
            r == ((self.ris & self.imsc) != 0),
    {
        (self.ris & self.imsc) != 0
    }

    /// Register read; a data read pops the RX FIFO.
    pub fn read(&mut self, addr: u32) -> (r: u32)
        requires
            addr >= old(self).base,
        ensures
            r == old(self)@.read_value((addr - old(self).base) as u32),
            final(self)@ == old(self)@.after_read((addr - old(self).base) as u32),
    {
        let offset = addr - self.base;
        if offset == regs::SSPCR0 {
            self.cr0
        } else if offset == regs::SSPCR1 {
            self.cr1
        } else if offset == regs::SSPDR {
            let data = match self.rx_fifo.pop_front() {
                Some(v) => v,
                None => 0,
            };
            self.update_sr();
            data as u32
        } else if offset == regs::SSPSR {
            self.sr
        } else if offset == regs::SSPCPSR {
            self.cpsr
        } else if offset == regs::SSPIMSC {
            self.imsc
        } else if offset == regs::SSPRIS {
            self.ris
        } else if offset == regs::SSPMIS {
            self.ris & self.imsc
        } else if offset == regs::SSPDMACR {
            self.dmacr
        } else if offset == regs::SSPPERIPHID0 {
            0x22
        } else if offset == regs::SSPPERIPHID1 {
            0x10
        } else if offset == regs::SSPPERIPHID2 {
            0x34
        } else if offset == regs::SSPPERIPHID3 {
            0x00
        } else if offset == regs::SSPPCELLID0 {
            0x0D
        } else if offset == regs::SSPPCELLID1 {
            0xF0
        } else if offset == regs::SSPPCELLID2 {
            0x05
        } else if offset == regs::SSPPCELLID3 {
            0xB1
        } else {
            0
        }
    }

    /// Register write; a data write with room in the TX FIFO queues the
    /// frame, transfers it and queues the answer.
    pub fn write(&mut self, addr: u32, value: u32)
        requires
            addr >= old(self).base,
        ensures
            (addr - old(self).base) as u32 != regs::SSPDR ==> final(self)@ == old(self)@.after_write(
                (addr - old(self).base) as u32,
                value,
            ),
            (addr - old(self).base) as u32 == regs::SSPDR && old(self)@.tx.len() >= FIFO_SIZE
                ==> final(self)@ == old(self)@,
            (addr - old(self).base) as u32 == regs::SSPDR && old(self)@.tx.len() < FIFO_SIZE
                ==> exists|rx: Option<u16>|
                #[trigger] old(self)@.transfer_answer(value as u16, rx) && final(self)@ == old(
                    self,
                )@.data_written(value as u16, rx),
    {
        let offset = addr - self.base;
        if offset == regs::SSPCR0 {
            self.cr0 = value;
        } else if offset == regs::SSPCR1 {
            self.cr1 = value & 0x0F;
            self.loopback = (value & cr1::LBM) != 0;
        } else if offset == regs::SSPDR {
            if self.tx_fifo.len() < FIFO_SIZE {
                let tx_data = value as u16;
                self.tx_fifo.push_back(tx_data);
                let ghost pushed = self@;
                let answer = self.transfer(tx_data);
                proof {
                    assert(old(self)@.transfer_answer(tx_data, answer));
                }
                if let Some(rx_data) = answer {
                    self.rx_fifo.push_back(rx_data);
                }
                self.update_sr();
                assert(self@ == old(self)@.data_written(tx_data, answer));
            }
        } else if offset == regs::SSPCPSR {
            self.cpsr = value & 0xFE;
        } else if offset == regs::SSPIMSC {
            self.imsc = value & 0x0F;
        } else if offset == regs::SSPICR {
            self.ris = self.ris & !value;
        } else if offset == regs::SSPDMACR {
            self.dmacr = value & 0x03;
        }
    }

    /// Return to the power-on state, keeping the base address; the slave is
    /// detached.
    pub fn reset(&mut self)
        ensures
            final(self)@ == (SpiState { base: old(self).base, ..SpiState::initial(if old(self).base == SPI0_BASE { 0 } else { 1 }) }),
    {
        let base = self.base;
        *self = Spi::new(if base == SPI0_BASE { 0 } else { 1 });
        self.base = base;
    }
}

impl Default for Spi {
    fn default() -> (r: Self)
        ensures
            r@ == SpiState::initial(0),
    {
        Spi::new(0)
    }
}

/// Loopback slave (returns the transmitted frame).
pub struct LoopbackSlave {
    pub history: Ghost<Seq<(u16, u16)>>,
}

impl LoopbackSlave {
    pub fn new() -> (r: Self)
        ensures
            r.exchanges() == Seq::<(u16, u16)>::empty(),
    {
        LoopbackSlave { history: Ghost(Seq::empty()) }
    }
}

impl SpiSlave for LoopbackSlave {
    open spec fn exchanges(&self) -> Seq<(u16, u16)> {
        self.history@
    }

    fn transfer(&mut self, tx_data: u16) -> (r: u16)
        ensures
            r == tx_data,
    {
        self.history = Ghost(self.history@.push((tx_data, tx_data)));
        tx_data
    }
}

/// SPI flash slave: a command byte, up to four address bytes, then data
/// from consecutive addresses.
pub struct SpiFlash {
    pub data: Vec<u8>,
    pub address: u32,
    pub command: u8,
    pub state: u8,
    pub history: Ghost<Seq<(u16, u16)>>,
}

/// Abstract state of a flash device.
#[verifier::ext_equal]
pub ghost struct SpiFlashState {
    pub data: Seq<u8>,
    pub address: u32,
    pub command: u8,
    pub state: u8,
}

impl View for SpiFlash {
    type V = SpiFlashState;

    open spec fn view(&self) -> SpiFlashState {
        SpiFlashState {
            data: self.data@,
            address: self.address,
            command: self.command,
            state: self.state,
        }
    }
}

impl SpiFlashState {
    /// Protocol step for one received byte: the first byte is the command,
    /// the next four shift into the address, later bytes only clock data.
    pub open spec fn received(self, byte: u8) -> SpiFlashState {
        if self.state == 0 {
            SpiFlashState { command: byte, state: 1, address: 0, ..self }
        } else if 1 <= self.state <= 4 {
            SpiFlashState {
                address: (self.address << 8u32) | (byte as u32),
                state: (self.state + 1) as u8,
                ..self
            }
        } else {
            self
        }
    }

    /// Byte answered at the current address (0xFF past the end).
    pub open spec fn answer(self) -> u16 {
        if self.address < self.data.len() { self.data[self.address as int] as u16 } else { 0xFF }
    }

    /// The address advances (wrapping) after a byte inside the memory.
    pub open spec fn advanced(self) -> SpiFlashState {
        if self.address < self.data.len() {
            SpiFlashState {
                address: vstd::wrapping::u32_specs::wrapping_add(self.address, 1),
                ..self
            }
        } else {
            self
        }
    }
}

impl SpiFlash {
    /// A flash of `size` erased (0xFF) bytes.
    pub fn new(size: usize) -> (r: Self)
        ensures
            r@ == (SpiFlashState {
                data: Seq::new(size as nat, |i: int| 0xFFu8),
                address: 0,
                command: 0,
                state: 0,
            }),
            r.exchanges() == Seq::<(u16, u16)>::empty(),
    {
        let data = vec![0xFFu8; size];
        assert(data@ =~= Seq::new(size as nat, |i: int| 0xFFu8));
        SpiFlash { data, address: 0, command: 0, state: 0, history: Ghost(Seq::empty()) }
    }

    /// Copy bytes into the flash at `offset`, dropping what does not fit.
    pub fn load(&mut self, offset: usize, data: &[u8])
        requires
            offset <= old(self).data@.len(),
            offset + data@.len() <= usize::MAX,
        ensures
            final(self)@ == (SpiFlashState {
                data: Seq::new(
                    old(self).data@.len(),
                    |i: int|
                        if offset <= i < offset + data@.len() {
                            data@[i - offset]
                        } else {
                            old(self).data@[i]
                        },
                ),
                ..old(self)@
            }),
    {
        let total = offset + data.len();
        let end = if total < self.data.len() { total } else { self.data.len() };
        let mut i = offset;
        while i < end
            invariant
                offset <= i,
                i <= end || i == offset,
                end <= self.data@.len(),
                self.data@.len() == old(self).data@.len(),
                end == (if offset + data@.len() < old(self).data@.len() {
                    offset + data@.len()
                } else {
                    old(self).data@.len() as int
                }),
                forall|j: int|
                    0 <= j < self.data@.len() ==> self.data@[j] == (if offset <= j < i {
                        data@[j - offset]
                    } else {
                        old(self).data@[j]
                    }),
                self.address == old(self).address,
                self.command == old(self).command,
                self.state == old(self).state,
            decreases end - i,
        {
            self.data.set(i, data[i - offset]);
            i = i + 1;
        }
        assert(self@.data =~= Seq::new(
            old(self).data@.len(),
            |j: int|
                if offset <= j < offset + data@.len() {
                    data@[j - offset]
                } else {
                    old(self).data@[j]
                },
        ));
    }
}

impl SpiSlave for SpiFlash {
    open spec fn exchanges(&self) -> Seq<(u16, u16)> {
        self.history@
    }

    fn transfer(&mut self, tx_data: u16) -> (r: u16)
        ensures
            r == old(self)@.received(tx_data as u8).answer(),
            final(self)@ == old(self)@.received(tx_data as u8).advanced(),
    {
        let byte = tx_data as u8;
        if self.state == 0 {
            self.command = byte;
            self.state = 1;
            self.address = 0;
        } else if 1 <= self.state && self.state <= 4 {
            self.address = (self.address << 8) | (byte as u32);
            self.state = self.state + 1;
        }
        let addr = self.address as usize;
        let r: u16 = if addr < self.data.len() {
            self.address = self.address.wrapping_add(1);
            self.data[addr] as u16
        } else {
            0xFF
        };
        self.history = Ghost(self.history@.push((tx_data, r)));
        r
    }
}

} // verus!
