//! I2C controller (master side) with virtual slave devices on the bus.
use vstd::prelude::*;

use std::collections::VecDeque;

use crate::device::DeviceId;

pub mod con;
pub mod data_cmd;
pub mod intr;
pub mod regs;
pub mod status;

verus! {

/// I2C base addresses.
pub const I2C0_BASE: u32 = 0x4004_4000;

pub const I2C1_BASE: u32 = 0x4004_8000;

/// FIFO depth.
pub const FIFO_SIZE: usize = 16;

/// TX_ABRT_SOURCE bit: the address byte was not acknowledged.
pub const ABRT_7B_ADDR_NOACK: u32 = 0x80;

/// TX_ABRT_SOURCE bit: a data byte was not acknowledged.
pub const ABRT_TXDATA_NOACK: u32 = 0x100;

/// IC_COMP_VERSION value.
pub const COMP_VERSION: u32 = 0x3130_322A;

/// IC_COMP_TYPE value.
pub const COMP_TYPE: u32 = 0x4457_0140;

/// A device on the bus. Implementations answer to one address that reads and
/// writes do not change.
pub trait I2cSlave: Send + Sync {
    /// Address the device answers to.
    spec fn address_spec(&self) -> u8;

    /// Bytes the device has received, oldest first.
    spec fn received(&self) -> Seq<u8>;

    /// The address is this device's.
    fn match_address(&self, addr: u8) -> (r: bool)
        ensures
            r == (addr == self.address_spec()),
    ;

    /// Receive a byte.
    fn write(&mut self, data: u8)
        ensures
            final(self).address_spec() == old(self).address_spec(),
            final(self).received() == old(self).received().push(data),
    ;

    /// Send a byte.
    fn read(&mut self, ack: bool) -> (r: u8)
        ensures
            final(self).address_spec() == old(self).address_spec(),
            final(self).received() == old(self).received(),
    ;
}

/// A device attached to the bus.
pub struct SlaveSlot {
    pub device: Box<dyn I2cSlave>,
}

/// Box a device as a trait object (std's `Box::new` with unsizing coercion).
/// Claimed: the boxed object is the same device, so its address and the bytes
/// it has received are the device's.
#[verifier::external_body]
fn box_slave<S: I2cSlave + 'static>(slave: S) -> (r: SlaveSlot)
    ensures
        r.device.address_spec() == slave.address_spec(),
        r.device.received() == slave.received(),
{
    SlaveSlot { device: Box::new(slave) }
}

/// Transfer state of the controller.
#[derive(Debug, Clone, Copy, PartialEq, Eq, Structural)]
pub enum I2cState {
    Idle,
    Start,
    Address,
    ReadData,
    WriteData,
    Stop,
}

/// I2C controller.
pub struct I2c {
    pub base: u32,
    pub con: u32,
    pub tar: u16,
    pub sar: u16,
    pub hs_maddr: u8,
    pub ss_scl_hcnt: u16,
    pub ss_scl_lcnt: u16,
    pub fs_scl_hcnt: u16,
    pub fs_scl_lcnt: u16,
    pub intr_mask: u32,
    pub raw_intr_stat: u32,
    pub rx_tl: u8,
    pub tx_tl: u8,
    pub enable: u32,
    pub tx_abrt_source: u32,
    pub sda_hold: u16,
    pub tx_fifo: VecDeque<u16>,
    pub rx_fifo: VecDeque<u16>,
    pub slaves: Vec<SlaveSlot>,
    pub state: I2cState,
    pub current_addr: u8,
    pub transaction_active: bool,
}

/// Abstract state of the controller: its registers, FIFOs and the addresses of
/// the devices on the bus, in the order they were added.
#[verifier::ext_equal]
pub ghost struct I2cView {
    pub base: u32,
    pub con: u32,
    pub tar: u16,
    pub sar: u16,
    pub hs_maddr: u8,
    pub ss_scl_hcnt: u16,
    pub ss_scl_lcnt: u16,
    pub fs_scl_hcnt: u16,
    pub fs_scl_lcnt: u16,
    pub intr_mask: u32,
    pub raw_intr_stat: u32,
    pub rx_tl: u8,
    pub tx_tl: u8,
    pub enable: u32,
    pub tx_abrt_source: u32,
    pub sda_hold: u16,
    pub tx_fifo: Seq<u16>,
    pub rx_fifo: Seq<u16>,
    pub slave_addrs: Seq<u8>,
    pub slave_received: Seq<Seq<u8>>,
    pub state: I2cState,
    pub current_addr: u8,
    pub transaction_active: bool,
}

impl View for I2c {
    type V = I2cView;

    open spec fn view(&self) -> I2cView {
        I2cView {
            base: self.base,
            con: self.con,
            tar: self.tar,
            sar: self.sar,
            hs_maddr: self.hs_maddr,
            ss_scl_hcnt: self.ss_scl_hcnt,
            ss_scl_lcnt: self.ss_scl_lcnt,
            fs_scl_hcnt: self.fs_scl_hcnt,
            fs_scl_lcnt: self.fs_scl_lcnt,
            intr_mask: self.intr_mask,
            raw_intr_stat: self.raw_intr_stat,
            rx_tl: self.rx_tl,
            tx_tl: self.tx_tl,
            enable: self.enable,
            tx_abrt_source: self.tx_abrt_source,
            sda_hold: self.sda_hold,
            tx_fifo: self.tx_fifo@,
            rx_fifo: self.rx_fifo@,
            slave_addrs: Seq::new(self.slaves@.len(), |i: int| self.slaves@[i].device.address_spec()),
            slave_received: Seq::new(self.slaves@.len(), |i: int| self.slaves@[i].device.received()),
            state: self.state,
            current_addr: self.current_addr,
            transaction_active: self.transaction_active,
        }
    }
}

/// Index of the first address in `addrs` equal to `addr` at or after `i`.
pub open spec fn first_match_from(addrs: Seq<u8>, addr: u8, i: int) -> Option<int>
    decreases addrs.len() - i,
{
    if i < 0 || i >= addrs.len() {
        None
    } else if addrs[i] == addr {
        Some(i)
    } else {
        first_match_from(addrs, addr, i + 1)
    }
}

pub open spec fn first_match(addrs: Seq<u8>, addr: u8) -> Option<int> {
    first_match_from(addrs, addr, 0)
}

proof fn lemma_first_match_from(addrs: Seq<u8>, addr: u8, i: int)
    requires
        0 <= i <= addrs.len(),
    ensures
        first_match_from(addrs, addr, i) matches Some(j) ==> i <= j < addrs.len() && addrs[j]
            == addr && forall|k: int| i <= k < j ==> addrs[k] != addr,
        first_match_from(addrs, addr, i) is None ==> forall|k: int| i <= k < addrs.len() ==> addrs[k]
            != addr,
    decreases addrs.len() - i,
{
    if i < addrs.len() {
        lemma_first_match_from(addrs, addr, i + 1);
    }
}

/// Some device answers to `addr`.
pub open spec fn acked(addrs: Seq<u8>, addr: u8) -> bool {
    exists|k: int| 0 <= k < addrs.len() && addrs[k] == addr
}

/// Addressing a device that no attached slave answers records an address
/// NACK abort and raises TX_ABRT; addressing one that answers records nothing.
pub proof fn lemma_address_ack(s: I2cView, addr: u8, read: bool)
    ensures
        !acked(s.slave_addrs, addr) ==> s.after_address(addr, read).tx_abrt_source
            & ABRT_7B_ADDR_NOACK != 0,
        !acked(s.slave_addrs, addr) ==> s.after_address(addr, read).raw_intr_stat & intr::TX_ABRT
            != 0,
        acked(s.slave_addrs, addr) ==> s.after_address(addr, read).tx_abrt_source
            == s.tx_abrt_source,
        s.after_address(addr, read).current_addr == addr,
{
    crate::bits::lemma_word_facts(s.tx_abrt_source, ABRT_7B_ADDR_NOACK);
    crate::bits::lemma_word_facts(s.raw_intr_stat, intr::TX_ABRT);
}

impl I2cView {
    pub open spec fn initial(id: u8) -> I2cView {
        I2cView {
            base: if id == 0 { I2C0_BASE } else { I2C1_BASE },
            con: con::MASTER_MODE | con::SPEED_FAST | con::IC_SLAVE_DISABLE | con::IC_RESTART_EN,
            tar: 0x55,
            sar: 0x55,
            hs_maddr: 0,
            ss_scl_hcnt: 0,
            ss_scl_lcnt: 0,
            fs_scl_hcnt: 0,
            fs_scl_lcnt: 0,
            intr_mask: 0,
            raw_intr_stat: 0,
            rx_tl: 0,
            tx_tl: 0,
            enable: 0,
            tx_abrt_source: 0,
            sda_hold: 0,
            tx_fifo: Seq::empty(),
            rx_fifo: Seq::empty(),
            slave_addrs: Seq::empty(),
            slave_received: Seq::empty(),
            state: I2cState::Idle,
            current_addr: 0,
            transaction_active: false,
        }
    }

    pub open spec fn enabled(self) -> bool {
        self.enable & 1 != 0
    }

    /// The command queue emptied.
    pub open spec fn drained(self) -> I2cView {
        I2cView { tx_fifo: Seq::empty(), ..self }
    }

    pub open spec fn master(self) -> bool {
        self.con & con::MASTER_MODE != 0
    }

    pub open spec fn target_address(self) -> u8 {
        (self.tar & 0x7F) as u8
    }

    pub open spec fn after_start(self) -> I2cView {
        if self.enabled() {
            I2cView { state: I2cState::Start, transaction_active: true, ..self }
        } else {
            self
        }
    }

    pub open spec fn after_stop(self) -> I2cView {
        I2cView {
            state: I2cState::Stop,
            transaction_active: false,
            raw_intr_stat: self.raw_intr_stat | intr::STOP_DET,
            ..self
        }
    }

    /// Address phase: the address becomes current; without an acknowledging
    /// device the abort is recorded.
    pub open spec fn after_address(self, addr: u8, read: bool) -> I2cView {
        let s = I2cView {
            current_addr: addr,
            state: if read { I2cState::ReadData } else { I2cState::WriteData },
            ..self
        };
        if acked(self.slave_addrs, addr) {
            s
        } else {
            I2cView {
                tx_abrt_source: self.tx_abrt_source | ABRT_7B_ADDR_NOACK,
                raw_intr_stat: self.raw_intr_stat | intr::TX_ABRT,
                ..s
            }
        }
    }

    /// Data phase of a write: the first device at the current address
    /// receives the byte; an unacknowledged byte is recorded as an abort.
    pub open spec fn after_data_write(self, data: u8) -> I2cView {
        match first_match(self.slave_addrs, self.current_addr) {
            Some(i) => I2cView {
                slave_received: self.slave_received.update(i, self.slave_received[i].push(data)),
                ..self
            },
            None => I2cView { tx_abrt_source: self.tx_abrt_source | ABRT_TXDATA_NOACK, ..self },
        }
    }

    /// Address that a command's data phase uses.
    pub open spec fn command_addr(self, cmd: u16) -> u8 {
        if cmd & data_cmd::CMD_RESTART != 0 || !self.transaction_active {
            self.target_address()
        } else {
            self.current_addr
        }
    }

    /// State after executing one DATA_CMD command; `byte` is what the addressed
    /// device returns for a read.
    pub open spec fn after_command(self, cmd: u16, byte: u8) -> I2cView {
        let is_read = cmd & data_cmd::CMD_READ != 0;
        let is_stop = cmd & data_cmd::CMD_STOP != 0;
        let s1 = if cmd & data_cmd::CMD_RESTART != 0 || !self.transaction_active {
            self.after_start().after_address(self.target_address(), is_read)
        } else {
            self
        };
        let s2 = if is_read {
            I2cView {
                rx_fifo: s1.rx_fifo.push(byte as u16),
                raw_intr_stat: s1.raw_intr_stat | intr::RX_FULL,
                ..s1
            }
        } else {
            s1.after_data_write((cmd & 0xFF) as u8)
        };
        if is_stop {
            s2.after_stop()
        } else {
            s2
        }
    }

    pub open spec fn status_value(self) -> u32 {
        let a: u32 = if self.transaction_active {
            status::ACTIVITY | (if self.master() { status::MST_ACTIVITY } else { status::SLV_ACTIVITY })
        } else {
            0
        };
        let b: u32 = if self.tx_fifo.len() < FIFO_SIZE { status::TFNF } else { 0 };
        let c: u32 = if self.tx_fifo.len() == 0 { status::TFE } else { 0 };
        let d: u32 = if self.rx_fifo.len() > 0 { status::RFNE } else { 0 };
        let e: u32 = if self.rx_fifo.len() >= FIFO_SIZE { status::RFF } else { 0 };
        a | b | c | d | e
    }

    pub open spec fn read_value(self, offset: u32) -> u32 {
        if offset == regs::IC_CON {
            self.con
        } else if offset == regs::IC_TAR {
            self.tar as u32
        } else if offset == regs::IC_SAR {
            self.sar as u32
        } else if offset == regs::IC_HS_MADDR {
            self.hs_maddr as u32
        } else if offset == regs::IC_DATA_CMD {
            if self.rx_fifo.len() > 0 {
                self.rx_fifo[0] as u32
            } else {
                0
            }
        } else if offset == regs::IC_SS_SCL_HCNT {
            self.ss_scl_hcnt as u32
        } else if offset == regs::IC_SS_SCL_LCNT {
            self.ss_scl_lcnt as u32
        } else if offset == regs::IC_FS_SCL_HCNT {
            self.fs_scl_hcnt as u32
        } else if offset == regs::IC_FS_SCL_LCNT {
            self.fs_scl_lcnt as u32
        } else if offset == regs::IC_INTR_STAT {
            self.raw_intr_stat & self.intr_mask
        } else if offset == regs::IC_INTR_MASK {
            self.intr_mask
        } else if offset == regs::IC_RAW_INTR_STAT || offset == regs::IC_CLR_INTR {
            self.raw_intr_stat
        } else if offset == regs::IC_RX_TL {
            self.rx_tl as u32
        } else if offset == regs::IC_TX_TL {
            self.tx_tl as u32
        } else if offset == regs::IC_ENABLE || offset == regs::IC_ENABLE_STATUS {
            self.enable
        } else if offset == regs::IC_STATUS {
            self.status_value()
        } else if offset == regs::IC_TXFLR {
            self.tx_fifo.len() as u32
        } else if offset == regs::IC_RXFLR {
            self.rx_fifo.len() as u32
        } else if offset == regs::IC_SDA_HOLD {
            self.sda_hold as u32
        } else if offset == regs::IC_TX_ABRT_SOURCE {
            self.tx_abrt_source
        } else if offset == regs::IC_COMP_VERSION {
            COMP_VERSION
        } else if offset == regs::IC_COMP_TYPE {
            COMP_TYPE
        } else {
            0
        }
    }

    /// Reading DATA_CMD takes the oldest received byte; reading CLR_INTR clears
    /// the raw interrupts.
    pub open spec fn after_read(self, offset: u32) -> I2cView {
        if offset == regs::IC_DATA_CMD && self.rx_fifo.len() > 0 {
            I2cView { rx_fifo: self.rx_fifo.drop_first(), ..self }
        } else if offset == regs::IC_CLR_INTR {
            I2cView { raw_intr_stat: 0, ..self }
        } else {
            self
        }
    }

    /// Writes other than DATA_CMD; DATA_CMD is described by `after_command`.
    pub open spec fn after_reg_write(self, offset: u32, value: u32) -> I2cView {
        if offset == regs::IC_CON {
            I2cView { con: value & 0x3FF, ..self }
        } else if offset == regs::IC_TAR {
            I2cView { tar: (value & 0x3FF) as u16, ..self }
        } else if offset == regs::IC_SAR {
            I2cView { sar: (value & 0x3FF) as u16, ..self }
        } else if offset == regs::IC_HS_MADDR {
            I2cView { hs_maddr: (value & 0x7F) as u8, ..self }
        } else if offset == regs::IC_SS_SCL_HCNT {
            I2cView { ss_scl_hcnt: (value & 0xFFFF) as u16, ..self }
        } else if offset == regs::IC_SS_SCL_LCNT {
            I2cView { ss_scl_lcnt: (value & 0xFFFF) as u16, ..self }
        } else if offset == regs::IC_FS_SCL_HCNT {
            I2cView { fs_scl_hcnt: (value & 0xFFFF) as u16, ..self }
        } else if offset == regs::IC_FS_SCL_LCNT {
            I2cView { fs_scl_lcnt: (value & 0xFFFF) as u16, ..self }
        } else if offset == regs::IC_INTR_MASK {
            I2cView { intr_mask: value & 0x1FFF, ..self }
        } else if offset == regs::IC_RX_TL {
            I2cView { rx_tl: (value & 0xFF) as u8, ..self }
        } else if offset == regs::IC_TX_TL {
            I2cView { tx_tl: (value & 0xFF) as u8, ..self }
        } else if offset == regs::IC_ENABLE {
            I2cView { enable: value & 1, ..self }
        } else if offset == regs::IC_SDA_HOLD {
            I2cView { sda_hold: (value & 0xFFFF) as u16, ..self }
        } else if offset == regs::IC_CLR_TX_ABRT {
            I2cView { tx_abrt_source: 0, ..self }
        } else {
            self
        }
    }
}

impl I2c {
    /// The TX FIFO is drained by every command write.
    pub open spec fn wf(&self) -> bool {
        self.tx_fifo@.len() == 0
    }

    /// Create controller 0 or 1 (any id other than 0 selects 1).
    pub fn new(id: u8) -> (r: Self)
        ensures
            r@ == I2cView::initial(id),
            r.wf(),
    {
        I2c {
            base: if id == 0 { I2C0_BASE } else { I2C1_BASE },
            con: con::MASTER_MODE | con::SPEED_FAST | con::IC_SLAVE_DISABLE | con::IC_RESTART_EN,
            tar: 0x55,
            sar: 0x55,
            hs_maddr: 0,
            ss_scl_hcnt: 0,
            ss_scl_lcnt: 0,
            fs_scl_hcnt: 0,
            fs_scl_lcnt: 0,
            intr_mask: 0,
            raw_intr_stat: 0,
            rx_tl: 0,
            tx_tl: 0,
            enable: 0,
            tx_abrt_source: 0,
            sda_hold: 0,
            tx_fifo: VecDeque::with_capacity(FIFO_SIZE),
            rx_fifo: VecDeque::with_capacity(FIFO_SIZE),
            slaves: Vec::new(),
            state: I2cState::Idle,
            current_addr: 0,
            transaction_active: false,
        }
    }

    /// Controller 0.
    pub fn i2c0() -> (r: Self)
        ensures
            r@ == I2cView::initial(0),
            r.wf(),
    {
        I2c::new(0)
    }

    /// Controller 1.
    pub fn i2c1() -> (r: Self)
        ensures
            r@ == I2cView::initial(1),
            r.wf(),
    {
        I2c::new(1)
    }

    /// Device identifier.
    pub fn id(&self) -> (r: DeviceId)
        ensures
            r == DeviceId::I2C,
    {
        DeviceId::I2C
    }

    /// Base address.
    pub fn base(&self) -> (r: u32)
        ensures
            r == self.base,
    {
        self.base
    }

    /// IC_ENABLE bit 0 is set.
    pub fn is_enabled(&self) -> (r: bool)
        ensures
            r == self@.enabled(),
    {
        (self.enable & 1) != 0
    }

    /// IC_CON.MASTER_MODE is set.
    pub fn is_master(&self) -> (r: bool)
        ensures
            r == self@.master(),
    {
        (self.con & con::MASTER_MODE) != 0
    }

    /// A transaction is active or commands are queued.
    pub fn is_busy(&self) -> (r: bool)
        ensures
            r == (self.transaction_active || self@.tx_fifo.len() > 0),
    {
        self.transaction_active || self.tx_fifo.len() > 0
    }

    /// Seven-bit target address.
    pub fn get_target_address(&self) -> (r: u8)
        ensures
            r == self@.target_address(),
    {
        (self.tar & 0x7F) as u8
    }

    /// Enable or disable the controller.
    pub fn enable(&mut self, enable: bool)
        ensures
            final(self)@ == (I2cView { enable: if enable { 1 } else { 0 }, ..old(self)@ }),
            final(self).wf() == old(self).wf(),
    {
        self.enable = if enable { 1 } else { 0 };
    }

    /// Start condition (only while enabled).
    pub fn start(&mut self)
        ensures
            final(self)@ == old(self)@.after_start(),
            final(self).slaves@ == old(self).slaves@,
            final(self).wf() == old(self).wf(),
    {
        if !self.is_enabled() {
            return;
        }
        self.state = I2cState::Start;
        self.transaction_active = true;
    }

    /// Stop condition.
    pub fn stop(&mut self)
        ensures
            final(self)@ == old(self)@.after_stop(),
            final(self).slaves@ == old(self).slaves@,
            final(self).wf() == old(self).wf(),
    {
        self.state = I2cState::Stop;
        self.transaction_active = false;
        self.raw_intr_stat = self.raw_intr_stat | intr::STOP_DET;
    }

    /// Index of the first attached device that answers to `addr`.
    fn find_slave(&self, addr: u8) -> (r: Option<usize>)
        ensures
            r matches Some(i) ==> first_match(self@.slave_addrs, addr) == Some(i as int) && i
                < self.slaves@.len(),
            r is None ==> first_match(self@.slave_addrs, addr) is None,
            r is None <==> !acked(self@.slave_addrs, addr),
    {
        proof {
            lemma_first_match_from(self@.slave_addrs, addr, 0);
        }
        let mut i: usize = 0;
        while i < self.slaves.len()
            invariant
                0 <= i <= self.slaves@.len(),
                self@.slave_addrs.len() == self.slaves@.len(),
                forall|k: int| 0 <= k < i ==> self@.slave_addrs[k] != addr,
                first_match(self@.slave_addrs, addr) == first_match_from(self@.slave_addrs, addr, i as int),
            decreases self.slaves@.len() - i,
        {
            if self.slaves[i].device.match_address(addr) {
                return Some(i);
            }
            i = i + 1;
        }
        None
    }

    /// Address phase; true when some device answers to `addr`.
    pub fn write_address(&mut self, addr: u8, read: bool) -> (r: bool)
        ensures
            r == acked(old(self)@.slave_addrs, addr),
            final(self)@ == old(self)@.after_address(addr, read),
            final(self).wf() == old(self).wf(),
            final(self).slaves@ == old(self).slaves@,
    {
        self.current_addr = addr;
        let ack = self.find_slave(addr).is_some();
        if !ack {
            self.tx_abrt_source = self.tx_abrt_source | ABRT_7B_ADDR_NOACK;
            self.raw_intr_stat = self.raw_intr_stat | intr::TX_ABRT;
        }
        self.state = if read { I2cState::ReadData } else { I2cState::WriteData };
        ack
    }

    /// Data phase of a write: the first device at the current address receives
    /// the byte; true when one did.
    pub fn write_byte(&mut self, data: u8) -> (r: bool)
        ensures
            r == acked(old(self)@.slave_addrs, old(self).current_addr),
            final(self)@ == old(self)@.after_data_write(data),
            final(self).wf() == old(self).wf(),
    {
        match self.find_slave(self.current_addr) {
            Some(i) => {
                self.slaves[i].device.write(data);
                assert(self@.slave_addrs =~= old(self)@.slave_addrs);
                assert(self@.slave_received =~= old(self)@.slave_received.update(
                    i as int,
                    old(self)@.slave_received[i as int].push(data),
                ));
                true
            },
            None => {
                self.tx_abrt_source = self.tx_abrt_source | ABRT_TXDATA_NOACK;
                false
            },
        }
    }

    /// Data phase of a read: the first device at the current address sends a
    /// byte; 0xFF when none answers.
    pub fn read_byte(&mut self, ack: bool) -> (r: u8)
        ensures
            first_match(old(self)@.slave_addrs, old(self).current_addr) is None ==> r == 0xFF,
            final(self)@ == old(self)@,
            final(self).wf() == old(self).wf(),
    {
        match self.find_slave(self.current_addr) {
            Some(i) => {
                let b = self.slaves[i].device.read(ack);
                assert(self@.slave_addrs =~= old(self)@.slave_addrs);
                assert(self@.slave_received =~= old(self)@.slave_received);
                b
            },
            None => 0xFF,
        }
    }

    /// Attach a device to the bus.
    pub fn add_slave<S: I2cSlave + 'static>(&mut self, slave: S)
        ensures
            final(self)@ == (I2cView {
                slave_addrs: old(self)@.slave_addrs.push(slave.address_spec()),
                slave_received: old(self)@.slave_received.push(slave.received()),
                ..old(self)@
            }),
            final(self).wf() == old(self).wf(),
    {
        let b = box_slave(slave);
        self.slaves.push(b);
        assert(self@.slave_addrs =~= old(self)@.slave_addrs.push(slave.address_spec()));
        assert(self@.slave_received =~= old(self)@.slave_received.push(slave.received()));
    }

    /// Status register value.
    fn get_status(&self) -> (r: u32)
        ensures
            r == self@.status_value(),
    {
        let a: u32 = if self.transaction_active {
            status::ACTIVITY | (if self.is_master() { status::MST_ACTIVITY } else { status::SLV_ACTIVITY })
        } else {
            0
        };
        let b: u32 = if self.tx_fifo.len() < FIFO_SIZE { status::TFNF } else { 0 };
        let c: u32 = if self.tx_fifo.len() == 0 { status::TFE } else { 0 };
        let d: u32 = if self.rx_fifo.len() > 0 { status::RFNE } else { 0 };
        let e: u32 = if self.rx_fifo.len() >= FIFO_SIZE { status::RFF } else { 0 };
        a | b | c | d | e
    }

    /// A raw interrupt is set and unmasked.
    pub fn has_interrupt(&self) -> (r: bool)
        ensures
            r == ((self.raw_intr_stat & self.intr_mask) != 0),
    {
        (self.raw_intr_stat & self.intr_mask) != 0
    }

    /// Execute the queued command (a command write queues exactly one).
    fn process_tx_fifo(&mut self)
        requires
            old(self)@.tx_fifo.len() == 1,
        ensures
            final(self).wf(),
            exists|b: u8|
                {
                    &&& final(self)@ == #[trigger] old(self)@.drained().after_command(
                        old(self)@.tx_fifo[0],
                        b,
                    )
                    &&& first_match(old(self)@.slave_addrs, old(self)@.command_addr(old(self)@.tx_fifo[0]))
                        is None ==> b == 0xFF
                },
    {
        let cmd = match self.tx_fifo.pop_front() {
            Some(c) => c,
            None => 0,
        };
        let ghost s0 = self@;
        assert(s0 =~= old(self)@.drained());
        let is_read = (cmd & data_cmd::CMD_READ) != 0;
        let is_stop = (cmd & data_cmd::CMD_STOP) != 0;
        let is_restart = (cmd & data_cmd::CMD_RESTART) != 0;
        let data = (cmd & 0xFF) as u8;
        if is_restart || !self.transaction_active {
            self.start();
            let t = self.get_target_address();
            self.write_address(t, is_read);
        }
        let ghost s1 = self@;
        let mut byte: u8 = 0xFF;
        if is_read {
            byte = self.read_byte(!is_stop);
            self.rx_fifo.push_back(byte as u16);
            self.raw_intr_stat = self.raw_intr_stat | intr::RX_FULL;
        } else {
            self.write_byte(data);
        }
        if is_stop {
            self.stop();
        }
        assert(self@ == s0.after_command(cmd, byte));
        assert(first_match(old(self)@.slave_addrs, old(self)@.command_addr(cmd)) is None ==> byte
            == 0xFF);
    }

    /// Register read.
    pub fn read(&mut self, addr: u32) -> (r: u32)
        requires
            old(self).wf(),
            addr >= old(self).base,
        ensures
            final(self).wf(),
            r == old(self)@.read_value((addr - old(self).base) as u32),
            final(self)@ == old(self)@.after_read((addr - old(self).base) as u32),
    {
        let offset = addr - self.base;
        if offset == regs::IC_CON {
            self.con
        } else if offset == regs::IC_TAR {
            self.tar as u32
        } else if offset == regs::IC_SAR {
            self.sar as u32
        } else if offset == regs::IC_HS_MADDR {
            self.hs_maddr as u32
        } else if offset == regs::IC_DATA_CMD {
            match self.rx_fifo.pop_front() {
                Some(d) => d as u32,
                None => 0,
            }
        } else if offset == regs::IC_SS_SCL_HCNT {
            self.ss_scl_hcnt as u32
        } else if offset == regs::IC_SS_SCL_LCNT {
            self.ss_scl_lcnt as u32
        } else if offset == regs::IC_FS_SCL_HCNT {
            self.fs_scl_hcnt as u32
        } else if offset == regs::IC_FS_SCL_LCNT {
            self.fs_scl_lcnt as u32
        } else if offset == regs::IC_INTR_STAT {
            self.raw_intr_stat & self.intr_mask
        } else if offset == regs::IC_INTR_MASK {
            self.intr_mask
        } else if offset == regs::IC_RAW_INTR_STAT {
            self.raw_intr_stat
        } else if offset == regs::IC_RX_TL {
            self.rx_tl as u32
        } else if offset == regs::IC_TX_TL {
            self.tx_tl as u32
        } else if offset == regs::IC_CLR_INTR {
            let val = self.raw_intr_stat;
            self.raw_intr_stat = 0;
            val
        } else if offset == regs::IC_ENABLE || offset == regs::IC_ENABLE_STATUS {
            self.enable
        } else if offset == regs::IC_STATUS {
            self.get_status()
        } else if offset == regs::IC_TXFLR {
            self.tx_fifo.len() as u32
        } else if offset == regs::IC_RXFLR {
            self.rx_fifo.len() as u32
        } else if offset == regs::IC_SDA_HOLD {
            self.sda_hold as u32
        } else if offset == regs::IC_TX_ABRT_SOURCE {
            self.tx_abrt_source
        } else if offset == regs::IC_COMP_VERSION {
            COMP_VERSION
        } else if offset == regs::IC_COMP_TYPE {
            COMP_TYPE
        } else {
            0
        }
    }

    /// Register write. A DATA_CMD write queues the command (when the FIFO has
    /// room) and executes it at once.
    pub fn write(&mut self, addr: u32, value: u32)
        requires
            old(self).wf(),
            addr >= old(self).base,
        ensures
            final(self).wf(),
            (addr - old(self).base) as u32 != regs::IC_DATA_CMD ==> final(self)@ == old(self)@.after_reg_write(
                (addr - old(self).base) as u32,
                value,
            ),
            (addr - old(self).base) as u32 == regs::IC_DATA_CMD ==> exists|b: u8|
                {
                    &&& final(self)@ == #[trigger] old(self)@.after_command((value & 0x7FF) as u16, b)
                    &&& first_match(old(self)@.slave_addrs, old(self)@.command_addr((value & 0x7FF) as u16))
                        is None ==> b == 0xFF
                },
    {
        let offset = addr - self.base;
        if offset == regs::IC_CON {
            self.con = value & 0x3FF;
        } else if offset == regs::IC_TAR {
            self.tar = (value & 0x3FF) as u16;
        } else if offset == regs::IC_SAR {
            self.sar = (value & 0x3FF) as u16;
        } else if offset == regs::IC_HS_MADDR {
            self.hs_maddr = (value & 0x7F) as u8;
        } else if offset == regs::IC_DATA_CMD {
            if self.tx_fifo.len() < FIFO_SIZE {
                self.tx_fifo.push_back((value & 0x7FF) as u16);
                assert(self@.drained() =~= old(self)@);
                self.process_tx_fifo();
            }
        } else if offset == regs::IC_SS_SCL_HCNT {
            self.ss_scl_hcnt = (value & 0xFFFF) as u16;
        } else if offset == regs::IC_SS_SCL_LCNT {
            self.ss_scl_lcnt = (value & 0xFFFF) as u16;
        } else if offset == regs::IC_FS_SCL_HCNT {
            self.fs_scl_hcnt = (value & 0xFFFF) as u16;
        } else if offset == regs::IC_FS_SCL_LCNT {
            self.fs_scl_lcnt = (value & 0xFFFF) as u16;
        } else if offset == regs::IC_INTR_MASK {
            self.intr_mask = value & 0x1FFF;
        } else if offset == regs::IC_RX_TL {
            self.rx_tl = (value & 0xFF) as u8;
        } else if offset == regs::IC_TX_TL {
            self.tx_tl = (value & 0xFF) as u8;
        } else if offset == regs::IC_ENABLE {
            self.enable = value & 1;
        } else if offset == regs::IC_SDA_HOLD {
            self.sda_hold = (value & 0xFFFF) as u16;
        } else if offset == regs::IC_CLR_TX_ABRT {
            self.tx_abrt_source = 0;
        }
    }

    /// Return to the power-on state, keeping the base address; attached devices
    /// are removed.
    pub fn reset(&mut self)
        ensures
            final(self)@ == (I2cView {
                base: old(self).base,
                ..I2cView::initial(if old(self).base == I2C0_BASE { 0 } else { 1 })
            }),
            final(self).wf(),
    {
        let base = self.base;
        *self = I2c::new(if base == I2C0_BASE { 0 } else { 1 });
        self.base = base;
    }
}

impl Default for I2c {
    fn default() -> (r: Self)
        ensures
            r@ == I2cView::initial(0),
    {
        I2c::new(0)
    }
}

/// Simple I2C EEPROM device: the first byte written after creation sets the
/// address pointer; later writes store bytes and reads return them.
pub struct I2cEeprom {
    pub address: u8,
    pub data: Vec<u8>,
    pub pointer: usize,
    pub address_mode: bool,
    /// Bytes received so far.
    pub history: Ghost<Seq<u8>>,
}

impl I2cEeprom {
    /// EEPROM of `size` bytes, all 0xFF.
    pub fn new(address: u8, size: usize) -> (r: Self)
        ensures
            r.address == address,
            r.data@ == Seq::new(size as nat, |i: int| 0xFFu8),
            r.pointer == 0,
            r.address_mode,
            r.received() == Seq::<u8>::empty(),
    {
        I2cEeprom {
            address: address,
            data: vec![0xFFu8; size],
            pointer: 0,
            address_mode: true,
            history: Ghost(Seq::empty()),
        }
    }

    /// Copy `data` into memory from `offset`; bytes past the end are dropped.
    pub fn load(&mut self, offset: usize, data: &[u8])
        requires
            offset <= old(self).data@.len(),
            offset + data@.len() <= usize::MAX,
        ensures
            final(self).address == old(self).address,
            final(self).pointer == old(self).pointer,
            final(self).address_mode == old(self).address_mode,
            final(self).data@.len() == old(self).data@.len(),
            forall|i: int|
                0 <= i < old(self).data@.len() ==> #[trigger] final(self).data@[i] == if offset <= i
                    < offset + data@.len() {
                    data@[i - offset]
                } else {
                    old(self).data@[i]
                },
    {
        let end = if offset + data.len() < self.data.len() {
            offset + data.len()
        } else {
            self.data.len()
        };
        let mut i: usize = offset;
        while i < end
            invariant
                offset <= i <= end,
                end <= self.data@.len(),
                end == if offset + data@.len() < old(self).data@.len() { offset + data@.len() } else { old(self).data@.len() as int },
                self.address == old(self).address,
                self.pointer == old(self).pointer,
                self.address_mode == old(self).address_mode,
                self.data@.len() == old(self).data@.len(),
                forall|k: int|
                    0 <= k < old(self).data@.len() ==> #[trigger] self.data@[k] == if offset <= k < i {
                        data@[k - offset]
                    } else {
                        old(self).data@[k]
                    },
            decreases end - i,
        {
            self.data.set(i, data[i - offset]);
            i = i + 1;
        }
    }

    /// Memory contents.
    pub fn read_all(&self) -> (r: &[u8])
        ensures
            r@ == self.data@,
    {
        self.data.as_slice()
    }
}

impl I2cSlave for I2cEeprom {
    open spec fn address_spec(&self) -> u8 {
        self.address
    }

    open spec fn received(&self) -> Seq<u8> {
        self.history@
    }

    fn match_address(&self, addr: u8) -> (r: bool) {
        self.address == addr
    }

    /// The first byte sets the pointer; later bytes are stored at the pointer,
    /// which advances (bytes past the end are dropped).
    fn write(&mut self, data: u8)
        ensures
            final(self).address == old(self).address,
            old(self).address_mode ==> {
                &&& final(self).pointer == (old(self).pointer << 8usize) | (data as usize)
                &&& !final(self).address_mode
                &&& final(self).data@ == old(self).data@
            },
            !old(self).address_mode && old(self).pointer < old(self).data@.len() ==> {
                &&& final(self).data@ == old(self).data@.update(old(self).pointer as int, data)
                &&& final(self).pointer == old(self).pointer + 1
                &&& !final(self).address_mode
            },
            !old(self).address_mode && old(self).pointer >= old(self).data@.len() ==> {
                &&& final(self).data@ == old(self).data@
                &&& final(self).pointer == old(self).pointer
                &&& !final(self).address_mode
            },
    {
        if self.address_mode {
            self.pointer = (self.pointer << 8usize) | (data as usize);
            self.address_mode = false;
        } else if self.pointer < self.data.len() {
            let p = self.pointer;
            self.data.set(p, data);
            self.pointer = p + 1;
        }
        self.history = Ghost(self.history@.push(data));
    }

    /// The byte at the pointer (0xFF past the end); the pointer advances,
    /// wrapping at the top of its range.
    fn read(&mut self, ack: bool) -> (r: u8)
        ensures
            r == if old(self).pointer < old(self).data@.len() {
                old(self).data@[old(self).pointer as int]
            } else {
                0xFF
            },
            final(self).pointer == old(self).pointer.wrapping_add(1),
            final(self).address == old(self).address,
            final(self).address_mode == old(self).address_mode,
            final(self).data@ == old(self).data@,
    {
        let data = if self.pointer < self.data.len() {
            self.data[self.pointer]
        } else {
            0xFF
        };
        self.pointer = self.pointer.wrapping_add(1);
        data
    }
}

/// I2C temperature sensor device (TMP102-style, 1/16 degree units).
pub struct I2cTempSensor {
    pub address: u8,
    pub temperature: i16,
    pub pointer: u8,
    /// Bytes received so far.
    pub history: Ghost<Seq<u8>>,
}

impl I2cTempSensor {
    /// Sensor reading 25 degrees.
    pub fn new(address: u8) -> (r: Self)
        ensures
            r.address == address,
            r.temperature == 400,
            r.pointer == 0,
            r.received() == Seq::<u8>::empty(),
    {
        I2cTempSensor { address: address, temperature: 400, pointer: 0, history: Ghost(Seq::empty()) }
    }
}

impl I2cSlave for I2cTempSensor {
    open spec fn address_spec(&self) -> u8 {
        self.address
    }

    open spec fn received(&self) -> Seq<u8> {
        self.history@
    }

    fn match_address(&self, addr: u8) -> (r: bool) {
        self.address == addr
    }

    /// A written byte selects the register.
    fn write(&mut self, data: u8)
        ensures
            final(self).pointer == data,
            final(self).address == old(self).address,
            final(self).temperature == old(self).temperature,
    {
        self.pointer = data;
        self.history = Ghost(self.history@.push(data));
    }

    /// Register 0 is the temperature's high byte, register 1 its low byte, any
    /// other register reads 0; the register pointer advances.
    fn read(&mut self, ack: bool) -> (r: u8)
        ensures
            r == if old(self).pointer == 0 {
                (old(self).temperature >> 8u32) as u8
            } else if old(self).pointer == 1 {
                (old(self).temperature & 0xFF) as u8
            } else {
                0
            },
            final(self).pointer == old(self).pointer.wrapping_add(1),
            final(self).address == old(self).address,
            final(self).temperature == old(self).temperature,
    {
        let data: u8 = if self.pointer == 0 {
            (self.temperature >> 8u32) as u8
        } else if self.pointer == 1 {
            (self.temperature & 0xFF) as u8
        } else {
            0
        };
        self.pointer = self.pointer.wrapping_add(1);
        data
    }
}

} // verus!
