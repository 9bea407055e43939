//! Programmable I/O block: instruction memory, four state machines and their FIFOs.
use vstd::prelude::*;
use std::collections::VecDeque;

use crate::device::DeviceId;

pub mod ctrl;
pub mod fstat;
pub mod regs;

verus! {

/// PIO0 base address.
pub const PIO0_BASE: u32 = 0x5020_0000;

/// PIO1 base address.
pub const PIO1_BASE: u32 = 0x5030_0000;

/// FIFO depth.
pub const FIFO_SIZE: usize = 8;

/// Number of state machines.
pub const NUM_SMS: usize = 4;

/// Instruction memory size.
pub const INSTR_MEM_SIZE: usize = 32;

/// PIO state machine.
#[derive(Debug)]
pub struct PioStateMachine {
    /// Program counter.
    pub pc: u8,
    /// Enabled flag.
    pub enabled: bool,
    /// Clock divider (16.8 fixed point).
    pub clkdiv: u32,
    /// Execute control register.
    pub execctrl: u32,
    /// Shift control register.
    pub shiftctrl: u32,
    /// Pin control register.
    pub pinctrl: u32,
    /// Current instruction.
    pub instr: u16,
    /// TX FIFO.
    pub tx_fifo: VecDeque<u32>,
    /// RX FIFO.
    pub rx_fifo: VecDeque<u32>,
    /// Input shift register.
    pub isr: u32,
    /// Output shift register.
    pub osr: u32,
    /// Input shift count.
    pub isr_count: u8,
    /// Output shift count.
    pub osr_count: u8,
    /// X register.
    pub x: u32,
    /// Y register.
    pub y: u32,
    /// Delay counter.
    pub delay: u8,
    /// Waiting flag.
    pub waiting: bool,
}

/// Abstract state of a state machine; the FIFOs are sequences, oldest first.
#[verifier::ext_equal]
pub ghost struct PioSmState {
    pub pc: u8,
    pub enabled: bool,
    pub clkdiv: u32,
    pub execctrl: u32,
    pub shiftctrl: u32,
    pub pinctrl: u32,
    pub instr: u16,
    pub tx: Seq<u32>,
    pub rx: Seq<u32>,
    pub isr: u32,
    pub osr: u32,
    pub isr_count: u8,
    pub osr_count: u8,
    pub x: u32,
    pub y: u32,
    pub delay: u8,
    pub waiting: bool,
}

impl View for PioStateMachine {
    type V = PioSmState;

    open spec fn view(&self) -> PioSmState {
        PioSmState {
            pc: self.pc,
            enabled: self.enabled,
            clkdiv: self.clkdiv,
            execctrl: self.execctrl,
            shiftctrl: self.shiftctrl,
            pinctrl: self.pinctrl,
            instr: self.instr,
            tx: self.tx_fifo@,
            rx: self.rx_fifo@,
            isr: self.isr,
            osr: self.osr,
            isr_count: self.isr_count,
            osr_count: self.osr_count,
            x: self.x,
            y: self.y,
            delay: self.delay,
            waiting: self.waiting,
        }
    }
}

/// A state machine after power-on: divide by one, empty FIFOs.
pub open spec fn sm_initial() -> PioSmState {
    PioSmState {
        pc: 0,
        enabled: false,
        clkdiv: 0x0001_0000,
        execctrl: 0,
        shiftctrl: 0,
        pinctrl: 0,
        instr: 0,
        tx: Seq::empty(),
        rx: Seq::empty(),
        isr: 0,
        osr: 0,
        isr_count: 0,
        osr_count: 0,
        x: 0,
        y: 0,
        delay: 0,
        waiting: false,
    }
}

/// Major opcode of an instruction (top three bits).
pub open spec fn opcode_of(instr: u16) -> u16 {
    (instr >> 13u16) & 0x7
}

/// Effect of an instruction's operation, before the program counter and delay
/// are updated.
pub open spec fn operate(s: PioSmState, instr: u16) -> PioSmState {
    let op = opcode_of(instr);
    if op == 1 {
        PioSmState { waiting: true, ..s }
    } else if op == 2 {
        PioSmState {
            isr_count: if s.isr_count == 255 { 255 } else { (s.isr_count + 1) as u8 },
            ..s
        }
    } else if op == 3 {
        PioSmState {
            osr_count: if s.osr_count == 0 { 0 } else { (s.osr_count - 1) as u8 },
            ..s
        }
    } else if op == 4 {
        if s.tx.len() > 0 {
            PioSmState { osr: s.tx[0], tx: s.tx.drop_first(), ..s }
        } else {
            s
        }
    } else if op == 5 {
        if s.rx.len() < FIFO_SIZE {
            PioSmState { rx: s.rx.push(s.isr), ..s }
        } else {
            s
        }
    } else if op == 6 {
        let dest = (instr >> 5u16) & 0x7;
        let src = instr & 0x7;
        let value = if src == 0 {
            s.x
        } else if src == 1 {
            s.y
        } else {
            0
        };
        if dest == 0 {
            PioSmState { x: value, ..s }
        } else if dest == 1 {
            PioSmState { y: value, ..s }
        } else {
            s
        }
    } else if op == 7 {
        if (instr >> 5u16) & 1 == 1 {
            PioSmState { x: (instr & 0x1F) as u32, ..s }
        } else {
            s
        }
    } else {
        s
    }
}

/// Execute a fetched instruction: a jump sets the program counter; any other
/// instruction operates, advances the counter modulo 32 and loads its delay.
pub open spec fn execute(s: PioSmState, instr: u16) -> PioSmState {
    let s1 = PioSmState { instr: instr, ..s };
    if opcode_of(instr) == 0 {
        PioSmState { pc: (instr & 0x1F) as u8, ..s1 }
    } else {
        PioSmState {
            pc: ((s.pc + 1) % 32) as u8,
            delay: ((instr >> 8u16) & 0x1F) as u8,
            ..operate(s1, instr)
        }
    }
}

/// One cycle of a state machine: count down a pending delay, or fetch and
/// execute the instruction at the program counter.
pub open spec fn step(s: PioSmState, mem: Seq<u16>) -> PioSmState {
    if s.delay > 0 {
        PioSmState { delay: (s.delay - 1) as u8, ..s }
    } else {
        execute(s, mem[s.pc as int])
    }
}

impl PioStateMachine {
    /// Check if TX FIFO is empty.
    pub fn tx_empty(&self) -> (r: bool)
        ensures
            r == (self@.tx.len() == 0),
    {
        self.tx_fifo.len() == 0
    }

    /// Check if TX FIFO is full.
    pub fn tx_full(&self) -> (r: bool)
        ensures
            r == (self@.tx.len() >= FIFO_SIZE),
    {
        self.tx_fifo.len() >= FIFO_SIZE
    }

    /// Check if RX FIFO is empty.
    pub fn rx_empty(&self) -> (r: bool)
        ensures
            r == (self@.rx.len() == 0),
    {
        self.rx_fifo.len() == 0
    }

    /// Check if RX FIFO is full.
    pub fn rx_full(&self) -> (r: bool)
        ensures
            r == (self@.rx.len() >= FIFO_SIZE),
    {
        self.rx_fifo.len() >= FIFO_SIZE
    }

    /// Push to TX FIFO; refused when it is full.
    pub fn push_tx(&mut self, value: u32) -> (r: bool)
        ensures
            r == (old(self)@.tx.len() < FIFO_SIZE),
            final(self)@ == (if r { PioSmState { tx: old(self)@.tx.push(value), ..old(self)@ } } else { old(self)@ }),
    {
        if self.tx_full() {
            false
        } else {
            self.tx_fifo.push_back(value);
            true
        }
    }

    /// Pop the oldest word of the TX FIFO.
    pub fn pop_tx(&mut self) -> (r: Option<u32>)
        ensures
            old(self)@.tx.len() == 0 ==> r is None && final(self)@ == old(self)@,
            old(self)@.tx.len() > 0 ==> r == Some(old(self)@.tx[0]) && final(self)@ == (PioSmState {
                tx: old(self)@.tx.drop_first(),
                ..old(self)@
            }),
    {
        self.tx_fifo.pop_front()
    }

    /// Push to RX FIFO; refused when it is full.
    pub fn push_rx(&mut self, value: u32) -> (r: bool)
        ensures
            r == (old(self)@.rx.len() < FIFO_SIZE),
            final(self)@ == (if r { PioSmState { rx: old(self)@.rx.push(value), ..old(self)@ } } else { old(self)@ }),
    {
        if self.rx_full() {
            false
        } else {
            self.rx_fifo.push_back(value);
            true
        }
    }

    /// Pop the oldest word of the RX FIFO.
    pub fn pop_rx(&mut self) -> (r: Option<u32>)
        ensures
            old(self)@.rx.len() == 0 ==> r is None && final(self)@ == old(self)@,
            old(self)@.rx.len() > 0 ==> r == Some(old(self)@.rx[0]) && final(self)@ == (PioSmState {
                rx: old(self)@.rx.drop_first(),
                ..old(self)@
            }),
    {
        self.rx_fifo.pop_front()
    }

    /// Execute an instruction fetched from memory (or count down a delay).
    pub fn step(&mut self, instr_mem: &[u16; 32])
        requires
            old(self).delay == 0 ==> old(self).pc < 32,
        ensures
            final(self)@ == step(old(self)@, instr_mem@),
    {
        if self.delay > 0 {
            self.delay = self.delay - 1;
            return;
        }
        let instr = instr_mem[self.pc as usize];
        self.instr = instr;
        let opcode = (instr >> 13) & 0x7;
        proof {
            crate::bits::lemma_half_facts(instr);
        }
        if opcode == 0 {
            self.pc = (instr & 0x1F) as u8;
            return;
        }
        if opcode == 1 {
            self.waiting = true;
        } else if opcode == 2 {
            self.isr_count = self.isr_count.saturating_add(1);
        } else if opcode == 3 {
            self.osr_count = self.osr_count.saturating_sub(1);
        } else if opcode == 4 {
            if self.tx_fifo.len() > 0 {
                self.osr = self.tx_fifo[0];
                self.tx_fifo.pop_front();
            }
        } else if opcode == 5 {
            if !self.rx_full() {
                self.rx_fifo.push_back(self.isr);
            }
        } else if opcode == 6 {
            let dest = (instr >> 5) & 0x7;
            let src = instr & 0x7;
            let value = if src == 0 {
                self.x
            } else if src == 1 {
                self.y
            } else {
                0
            };
            if dest == 0 {
                self.x = value;
            } else if dest == 1 {
                self.y = value;
            }
        } else {
            if (instr >> 5) & 1 == 1 {
                self.x = (instr & 0x1F) as u32;
            }
        }
        self.pc = (self.pc + 1) % 32;
        self.delay = ((instr >> 8) & 0x1F) as u8;
    }
}

impl Default for PioStateMachine {
    fn default() -> (r: Self)
        ensures
            r@ == sm_initial(),
    {
        PioStateMachine {
            pc: 0,
            enabled: false,
            clkdiv: 0x0001_0000,
            execctrl: 0,
            shiftctrl: 0,
            pinctrl: 0,
            instr: 0,
            tx_fifo: VecDeque::with_capacity(FIFO_SIZE),
            rx_fifo: VecDeque::with_capacity(FIFO_SIZE),
            isr: 0,
            osr: 0,
            isr_count: 0,
            osr_count: 0,
            x: 0,
            y: 0,
            delay: 0,
            waiting: false,
        }
    }
}

/// PIO block.
#[derive(Debug)]
pub struct Pio {
    /// PIO instance ID (0 or 1).
    pub id: u8,
    /// Base address.
    pub base: u32,
    /// Control register.
    pub ctrl: u32,
    /// FIFO status.
    pub fstat: u32,
    /// FIFO debug.
    pub fdebug: u32,
    /// FIFO levels.
    pub flevel: u32,
    /// IRQ status.
    pub irq: u32,
    /// IRQ force.
    pub irq_force: u32,
    /// Input sync bypass.
    pub input_sync_bypass: u32,
    /// Instruction memory.
    pub instr_mem: [u16; 32],
    /// State machines.
    pub state_machines: [PioStateMachine; 4],
    /// Clock divider counter for each state machine.
    pub clkdiv_counter: [u32; 4],
}

/// Abstract state of a PIO block.
#[verifier::ext_equal]
pub ghost struct PioState {
    pub id: u8,
    pub base: u32,
    pub ctrl: u32,
    pub fstat: u32,
    pub fdebug: u32,
    pub flevel: u32,
    pub irq: u32,
    pub irq_force: u32,
    pub input_sync_bypass: u32,
    pub instr_mem: Seq<u16>,
    pub sms: Seq<PioSmState>,
    pub counters: Seq<u32>,
}

impl View for Pio {
    type V = PioState;

    open spec fn view(&self) -> PioState {
        PioState {
            id: self.id,
            base: self.base,
            ctrl: self.ctrl,
            fstat: self.fstat,
            fdebug: self.fdebug,
            flevel: self.flevel,
            irq: self.irq,
            irq_force: self.irq_force,
            input_sync_bypass: self.input_sync_bypass,
            instr_mem: self.instr_mem@,
            sms: self.state_machines@.map_values(|m: PioStateMachine| m@),
            counters: self.clkdiv_counter@,
        }
    }
}

/// FIFO status after adding state machine `i`'s flags to `f`: TX empty at bit
/// `i`, TX full at `4 + i`, RX empty at `8 + i`, RX full at `12 + i`.
pub open spec fn fstat_with(f: u32, s: PioSmState, i: u32) -> u32 {
    let f1 = if s.tx.len() == 0 { f | (1u32 << i) } else { f };
    let f2 = if s.tx.len() >= FIFO_SIZE { f1 | (1u32 << (4 + i) as u32) } else { f1 };
    let f3 = if s.rx.len() == 0 { f2 | (1u32 << (8 + i) as u32) } else { f2 };
    if s.rx.len() >= FIFO_SIZE { f3 | (1u32 << (12 + i) as u32) } else { f3 }
}

/// FIFO status of the first `n` state machines.
pub open spec fn fstat_upto(sms: Seq<PioSmState>, n: int) -> u32
    decreases n,
{
    if n <= 0 {
        0
    } else {
        fstat_with(fstat_upto(sms, n - 1), sms[n - 1], (n - 1) as u32)
    }
}

/// FIFO levels after adding state machine `i`'s: TX level in bits `8i..8i+4`,
/// RX level in bits `8i+4..8i+8`.
pub open spec fn flevel_with(f: u32, s: PioSmState, i: u32) -> u32 {
    let f1 = f | (((s.tx.len() as u32) & 0xF) << (i * 8) as u32);
    f1 | (((s.rx.len() as u32) & 0xF) << (i * 8 + 4) as u32)
}

/// FIFO levels of the first `n` state machines.
pub open spec fn flevel_upto(sms: Seq<PioSmState>, n: int) -> u32
    decreases n,
{
    if n <= 0 {
        0
    } else {
        flevel_with(flevel_upto(sms, n - 1), sms[n - 1], (n - 1) as u32)
    }
}

/// Base address of a PIO instance.
pub open spec fn base_of_id(id: u8) -> u32 {
    if id == 0 { PIO0_BASE } else { PIO1_BASE }
}

impl PioState {
    pub open spec fn initial(id: u8) -> PioState {
        PioState {
            id: id,
            base: base_of_id(id),
            ctrl: 0,
            fstat: 0x0000_0F0F,
            fdebug: 0,
            flevel: 0,
            irq: 0,
            irq_force: 0,
            input_sync_bypass: 0,
            instr_mem: Seq::new(32, |i: int| 0u16),
            sms: Seq::new(4, |i: int| sm_initial()),
            counters: Seq::new(4, |i: int| 0u32),
        }
    }

    pub open spec fn wf(self) -> bool {
        &&& self.instr_mem.len() == INSTR_MEM_SIZE
        &&& self.sms.len() == NUM_SMS
        &&& self.counters.len() == NUM_SMS
    }

    /// FIFO status and level registers recomputed from the FIFOs.
    pub open spec fn with_status(self) -> PioState {
        PioState { fstat: fstat_upto(self.sms, 4), flevel: flevel_upto(self.sms, 4), ..self }
    }

    pub open spec fn with_sm(self, i: int, s: PioSmState) -> PioState {
        PioState { sms: self.sms.update(i, s), ..self }
    }
}

/// A state machine register read at an offset within its register group.
pub open spec fn sm_reg_value(m: PioSmState, reg: u32) -> u32 {
    if reg == 0x0 {
        m.clkdiv
    } else if reg == 0x4 {
        m.execctrl
    } else if reg == 0x8 {
        m.shiftctrl
    } else if reg == 0xC {
        m.pc as u32
    } else if reg == 0x10 {
        m.instr as u32
    } else if reg == 0x14 {
        m.pinctrl
    } else {
        0
    }
}

/// A state machine register written at an offset within its register group.
pub open spec fn sm_reg_written(m: PioSmState, reg: u32, value: u32) -> PioSmState {
    if reg == 0x0 {
        PioSmState { clkdiv: value, ..m }
    } else if reg == 0x4 {
        PioSmState { execctrl: value, ..m }
    } else if reg == 0x8 {
        PioSmState { shiftctrl: value, ..m }
    } else if reg == 0xC {
        PioSmState { pc: (value & 0x1F) as u8, ..m }
    } else if reg == 0x10 {
        PioSmState { instr: value as u16, ..m }
    } else if reg == 0x14 {
        PioSmState { pinctrl: value, ..m }
    } else {
        m
    }
}

/// Offsets of the instruction memory window.
pub open spec fn is_instr_offset(offset: u32) -> bool {
    regs::INSTR_MEM0 <= offset < regs::INSTR_MEM0 + 128
}

/// Offsets of the state machine register groups.
pub open spec fn is_sm_offset(offset: u32) -> bool {
    regs::SM0_CLKDIV <= offset < regs::SM0_CLKDIV + 4 * 0x18
}

/// The TX FIFO (0..4) or RX FIFO (4..8) that an offset names, if any.
pub open spec fn fifo_reg(offset: u32) -> int {
    if regs::TXF0 <= offset <= regs::RXF3 && offset % 4 == 0 {
        (offset - regs::TXF0) / 4
    } else {
        -1
    }
}

/// Offsets a read can decode: every word of the control block and any
/// offset from the instruction memory on.
pub open spec fn read_ok(offset: u32) -> bool {
    offset >= regs::INSTR_MEM0 || (offset <= regs::DBG_CFGINFO && offset % 4 == 0)
}

/// One clock of state machine `i`: count the divider and run a cycle when it
/// reaches the integer divisor.
pub open spec fn tick_sm(s: PioState, i: int) -> PioState {
    let m = s.sms[i];
    if !m.enabled {
        s
    } else if s.counters[i] + 1 >= (m.clkdiv >> 16u32) {
        PioState {
            counters: s.counters.update(i, 0),
            sms: s.sms.update(i, step(m, s.instr_mem)),
            ..s
        }
    } else {
        PioState { counters: s.counters.update(i, (s.counters[i] + 1) as u32), ..s }
    }
}

/// The first `n` state machines clocked in order.
pub open spec fn tick_upto(s: PioState, n: int) -> PioState
    decreases n,
{
    if n <= 0 {
        s
    } else {
        tick_sm(tick_upto(s, n - 1), n - 1)
    }
}

impl PioState {
    pub open spec fn read_value(self, offset: u32) -> u32 {
        let f = fifo_reg(offset);
        if offset == regs::CTRL {
            self.ctrl
        } else if offset == regs::FSTAT {
            self.fstat
        } else if offset == regs::FDEBUG {
            self.fdebug
        } else if offset == regs::FLEVEL {
            self.flevel
        } else if 0 <= f < 4 {
            if self.sms[f].tx.len() > 0 { self.sms[f].tx[0] } else { 0 }
        } else if 4 <= f < 8 {
            if self.sms[f - 4].rx.len() > 0 { self.sms[f - 4].rx[0] } else { 0 }
        } else if offset == regs::IRQ {
            self.irq
        } else if offset == regs::IRQ_FORCE {
            self.irq_force
        } else if offset == regs::INPUT_SYNC_BYPASS {
            self.input_sync_bypass
        } else if offset == regs::DBG_PADOUT || offset == regs::DBG_PADOE {
            0
        } else if offset == regs::DBG_CFGINFO {
            (NUM_SMS as u32) | ((INSTR_MEM_SIZE as u32) << 8u32)
        } else if is_instr_offset(offset) {
            self.instr_mem[(offset - regs::INSTR_MEM0) / 4] as u32
        } else {
            let so = (offset - regs::SM0_CLKDIV) as u32;
            if so / 0x18 < 4 {
                sm_reg_value(self.sms[(so / 0x18) as int], so % 0x18)
            } else {
                0
            }
        }
    }

    /// A read of an RX FIFO register pops it; other reads change nothing.
    pub open spec fn after_read(self, offset: u32) -> PioState {
        let f = fifo_reg(offset);
        if 4 <= f < 8 && self.sms[f - 4].rx.len() > 0 {
            self.with_sm(f - 4, PioSmState { rx: self.sms[f - 4].rx.drop_first(), ..self.sms[f - 4] })
        } else {
            self
        }
    }

    /// Register effect of a write, before the status registers are recomputed.
    pub open spec fn written(self, offset: u32, value: u32) -> PioState {
        let f = fifo_reg(offset);
        if offset == regs::CTRL {
            PioState {
                ctrl: value,
                sms: self.sms.map(
                    |i: int, m: PioSmState| PioSmState { enabled: value & (1u32 << i as u32) != 0, ..m },
                ),
                ..self
            }
        } else if offset == regs::FDEBUG {
            PioState { fdebug: self.fdebug & !value, ..self }
        } else if 0 <= f < 4 {
            if self.sms[f].tx.len() < FIFO_SIZE {
                self.with_sm(f, PioSmState { tx: self.sms[f].tx.push(value), ..self.sms[f] })
            } else {
                self
            }
        } else if offset == regs::IRQ {
            PioState { irq: self.irq & !value, ..self }
        } else if offset == regs::IRQ_FORCE {
            PioState { irq: self.irq | value, ..self }
        } else if offset == regs::INPUT_SYNC_BYPASS {
            PioState { input_sync_bypass: value, ..self }
        } else if is_instr_offset(offset) {
            PioState {
                instr_mem: self.instr_mem.update((offset - regs::INSTR_MEM0) / 4, value as u16),
                ..self
            }
        } else if is_sm_offset(offset) {
            let so = (offset - regs::SM0_CLKDIV) as u32;
            let i = (so / 0x18) as int;
            self.with_sm(i, sm_reg_written(self.sms[i], so % 0x18, value))
        } else {
            self
        }
    }

    /// Whether a clock tick stays within the machine: no enabled divider
    /// counter at its limit, and every state machine that fetches an
    /// instruction has its program counter inside the instruction memory.
    pub open spec fn tick_ok(self) -> bool {
        forall|i: int|
            0 <= i < NUM_SMS && (#[trigger] self.sms[i]).enabled ==> self.counters[i] < u32::MAX
                && (self.sms[i].delay == 0 ==> self.sms[i].pc < 32)
    }

    pub open spec fn after_tick(self) -> PioState {
        tick_upto(self, 4).with_status()
    }

    pub open spec fn after_reset(self) -> PioState {
        PioState { id: self.id, base: self.base, ..PioState::initial(self.id) }
    }
}

/// What one step does with the instruction `i` at the program counter, by its
/// fields (opcode in bits 15:13, destination in bits 7:5, source or data in
/// the low bits, delay in bits 12:8): a jump loads the low five bits into the
/// program counter; any other instruction advances it modulo 32 and loads its
/// delay; SET with bit 5 set loads X with the five data bits and keeps Y;
/// MOV copies X, Y or zero into X or Y; the FIFO instructions move a word
/// between a FIFO and a shift register.
pub proof fn lemma_instruction_effects(s: PioSmState, mem: Seq<u16>)
    requires
        s.delay == 0,
        0 <= s.pc < mem.len(),
    ensures
        ({
            let i = mem[s.pc as int];
            let t = step(s, mem);
            let op = i / 8192;
            &&& op == 0 ==> t.pc == i % 32 && t.x == s.x && t.y == s.y
            &&& op != 0 ==> t.pc == (s.pc + 1) % 32 && t.delay == (i / 256) % 32
            &&& op == 7 && (i / 32) % 2 == 1 ==> t.x == i % 32 && t.y == s.y
            &&& op == 7 && (i / 32) % 2 == 0 ==> t.x == s.x && t.y == s.y
            &&& op == 6 && (i / 32) % 8 == 0 ==> t.y == s.y && t.x == (if i % 8 == 0 {
                s.x
            } else if i % 8 == 1 {
                s.y
            } else {
                0
            })
            &&& op == 6 && (i / 32) % 8 == 1 ==> t.x == s.x && t.y == (if i % 8 == 0 {
                s.x
            } else if i % 8 == 1 {
                s.y
            } else {
                0
            })
            &&& op == 4 && s.tx.len() > 0 ==> t.osr == s.tx[0] && t.tx == s.tx.drop_first()
            &&& op == 5 && s.rx.len() < FIFO_SIZE ==> t.rx == s.rx.push(s.isr)
        }),
{
    let i = mem[s.pc as int];
    assert((i >> 13u16) & 7 == i / 8192 && i & 0x1F == i % 32 && (i >> 5u16) & 1 == (i / 32) % 2
        && (i >> 5u16) & 7 == (i / 32) % 8 && i & 7 == i % 8 && (i >> 8u16) & 0x1F == (i / 256)
        % 32) by (bit_vector);
}

/// A state machine's program counter stays inside the instruction memory.
pub proof fn lemma_step_keeps_pc(s: PioSmState, mem: Seq<u16>)
    requires
        s.pc < 32,
    ensures
        step(s, mem).pc < 32,
{
    if s.delay == 0 {
        crate::bits::lemma_half_facts(mem[s.pc as int]);
    }
}

impl PioState {
    /// Every divider counter within 16 bits and every program counter inside
    /// the instruction memory.
    pub open spec fn steady(self) -> bool {
        &&& self.wf()
        &&& forall|i: int|
            0 <= i < NUM_SMS ==> #[trigger] self.counters[i] <= 0xFFFF && self.sms[i].pc < 32
    }
}

proof fn lemma_tick_upto_steady(s: PioState, n: int)
    requires
        s.steady(),
        0 <= n <= NUM_SMS,
    ensures
        tick_upto(s, n).steady(),
        tick_upto(s, n).instr_mem == s.instr_mem,
    decreases n,
{
    if n > 0 {
        lemma_tick_upto_steady(s, n - 1);
        let t = tick_upto(s, n - 1);
        let i = n - 1;
        let m = t.sms[i];
        crate::bits::lemma_word_facts(m.clkdiv, 0);
        assert(t.counters[i] <= 0xFFFF && t.sms[i].pc < 32);
        lemma_step_keeps_pc(m, t.instr_mem);
        let u = tick_sm(t, i);
        assert forall|j: int| 0 <= j < NUM_SMS implies #[trigger] u.counters[j] <= 0xFFFF
            && u.sms[j].pc < 32 by {
            assert(t.counters[j] <= 0xFFFF && t.sms[j].pc < 32);
        }
    }
}

/// A steady PIO block can always be ticked, and stays steady: divider
/// counters never reach their limit and program counters never leave the
/// instruction memory.
pub proof fn lemma_tick_keeps_steady(s: PioState)
    requires
        s.steady(),
    ensures
        s.tick_ok(),
        s.after_tick().steady(),
{
    assert forall|i: int| 0 <= i < NUM_SMS && (#[trigger] s.sms[i]).enabled implies s.counters[i]
        < u32::MAX && (s.sms[i].delay == 0 ==> s.sms[i].pc < 32) by {
        assert(s.counters[i] <= 0xFFFF && s.sms[i].pc < 32);
    }
    lemma_tick_upto_steady(s, 4);
    let t = tick_upto(s, 4);
    assert forall|j: int| 0 <= j < NUM_SMS implies #[trigger] t.with_status().counters[j] <= 0xFFFF
        && t.with_status().sms[j].pc < 32 by {
        assert(t.counters[j] <= 0xFFFF && t.sms[j].pc < 32);
    }
}

impl Pio {
    pub open spec fn wf(&self) -> bool {
        self@.wf()
    }

    /// Recompute the FIFO status register.
    pub fn update_fstat(&mut self)
        ensures
            final(self)@ == (PioState { fstat: fstat_upto(old(self)@.sms, 4), ..old(self)@ }),
    {
        let mut f: u32 = 0;
        let mut i: usize = 0;
        while i < NUM_SMS
            invariant
                0 <= i <= NUM_SMS,
                self.state_machines@.len() == 4,
                f == fstat_upto(self@.sms, i as int),
            decreases NUM_SMS - i,
        {
            let k = i as u32;
            if self.state_machines[i].tx_empty() {
                f = f | (1u32 << k);
            }
            if self.state_machines[i].tx_full() {
                f = f | (1u32 << (4 + k));
            }
            if self.state_machines[i].rx_empty() {
                f = f | (1u32 << (8 + k));
            }
            if self.state_machines[i].rx_full() {
                f = f | (1u32 << (12 + k));
            }
            i = i + 1;
        }
        self.fstat = f;
    }

    /// Recompute the FIFO level register.
    pub fn update_flevel(&mut self)
        ensures
            final(self)@ == (PioState { flevel: flevel_upto(old(self)@.sms, 4), ..old(self)@ }),
    {
        let mut f: u32 = 0;
        let mut i: usize = 0;
        while i < NUM_SMS
            invariant
                0 <= i <= NUM_SMS,
                self.state_machines@.len() == 4,
                f == flevel_upto(self@.sms, i as int),
            decreases NUM_SMS - i,
        {
            let k = i as u32;
            let tx_level = self.state_machines[i].tx_fifo.len() as u32;
            let rx_level = self.state_machines[i].rx_fifo.len() as u32;
            f = f | ((tx_level & 0xF) << (k * 8));
            f = f | ((rx_level & 0xF) << (k * 8 + 4));
            i = i + 1;
        }
        self.flevel = f;
    }

    /// Push to the TX FIFO of a state machine; refused for a full FIFO or a
    /// state machine that does not exist.
    pub fn push_tx(&mut self, sm: usize, value: u32) -> (r: bool)
        ensures
            sm >= NUM_SMS ==> !r && final(self)@ == old(self)@,
            sm < NUM_SMS ==> r == (old(self)@.sms[sm as int].tx.len() < FIFO_SIZE),
            sm < NUM_SMS && r ==> final(self)@ == old(self)@.with_sm(
                sm as int,
                PioSmState { tx: old(self)@.sms[sm as int].tx.push(value), ..old(self)@.sms[sm as int] },
            ),
            sm < NUM_SMS && !r ==> final(self)@ == old(self)@,
    {
        if sm < NUM_SMS {
            let r = self.state_machines[sm].push_tx(value);
            proof {
                assert(self@.sms =~= old(self)@.sms.update(sm as int, self.state_machines@[sm as int]@));
            }
            r
        } else {
            false
        }
    }

    /// Create a PIO block; instance 0 sits at PIO0_BASE, any other at PIO1_BASE.
    pub fn new(id: u8) -> (r: Self)
        ensures
            r@ == PioState::initial(id),
    {
        let p = Pio {
            id,
            base: if id == 0 { PIO0_BASE } else { PIO1_BASE },
            ctrl: 0,
            fstat: 0x0000_0F0F,
            fdebug: 0,
            flevel: 0,
            irq: 0,
            irq_force: 0,
            input_sync_bypass: 0,
            instr_mem: [0u16; 32],
            state_machines: [
                PioStateMachine::default(),
                PioStateMachine::default(),
                PioStateMachine::default(),
                PioStateMachine::default(),
            ],
            clkdiv_counter: [0u32; 4],
        };
        assert(p@.sms =~= PioState::initial(id).sms);
        p
    }

    /// Device identifier.
    pub fn id(&self) -> (r: DeviceId)
        ensures
            r == DeviceId::PIO,
    {
        DeviceId::PIO
    }

    /// Base address.
    pub fn base(&self) -> (r: u32)
        ensures
            r == self.base,
    {
        self.base
    }

    /// Copy a program into instruction memory from `offset`, dropping what
    /// does not fit.
    pub fn load_program(&mut self, offset: usize, program: &[u16])
        requires
            offset + program@.len() <= usize::MAX,
        ensures
            final(self)@ == (PioState {
                instr_mem: Seq::new(
                    32,
                    |i: int|
                        if offset <= i < offset + program@.len() {
                            program@[i - offset]
                        } else {
                            old(self)@.instr_mem[i]
                        },
                ),
                ..old(self)@
            }),
    {
        let total = offset + program.len();
        let end = if total < INSTR_MEM_SIZE { total } else { INSTR_MEM_SIZE };
        let mut i = offset;
        while i < end
            invariant
                offset <= i,
                i <= end || i == offset,
                end <= 32,
                end == (if offset + program@.len() < 32 { offset + program@.len() } else { 32 }),
                self.instr_mem@.len() == 32,
                forall|j: int|
                    0 <= j < 32 ==> self.instr_mem@[j] == (if offset <= j < i {
                        program@[j - offset]
                    } else {
                        old(self)@.instr_mem[j]
                    }),
                self.id == old(self).id,
                self.base == old(self).base,
                self.ctrl == old(self).ctrl,
                self.fstat == old(self).fstat,
                self.fdebug == old(self).fdebug,
                self.flevel == old(self).flevel,
                self.irq == old(self).irq,
                self.irq_force == old(self).irq_force,
                self.input_sync_bypass == old(self).input_sync_bypass,
                self.state_machines@ == old(self).state_machines@,
                self.clkdiv_counter@ == old(self).clkdiv_counter@,
            decreases end - i,
        {
            self.instr_mem[i] = program[i - offset];
            i = i + 1;
        }
        assert(self@.instr_mem =~= Seq::new(
            32,
            |j: int|
                if offset <= j < offset + program@.len() {
                    program@[j - offset]
                } else {
                    old(self)@.instr_mem[j]
                },
        ));
        assert(self@.sms =~= old(self)@.sms);
    }

    /// Whether a state machine is enabled; false for one that does not exist.
    pub fn sm_enabled(&self, sm: usize) -> (r: bool)
        ensures
            r == (sm < NUM_SMS && self.state_machines@[sm as int].enabled),
    {
        if sm < NUM_SMS {
            self.state_machines[sm].enabled
        } else {
            false
        }
    }

    /// Program counter of a state machine; 0 for one that does not exist.
    pub fn sm_pc(&self, sm: usize) -> (r: u8)
        ensures
            r == (if sm < NUM_SMS { self.state_machines@[sm as int].pc } else { 0 }),
    {
        if sm < NUM_SMS {
            self.state_machines[sm].pc
        } else {
            0
        }
    }

    /// Enable or disable a state machine and its CTRL bit.
    pub fn set_sm_enabled(&mut self, sm: usize, enabled: bool)
        ensures
            sm >= NUM_SMS ==> final(self)@ == old(self)@,
            sm < NUM_SMS ==> final(self)@ == (PioState {
                ctrl: if enabled {
                    old(self).ctrl | (1u32 << sm as u32)
                } else {
                    old(self).ctrl & !(1u32 << sm as u32)
                },
                sms: old(self)@.sms.update(
                    sm as int,
                    PioSmState { enabled: enabled, ..old(self)@.sms[sm as int] },
                ),
                ..old(self)@
            }),
    {
        if sm < NUM_SMS {
            self.state_machines[sm].enabled = enabled;
            if enabled {
                self.ctrl = self.ctrl | (1u32 << sm as u32);
            } else {
                self.ctrl = self.ctrl & !(1u32 << sm as u32);
            }
            assert(self@.sms =~= old(self)@.sms.update(
                sm as int,
                PioSmState { enabled: enabled, ..old(self)@.sms[sm as int] },
            ));
        }
    }

    /// Start a state machine.
    pub fn start_sm(&mut self, sm: usize)
        ensures
            sm >= NUM_SMS ==> final(self)@ == old(self)@,
            sm < NUM_SMS ==> final(self)@ == (PioState {
                ctrl: old(self).ctrl | (1u32 << sm as u32),
                sms: old(self)@.sms.update(
                    sm as int,
                    PioSmState { enabled: true, ..old(self)@.sms[sm as int] },
                ),
                ..old(self)@
            }),
    {
        self.set_sm_enabled(sm, true);
    }

    /// Stop a state machine.
    pub fn stop_sm(&mut self, sm: usize)
        ensures
            sm >= NUM_SMS ==> final(self)@ == old(self)@,
            sm < NUM_SMS ==> final(self)@ == (PioState {
                ctrl: old(self).ctrl & !(1u32 << sm as u32),
                sms: old(self)@.sms.update(
                    sm as int,
                    PioSmState { enabled: false, ..old(self)@.sms[sm as int] },
                ),
                ..old(self)@
            }),
    {
        self.set_sm_enabled(sm, false);
    }

    /// Pop the oldest word of a state machine's TX FIFO.
    pub fn pop_tx(&mut self, sm: usize) -> (r: Option<u32>)
        ensures
            sm >= NUM_SMS || old(self)@.sms[sm as int].tx.len() == 0 ==> r is None && final(self)@
                == old(self)@,
            sm < NUM_SMS && old(self)@.sms[sm as int].tx.len() > 0 ==> r == Some(
                old(self)@.sms[sm as int].tx[0],
            ) && final(self)@ == old(self)@.with_sm(
                sm as int,
                PioSmState { tx: old(self)@.sms[sm as int].tx.drop_first(), ..old(self)@.sms[sm as int] },
            ),
    {
        if sm < NUM_SMS {
            let r = self.state_machines[sm].pop_tx();
            assert(self@.sms =~= old(self)@.sms.update(sm as int, self.state_machines@[sm as int]@));
            r
        } else {
            None
        }
    }

    /// Push to a state machine's RX FIFO; refused for a full FIFO or a state
    /// machine that does not exist.
    pub fn push_rx(&mut self, sm: usize, value: u32) -> (r: bool)
        ensures
            sm >= NUM_SMS ==> !r && final(self)@ == old(self)@,
            sm < NUM_SMS ==> r == (old(self)@.sms[sm as int].rx.len() < FIFO_SIZE),
            sm < NUM_SMS && r ==> final(self)@ == old(self)@.with_sm(
                sm as int,
                PioSmState { rx: old(self)@.sms[sm as int].rx.push(value), ..old(self)@.sms[sm as int] },
            ),
            sm < NUM_SMS && !r ==> final(self)@ == old(self)@,
    {
        if sm < NUM_SMS {
            let r = self.state_machines[sm].push_rx(value);
            assert(self@.sms =~= old(self)@.sms.update(sm as int, self.state_machines@[sm as int]@));
            r
        } else {
            false
        }
    }

    /// Pop the oldest word of a state machine's RX FIFO.
    pub fn pop_rx(&mut self, sm: usize) -> (r: Option<u32>)
        ensures
            sm >= NUM_SMS || old(self)@.sms[sm as int].rx.len() == 0 ==> r is None && final(self)@
                == old(self)@,
            sm < NUM_SMS && old(self)@.sms[sm as int].rx.len() > 0 ==> r == Some(
                old(self)@.sms[sm as int].rx[0],
            ) && final(self)@ == old(self)@.with_sm(
                sm as int,
                PioSmState { rx: old(self)@.sms[sm as int].rx.drop_first(), ..old(self)@.sms[sm as int] },
            ),
    {
        if sm < NUM_SMS {
            let r = self.state_machines[sm].pop_rx();
            assert(self@.sms =~= old(self)@.sms.update(sm as int, self.state_machines@[sm as int]@));
            r
        } else {
            None
        }
    }

    /// Run one cycle of an enabled state machine.
    fn execute_instruction(&mut self, sm: usize)
        requires
            sm < NUM_SMS,
            old(self).state_machines@[sm as int].enabled && old(self).state_machines@[sm as int].delay
                == 0 ==> old(self).state_machines@[sm as int].pc < 32,
        ensures
            !old(self)@.sms[sm as int].enabled ==> final(self)@ == old(self)@,
            old(self)@.sms[sm as int].enabled ==> final(self)@ == old(self)@.with_sm(
                sm as int,
                step(old(self)@.sms[sm as int], old(self)@.instr_mem),
            ),
    {
        if !self.state_machines[sm].enabled {
            return;
        }
        self.state_machines[sm].step(&self.instr_mem);
        assert(self@.sms =~= old(self)@.sms.update(sm as int, self.state_machines@[sm as int]@));
    }

    /// Clock every enabled state machine once, then recompute the FIFO status.
    pub fn tick(&mut self)
        requires
            old(self)@.tick_ok(),
        ensures
            final(self)@ == old(self)@.after_tick(),
    {
        let mut sm: usize = 0;
        while sm < NUM_SMS
            invariant
                0 <= sm <= NUM_SMS,
                old(self)@.wf(),
                old(self)@.tick_ok(),
                self@ == tick_upto(old(self)@, sm as int),
                self@.wf(),
                forall|j: int|
                    sm <= j < NUM_SMS ==> self@.sms[j] == old(self)@.sms[j] && self@.counters[j]
                        == old(self)@.counters[j],
            decreases NUM_SMS - sm,
        {
            assert(old(self)@.sms[sm as int].enabled ==> old(self)@.counters[sm as int] < u32::MAX);
            if self.state_machines[sm].enabled {
                let div_int = self.state_machines[sm].clkdiv >> 16;
                self.clkdiv_counter[sm] = self.clkdiv_counter[sm] + 1;
                if self.clkdiv_counter[sm] >= div_int {
                    self.clkdiv_counter[sm] = 0;
                    self.execute_instruction(sm);
                }
            }
            proof {
                let t = tick_upto(old(self)@, sm as int);
                assert(self@ =~= tick_sm(t, sm as int));
            }
            sm = sm + 1;
        }
        self.update_fstat();
        self.update_flevel();
    }

    /// IRQ flags are pending.
    pub fn has_interrupt(&self) -> (r: bool)
        ensures
            r == (self.irq != 0),
    {
        self.irq != 0
    }

    /// Some state machine is enabled.
    pub fn any_sm_enabled(&self) -> (r: bool)
        ensures
            r == exists|i: int| 0 <= i < NUM_SMS && (#[trigger] self.state_machines@[i]).enabled,
    {
        let mut i: usize = 0;
        while i < NUM_SMS
            invariant
                0 <= i <= NUM_SMS,
                self.state_machines@.len() == 4,
                forall|j: int| 0 <= j < i ==> !(#[trigger] self.state_machines@[j]).enabled,
            decreases NUM_SMS - i,
        {
            if self.state_machines[i].enabled {
                return true;
            }
            i = i + 1;
        }
        false
    }
}

impl Pio {
    /// A state machine register at an offset within its register group.
    fn sm_reg(&self, sm: usize, reg: u32) -> (r: u32)
        requires
            sm < NUM_SMS,
        ensures
            r == sm_reg_value(self@.sms[sm as int], reg),
    {
        let m = &self.state_machines[sm];
        if reg == 0x0 {
            m.clkdiv
        } else if reg == 0x4 {
            m.execctrl
        } else if reg == 0x8 {
            m.shiftctrl
        } else if reg == 0xC {
            m.pc as u32
        } else if reg == 0x10 {
            m.instr as u32
        } else if reg == 0x14 {
            m.pinctrl
        } else {
            0
        }
    }

    /// Write a state machine register at an offset within its register group.
    fn set_sm_reg(&mut self, sm: usize, reg: u32, value: u32)
        requires
            sm < NUM_SMS,
        ensures
            final(self)@ == old(self)@.with_sm(
                sm as int,
                sm_reg_written(old(self)@.sms[sm as int], reg, value),
            ),
    {
        if reg == 0x0 {
            self.state_machines[sm].clkdiv = value;
        } else if reg == 0x4 {
            self.state_machines[sm].execctrl = value;
        } else if reg == 0x8 {
            self.state_machines[sm].shiftctrl = value;
        } else if reg == 0xC {
            self.state_machines[sm].pc = (value & 0x1F) as u8;
        } else if reg == 0x10 {
            self.state_machines[sm].instr = value as u16;
        } else if reg == 0x14 {
            self.state_machines[sm].pinctrl = value;
        }
        assert(self@.sms =~= old(self)@.sms.update(
            sm as int,
            sm_reg_written(old(self)@.sms[sm as int], reg, value),
        ));
    }

    /// Register read; a read of an RX FIFO register pops it.
    pub fn read(&mut self, addr: u32) -> (r: u32)
        requires
            addr >= old(self).base,
            read_ok((addr - old(self).base) as u32),
        ensures
            r == old(self)@.read_value((addr - old(self).base) as u32),
            final(self)@ == old(self)@.after_read((addr - old(self).base) as u32),
    {
        let offset = addr - self.base;
        if offset == regs::CTRL {
            self.ctrl
        } else if offset == regs::FSTAT {
            self.fstat
        } else if offset == regs::FDEBUG {
            self.fdebug
        } else if offset == regs::FLEVEL {
            self.flevel
        } else if regs::TXF0 <= offset && offset <= regs::TXF3 && offset % 4 == 0 {
            let k = ((offset - regs::TXF0) / 4) as usize;
            if self.state_machines[k].tx_fifo.len() > 0 {
                self.state_machines[k].tx_fifo[0]
            } else {
                0
            }
        } else if regs::RXF0 <= offset && offset <= regs::RXF3 && offset % 4 == 0 {
            let k = ((offset - regs::RXF0) / 4) as usize;
            match self.pop_rx(k) {
                Some(v) => v,
                None => 0,
            }
        } else if offset == regs::IRQ {
            self.irq
        } else if offset == regs::IRQ_FORCE {
            self.irq_force
        } else if offset == regs::INPUT_SYNC_BYPASS {
            self.input_sync_bypass
        } else if offset == regs::DBG_PADOUT || offset == regs::DBG_PADOE {
            0
        } else if offset == regs::DBG_CFGINFO {
            (NUM_SMS as u32) | ((INSTR_MEM_SIZE as u32) << 8)
        } else if regs::INSTR_MEM0 <= offset && offset < regs::INSTR_MEM0 + 128 {
            self.instr_mem[((offset - regs::INSTR_MEM0) / 4) as usize] as u32
        } else {
            let so = offset - regs::SM0_CLKDIV;
            let sm = so / 0x18;
            if sm < 4 {
                self.sm_reg(sm as usize, so % 0x18)
            } else {
                0
            }
        }
    }

    /// Register write; the FIFO status and level registers follow.
    pub fn write(&mut self, addr: u32, value: u32)
        requires
            addr >= old(self).base,
        ensures
            final(self)@ == old(self)@.written((addr - old(self).base) as u32, value).with_status(),
    {
        let offset = addr - self.base;
        if offset == regs::CTRL {
            self.ctrl = value;
            let mut i: usize = 0;
            while i < NUM_SMS
                invariant
                    0 <= i <= NUM_SMS,
                    self.state_machines@.len() == 4,
                    forall|j: int|
                        0 <= j < NUM_SMS ==> (#[trigger] self.state_machines@[j])@ == (if j < i {
                            PioSmState { enabled: value & (1u32 << j as u32) != 0, ..old(self)@.sms[j] }
                        } else {
                            old(self)@.sms[j]
                        }),
                    self@ == (PioState { ctrl: value, sms: self@.sms, ..old(self)@ }),
                decreases NUM_SMS - i,
            {
                self.state_machines[i].enabled = (value & (1u32 << i as u32)) != 0;
                assert(self.state_machines@[i as int]@ == PioSmState {
                    enabled: value & (1u32 << i as u32) != 0,
                    ..old(self)@.sms[i as int]
                });
                i = i + 1;
            }
            assert(self@.sms =~= old(self)@.written(offset, value).sms);
        } else if offset == regs::FDEBUG {
            self.fdebug = self.fdebug & !value;
        } else if regs::TXF0 <= offset && offset <= regs::TXF3 && offset % 4 == 0 {
            let k = ((offset - regs::TXF0) / 4) as usize;
            self.push_tx(k, value);
        } else if offset == regs::IRQ {
            self.irq = self.irq & !value;
        } else if offset == regs::IRQ_FORCE {
            self.irq = self.irq | value;
        } else if offset == regs::INPUT_SYNC_BYPASS {
            self.input_sync_bypass = value;
        } else if regs::INSTR_MEM0 <= offset && offset < regs::INSTR_MEM0 + 128 {
            self.instr_mem[((offset - regs::INSTR_MEM0) / 4) as usize] = value as u16;
        } else if regs::SM0_CLKDIV <= offset && offset < regs::SM0_CLKDIV + 4 * 0x18 {
            let so = offset - regs::SM0_CLKDIV;
            self.set_sm_reg((so / 0x18) as usize, so % 0x18, value);
        }
        self.update_fstat();
        self.update_flevel();
    }

    /// Return to the power-on state, keeping the instance and base address.
    pub fn reset(&mut self)
        ensures
            final(self)@ == old(self)@.after_reset(),
    {
        let id = self.id;
        let base = self.base;
        *self = Pio::new(id);
        self.base = base;
    }
}

impl Default for Pio {
    fn default() -> (r: Self)
        ensures
            r@ == PioState::initial(0),
    {
        Pio::new(0)
    }
}

} // verus!
