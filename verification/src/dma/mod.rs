//! DMA controller: twelve channels with aliased register windows, chaining and interrupts.
use vstd::prelude::*;

use crate::device::DeviceId;

pub mod ctrl;
pub mod regs;

verus! {

/// DMA base address.
pub const DMA_BASE: u32 = 0x5000_0000;

/// Number of DMA channels.
pub const NUM_CHANNELS: usize = 12;

/// One bit per channel.
pub const CHANNEL_MASK: u32 = 0xFFF;

/// Data size for DMA transfers.
#[derive(Debug, Clone, Copy, PartialEq, Eq, Structural)]
pub enum DataSize {
    Byte,
    HalfWord,
    Word,
}

impl Default for DataSize {
    fn default() -> (r: Self)
        ensures
            r == DataSize::Byte,
    {
        DataSize::Byte
    }
}

/// Bytes moved by one transfer of a data size.
pub open spec fn size_bytes(size: DataSize) -> u32 {
    match size {
        DataSize::Byte => 1,
        DataSize::HalfWord => 2,
        DataSize::Word => 4,
    }
}

/// Data size that CTRL bits 3:2 select (the reserved encoding selects bytes).
pub open spec fn size_of_bits(bits: u32) -> DataSize {
    if bits == 1 {
        DataSize::HalfWord
    } else if bits == 2 {
        DataSize::Word
    } else {
        DataSize::Byte
    }
}

/// DMA channel state.
#[derive(Debug, Clone, Copy)]
pub struct DmaChannel {
    pub read_addr: u32,
    pub write_addr: u32,
    pub trans_count: u32,
    pub ctrl: u32,
    pub enabled: bool,
    pub busy: bool,
    pub data_size: DataSize,
    pub incr_read: bool,
    pub incr_write: bool,
}

/// A channel as it is at power-on.
pub open spec fn idle_channel() -> DmaChannel {
    DmaChannel {
        read_addr: 0,
        write_addr: 0,
        trans_count: 0,
        ctrl: 0,
        enabled: false,
        busy: false,
        data_size: DataSize::Byte,
        incr_read: true,
        incr_write: true,
    }
}

impl Default for DmaChannel {
    fn default() -> (r: Self)
        ensures
            r == idle_channel(),
    {
        DmaChannel {
            read_addr: 0,
            write_addr: 0,
            trans_count: 0,
            ctrl: 0,
            enabled: false,
            busy: false,
            data_size: DataSize::Byte,
            incr_read: true,
            incr_write: true,
        }
    }
}

impl DmaChannel {
    pub open spec fn spec_chain_to(self) -> u32 {
        (self.ctrl >> ctrl::CHAIN_TO_SHIFT) & 0x7
    }

    pub open spec fn spec_ring_size(self) -> u32 {
        (self.ctrl >> ctrl::RING_SIZE_SHIFT) & 0xF
    }

    /// Transfer request select (CTRL bits 20:15).
    pub fn treq_sel(&self) -> (r: u32)
        ensures
            r == (self.ctrl >> ctrl::TREQ_SEL_SHIFT) & 0x3F,
    {
        (self.ctrl >> ctrl::TREQ_SEL_SHIFT) & 0x3F
    }

    /// Channel to start when this one completes (CTRL bits 13:11).
    pub fn chain_to(&self) -> (r: usize)
        ensures
            r == self.spec_chain_to(),
            r < 8,
    {
        proof {
            crate::bits::lemma_word_facts(self.ctrl >> 11u32, 0);
        }
        ((self.ctrl >> ctrl::CHAIN_TO_SHIFT) & 0x7) as usize
    }

    /// CTRL.HIGH_PRIORITY is set.
    pub fn is_high_priority(&self) -> (r: bool)
        ensures
            r == (self.ctrl & ctrl::HIGH_PRIORITY != 0),
    {
        (self.ctrl & ctrl::HIGH_PRIORITY) != 0
    }

    /// CTRL.BSWAP is set.
    pub fn is_bswap(&self) -> (r: bool)
        ensures
            r == (self.ctrl & ctrl::BSWAP != 0),
    {
        (self.ctrl & ctrl::BSWAP) != 0
    }

    /// Ring size (CTRL bits 9:6).
    pub fn ring_size(&self) -> (r: u32)
        ensures
            r == self.spec_ring_size(),
    {
        (self.ctrl >> ctrl::RING_SIZE_SHIFT) & 0xF
    }

    /// The ring applies to the read address (CTRL.RING_SEL clear).
    pub fn ring_on_read(&self) -> (r: bool)
        ensures
            r == (self.ctrl & ctrl::RING_SEL == 0),
    {
        (self.ctrl & ctrl::RING_SEL) == 0
    }
}

/// The unit of `size` at `addr` in `mem`, little-endian.
pub open spec fn load(mem: Map<u32, u8>, size: DataSize, addr: u32) -> u32 {
    let b0 = mem[addr] as u32;
    let b1 = mem[(addr + 1) as u32] as u32;
    let b2 = mem[(addr + 2) as u32] as u32;
    let b3 = mem[(addr + 3) as u32] as u32;
    match size {
        DataSize::Byte => b0,
        DataSize::HalfWord => b0 | (b1 << 8u32),
        DataSize::Word => ((b0 | (b1 << 8u32)) | (b2 << 16u32)) | (b3 << 24u32),
    }
}

/// `mem` with the low unit of `size` of `value` stored at `addr`, little-endian.
pub open spec fn store(mem: Map<u32, u8>, size: DataSize, addr: u32, value: u32) -> Map<u32, u8> {
    let m1 = mem.insert(addr, value as u8);
    match size {
        DataSize::Byte => m1,
        DataSize::HalfWord => m1.insert((addr + 1) as u32, (value >> 8u32) as u8),
        DataSize::Word => m1.insert((addr + 1) as u32, (value >> 8u32) as u8).insert(
            (addr + 2) as u32,
            (value >> 16u32) as u8,
        ).insert((addr + 3) as u32, (value >> 24u32) as u8),
    }
}

/// Memory that the DMA moves data through; implemented by the system bus.
///
/// An implementation describes its contents in `bytes`, which its reads
/// return and its writes update, little-endian. The default, an empty map,
/// is for implementations that describe none, and those do not meet the
/// contracts below.
pub trait DmaMemory {
    /// Memory contents by address.
    open spec fn bytes(&self) -> Map<u32, u8> {
        Map::empty()
    }

    fn read_byte(&self, addr: u32) -> (r: u8)
        ensures
            r as u32 == load(self.bytes(), DataSize::Byte, addr),
    ;

    fn read_half(&self, addr: u32) -> (r: u16)
        ensures
            r as u32 == load(self.bytes(), DataSize::HalfWord, addr),
    ;

    fn read_word(&self, addr: u32) -> (r: u32)
        ensures
            r == load(self.bytes(), DataSize::Word, addr),
    ;

    fn write_byte(&mut self, addr: u32, value: u8)
        ensures
            final(self).bytes() == store(old(self).bytes(), DataSize::Byte, addr, value as u32),
    ;

    fn write_half(&mut self, addr: u32, value: u16)
        ensures
            final(self).bytes() == store(old(self).bytes(), DataSize::HalfWord, addr, value as u32),
    ;

    fn write_word(&mut self, addr: u32, value: u32)
        ensures
            final(self).bytes() == store(old(self).bytes(), DataSize::Word, addr, value),
    ;
}

/// The bytes of a word in reverse order.
pub open spec fn swapped(x: u32) -> u32 {
    ((x & 0xFF) << 24u32) | (((x >> 8u32) & 0xFF) << 16u32) | (((x >> 16u32) & 0xFF) << 8u32) | ((
    x >> 24u32) & 0xFF)
}

/// A unit of `size` with its bytes in reverse order: a byte unchanged, the
/// two bytes of a halfword swapped, the four bytes of a word reversed.
pub open spec fn unit_swapped(v: u32, size: DataSize) -> u32 {
    match size {
        DataSize::Byte => v,
        DataSize::HalfWord => ((v & 0xFF) << 8u32) | ((v >> 8u32) & 0xFF),
        DataSize::Word => swapped(v),
    }
}

/// The value a transfer of channel `c` writes: the unit read at its read
/// address, its bytes reversed within the unit when BSWAP is set, cut to the
/// transfer size.
pub open spec fn unit_written(mem: Map<u32, u8>, c: DmaChannel) -> u32 {
    let v = load(mem, c.data_size, c.read_addr);
    let d = if c.ctrl & ctrl::BSWAP != 0 { unit_swapped(v, c.data_size) } else { v };
    match c.data_size {
        DataSize::Byte => (d as u8) as u32,
        DataSize::HalfWord => (d as u16) as u32,
        DataSize::Word => d,
    }
}

/// Memory after one transfer of channel `c`: the unit is stored at its write
/// address.
pub open spec fn moved(mem: Map<u32, u8>, c: DmaChannel) -> Map<u32, u8> {
    store(mem, c.data_size, c.write_addr, unit_written(mem, c))
}

/// DMA device.
#[derive(Debug)]
pub struct Dma {
    pub channels: [DmaChannel; 12],
    pub en: u32,
    pub intr: u32,
    pub inte: u32,
    pub intf: u32,
    pub chan_abort: u32,
    pub n_channels: u32,
}

/// Abstract state of the DMA controller.
#[verifier::ext_equal]
pub ghost struct DmaState {
    pub channels: Seq<DmaChannel>,
    pub en: u32,
    pub intr: u32,
    pub inte: u32,
    pub intf: u32,
    pub chan_abort: u32,
    pub n_channels: u32,
}

impl View for Dma {
    type V = DmaState;

    open spec fn view(&self) -> DmaState {
        DmaState {
            channels: self.channels@,
            en: self.en,
            intr: self.intr,
            inte: self.inte,
            intf: self.intf,
            chan_abort: self.chan_abort,
            n_channels: self.n_channels,
        }
    }
}

/// Mask of the busy channels among the first `n`.
pub open spec fn busy_mask(chs: Seq<DmaChannel>, n: int) -> u32
    decreases n,
{
    if n <= 0 {
        0
    } else {
        busy_mask(chs, n - 1) | (if chs[n - 1].busy { 1u32 << ((n - 1) as u32) } else { 0u32 })
    }
}

/// First busy channel at or after `i` that satisfies the high-priority filter.
pub open spec fn first_busy(chs: Seq<DmaChannel>, i: int, high_only: bool) -> Option<int>
    decreases NUM_CHANNELS - i,
{
    if i >= NUM_CHANNELS || i < 0 {
        None
    } else if chs[i].busy && (!high_only || chs[i].ctrl & ctrl::HIGH_PRIORITY != 0) {
        Some(i)
    } else {
        first_busy(chs, i + 1, high_only)
    }
}

impl DmaState {
    pub open spec fn initial() -> DmaState {
        DmaState {
            channels: Seq::new(NUM_CHANNELS as nat, |i: int| idle_channel()),
            en: 0,
            intr: 0,
            inte: 0,
            intf: 0,
            chan_abort: 0,
            n_channels: 12,
        }
    }

    pub open spec fn wf(self) -> bool {
        self.channels.len() == NUM_CHANNELS
    }

    pub open spec fn with_channel(self, i: int, c: DmaChannel) -> DmaState {
        DmaState { channels: self.channels.update(i, c), ..self }
    }

    /// Starting a transfer marks an enabled channel with work busy.
    pub open spec fn started(self, i: int) -> DmaState {
        if 0 <= i < NUM_CHANNELS && self.channels[i].enabled && self.channels[i].trans_count > 0 {
            let c = self.channels[i];
            self.with_channel(i, DmaChannel { busy: true, ctrl: c.ctrl | ctrl::BUSY, ..c })
        } else {
            self
        }
    }

    pub open spec fn aborted(self, i: int) -> DmaState {
        if 0 <= i < NUM_CHANNELS {
            let c = self.channels[i];
            self.with_channel(i, DmaChannel { busy: false, ctrl: c.ctrl & !ctrl::BUSY, ..c })
        } else {
            self
        }
    }

    pub open spec fn interrupt_status(self) -> u32 {
        (self.intr & self.inte) | self.intf
    }

    /// Channel `i` moves data on this tick.
    pub open spec fn active(self, i: int) -> bool {
        self.channels[i].busy && self.channels[i].trans_count > 0
    }

    /// Channel `i`'s addresses do not overflow when it moves one unit.
    pub open spec fn step_ok(self, i: int) -> bool {
        let c = self.channels[i];
        self.active(i) ==> {
            &&& c.incr_read ==> c.read_addr + size_bytes(c.data_size) <= u32::MAX
            &&& c.incr_write ==> c.write_addr + size_bytes(c.data_size) <= u32::MAX
        }
    }

    /// One transfer on channel `i`: the addresses advance when incrementing (a
    /// configured ring leaves them where they are), the count drops, and on the
    /// last transfer the channel goes idle, raises its interrupt and starts the
    /// channel it chains to.
    pub open spec fn step(self, i: int) -> DmaState {
        if self.active(i) {
            let c = self.channels[i];
            let n = size_bytes(c.data_size);
            let ra = if c.incr_read { (c.read_addr + n) as u32 } else { c.read_addr };
            let wa = if c.incr_write { (c.write_addr + n) as u32 } else { c.write_addr };
            let count = (c.trans_count - 1) as u32;
            if count == 0 {
                let done = DmaChannel {
                    read_addr: ra,
                    write_addr: wa,
                    trans_count: 0,
                    busy: false,
                    ctrl: c.ctrl & !ctrl::BUSY,
                    ..c
                };
                let s = DmaState {
                    channels: self.channels.update(i, done),
                    intr: self.intr | (1u32 << (i as u32)),
                    ..self
                };
                let chain = done.spec_chain_to();
                if chain < NUM_CHANNELS && chain != i {
                    s.started(chain as int)
                } else {
                    s
                }
            } else {
                self.with_channel(
                    i,
                    DmaChannel { read_addr: ra, write_addr: wa, trans_count: count, ..c },
                )
            }
        } else {
            self
        }
    }

    /// Memory after the channels from `i` on are processed in order.
    pub open spec fn tick_mem_from(self, i: int, mem: Map<u32, u8>) -> Map<u32, u8>
        decreases NUM_CHANNELS - i,
    {
        if i >= NUM_CHANNELS || i < 0 {
            mem
        } else {
            let m1 = if self.active(i) { moved(mem, self.channels[i]) } else { mem };
            self.step(i).tick_mem_from(i + 1, m1)
        }
    }

    /// The channels from `i` on, processed in order.
    pub open spec fn tick_from(self, i: int) -> DmaState
        decreases NUM_CHANNELS - i,
    {
        if i >= NUM_CHANNELS || i < 0 {
            self
        } else {
            self.step(i).tick_from(i + 1)
        }
    }

    /// No channel overflows an address while the channels from `i` on are processed.
    pub open spec fn tick_ok_from(self, i: int) -> bool
        decreases NUM_CHANNELS - i,
    {
        if i >= NUM_CHANNELS || i < 0 {
            true
        } else {
            self.step_ok(i) && self.step(i).tick_ok_from(i + 1)
        }
    }

    pub open spec fn debug1(self) -> u32 {
        match first_busy(self.channels, 0, true) {
            Some(i) => i as u32,
            None => match first_busy(self.channels, 0, false) {
                Some(i) => i as u32,
                None => 0,
            },
        }
    }

    /// Channel register read: `reg` within channel `ch`'s 0x40-byte window.
    pub open spec fn channel_reg(c: DmaChannel, reg: u32) -> u32 {
        if reg == 0x00 || reg == 0x14 || reg == 0x28 || reg == 0x3C {
            c.read_addr
        } else if reg == 0x04 || reg == 0x18 || reg == 0x2C || reg == 0x34 {
            c.write_addr
        } else if reg == 0x08 || reg == 0x1C || reg == 0x24 || reg == 0x38 {
            c.trans_count
        } else if reg == 0x0C || reg == 0x10 || reg == 0x20 || reg == 0x30 {
            c.ctrl
        } else {
            0
        }
    }

    pub open spec fn is_channel_offset(offset: u32) -> bool {
        offset < 0x400 && offset / 0x40 < NUM_CHANNELS
    }

    pub open spec fn read_value(self, offset: u32) -> u32 {
        if Self::is_channel_offset(offset) {
            Self::channel_reg(self.channels[(offset / 0x40) as int], offset % 0x40)
        } else if offset == regs::INTR {
            self.intr
        } else if offset == regs::INTE0 {
            self.inte
        } else if offset == regs::INTF0 {
            self.intf
        } else if offset == regs::INTS0 {
            self.interrupt_status()
        } else if offset == regs::EN || offset == regs::CTRL {
            self.en
        } else if offset == regs::DEBUG0 {
            busy_mask(self.channels, NUM_CHANNELS as int)
        } else if offset == regs::DEBUG1 {
            self.debug1()
        } else if offset == regs::CHAN_ABORT {
            self.chan_abort
        } else if offset == regs::N_CHANNELS {
            self.n_channels
        } else {
            0
        }
    }

    /// A write to a triggering register starts the channel when it is enabled.
    pub open spec fn trigger(self, i: int) -> DmaState {
        if self.channels[i].enabled {
            self.started(i)
        } else {
            self
        }
    }

    pub open spec fn after_channel_write(self, i: int, reg: u32, value: u32) -> DmaState {
        let c = self.channels[i];
        if reg == 0x00 {
            self.with_channel(i, DmaChannel { read_addr: value, ..c })
        } else if reg == 0x04 {
            self.with_channel(i, DmaChannel { write_addr: value, ..c })
        } else if reg == 0x08 {
            self.with_channel(i, DmaChannel { trans_count: value, ..c })
        } else if reg == 0x0C {
            self.with_channel(
                i,
                DmaChannel {
                    ctrl: value,
                    enabled: value & ctrl::EN != 0,
                    incr_read: value & ctrl::INCR_READ != 0,
                    incr_write: value & ctrl::INCR_WRITE != 0,
                    data_size: size_of_bits((value >> ctrl::DATA_SIZE_SHIFT) & 0x3),
                    ..c
                },
            ).trigger(i)
        } else if reg == 0x1C {
            self.with_channel(i, DmaChannel { trans_count: value, ..c }).trigger(i)
        } else if reg == 0x2C {
            self.with_channel(i, DmaChannel { write_addr: value, ..c }).trigger(i)
        } else if reg == 0x3C {
            self.with_channel(i, DmaChannel { read_addr: value, ..c }).trigger(i)
        } else {
            self
        }
    }

    /// EN write: each channel's enable follows its bit.
    pub open spec fn with_enables(self, value: u32) -> DmaState {
        DmaState {
            en: value & CHANNEL_MASK,
            channels: Seq::new(
                NUM_CHANNELS as nat,
                |i: int| DmaChannel { enabled: value & (1u32 << (i as u32)) != 0, ..self.channels[i] },
            ),
            ..self
        }
    }

    /// CHAN_ABORT write: each channel whose bit is set is aborted.
    pub open spec fn with_aborts(self, value: u32) -> DmaState {
        DmaState {
            chan_abort: value,
            channels: Seq::new(
                NUM_CHANNELS as nat,
                |i: int|
                    if value & (1u32 << (i as u32)) != 0 {
                        DmaChannel {
                            busy: false,
                            ctrl: self.channels[i].ctrl & !ctrl::BUSY,
                            ..self.channels[i]
                        }
                    } else {
                        self.channels[i]
                    },
            ),
            ..self
        }
    }

    pub open spec fn after_write(self, offset: u32, value: u32) -> DmaState {
        if Self::is_channel_offset(offset) {
            self.after_channel_write((offset / 0x40) as int, offset % 0x40, value)
        } else if offset == regs::INTR {
            DmaState { intr: self.intr & !value, ..self }
        } else if offset == regs::INTE0 {
            DmaState { inte: value & CHANNEL_MASK, ..self }
        } else if offset == regs::INTF0 {
            DmaState { intf: value & CHANNEL_MASK, ..self }
        } else if offset == regs::EN {
            self.with_enables(value)
        } else if offset == regs::CTRL {
            DmaState { en: value & CHANNEL_MASK, ..self }
        } else if offset == regs::CHAN_ABORT {
            self.with_aborts(value)
        } else {
            self
        }
    }
}

proof fn lemma_ring_identity(a: u32, m: u32)
    ensures
        (a & !m) | (a & m) == a,
{
    crate::bits::lemma_word_facts(a, m);
}

proof fn lemma_step_preserves_len(s: DmaState, i: int)
    requires
        s.wf(),
        0 <= i < NUM_CHANNELS,
    ensures
        s.step(i).wf(),
{
}

proof fn lemma_tick_from_wf(s: DmaState, i: int)
    requires
        s.wf(),
    ensures
        s.tick_from(i).wf(),
    decreases NUM_CHANNELS - i,
{
    if 0 <= i < NUM_CHANNELS {
        lemma_step_preserves_len(s, i);
        lemma_tick_from_wf(s.step(i), i + 1);
    }
}

/// One step of an active channel takes one unit off its count; the last unit
/// leaves the channel idle with its interrupt raised.
pub proof fn lemma_step_counts_down(s: DmaState, i: int)
    requires
        s.wf(),
        0 <= i < NUM_CHANNELS,
        s.active(i),
    ensures
        s.step(i).channels[i].trans_count == s.channels[i].trans_count - 1,
        s.channels[i].trans_count == 1 ==> !s.step(i).channels[i].busy,
        s.channels[i].trans_count == 1 ==> s.step(i).intr & (1u32 << (i as u32)) != 0,
{
    crate::bits::lemma_bit_ops(s.intr, i as u32, i as u32);
}

/// A transfer copies its unit from the read address to the write address:
/// a byte as it is, a halfword or word byte for byte, or, with BSWAP, with
/// its bytes in reverse order.
pub proof fn lemma_transfer_copies(mem: Map<u32, u8>, c: DmaChannel)
    ensures
        c.data_size == DataSize::Byte ==> moved(mem, c)[c.write_addr] == mem[c.read_addr],
        c.data_size == DataSize::HalfWord && c.ctrl & ctrl::BSWAP == 0 ==> {
            &&& moved(mem, c)[c.write_addr] == mem[c.read_addr]
            &&& moved(mem, c)[(c.write_addr + 1) as u32] == mem[(c.read_addr + 1) as u32]
        },
        c.data_size == DataSize::HalfWord && c.ctrl & ctrl::BSWAP != 0 ==> {
            &&& moved(mem, c)[c.write_addr] == mem[(c.read_addr + 1) as u32]
            &&& moved(mem, c)[(c.write_addr + 1) as u32] == mem[c.read_addr]
        },
        c.data_size == DataSize::Word && c.ctrl & ctrl::BSWAP == 0 ==> {
            &&& moved(mem, c)[c.write_addr] == mem[c.read_addr]
            &&& moved(mem, c)[(c.write_addr + 1) as u32] == mem[(c.read_addr + 1) as u32]
            &&& moved(mem, c)[(c.write_addr + 2) as u32] == mem[(c.read_addr + 2) as u32]
            &&& moved(mem, c)[(c.write_addr + 3) as u32] == mem[(c.read_addr + 3) as u32]
        },
        c.data_size == DataSize::Word && c.ctrl & ctrl::BSWAP != 0 ==> {
            &&& moved(mem, c)[c.write_addr] == mem[(c.read_addr + 3) as u32]
            &&& moved(mem, c)[(c.write_addr + 1) as u32] == mem[(c.read_addr + 2) as u32]
            &&& moved(mem, c)[(c.write_addr + 2) as u32] == mem[(c.read_addr + 1) as u32]
            &&& moved(mem, c)[(c.write_addr + 3) as u32] == mem[c.read_addr]
        },
{
    let b0 = mem[c.read_addr];
    let b1 = mem[(c.read_addr + 1) as u32];
    let b2 = mem[(c.read_addr + 2) as u32];
    let b3 = mem[(c.read_addr + 3) as u32];
    let w = c.write_addr;
    assert(((w + 1) as u32) != w && ((w + 2) as u32) != w && ((w + 3) as u32) != w && ((w + 2)
        as u32) != ((w + 1) as u32) && ((w + 3) as u32) != ((w + 1) as u32) && ((w + 3) as u32)
        != ((w + 2) as u32)) by (bit_vector);
    assert({
        let v = (((b0 as u32) | ((b1 as u32) << 8u32)) | ((b2 as u32) << 16u32)) | ((b3 as u32)
            << 24u32);
        let sv = ((v & 0xFF) << 24u32) | (((v >> 8u32) & 0xFF) << 16u32) | (((v >> 16u32) & 0xFF)
            << 8u32) | ((v >> 24u32) & 0xFF);
        &&& (v as u8) == b0
        &&& ((v >> 8u32) as u8) == b1
        &&& ((v >> 16u32) as u8) == b2
        &&& ((v >> 24u32) as u8) == b3
        &&& (sv as u8) == b3
        &&& ((sv >> 8u32) as u8) == b2
        &&& ((sv >> 16u32) as u8) == b1
        &&& ((sv >> 24u32) as u8) == b0
        &&& (((b0 as u32) as u8) as u32) as u8 == b0
    }) by (bit_vector);
    assert({
        let h = (b0 as u32) | ((b1 as u32) << 8u32);
        let sh = ((h & 0xFF) << 8u32) | ((h >> 8u32) & 0xFF);
        &&& ((h as u16) as u32) as u8 == b0
        &&& ((((h as u16) as u32) >> 8u32) as u8) == b1
        &&& ((sh as u16) as u32) as u8 == b1
        &&& ((((sh as u16) as u32) >> 8u32) as u8) == b0
    }) by (bit_vector);
}

/// Byte order reversal of a word.
fn swap_word_bytes(x: u32) -> (r: u32)
    ensures
        r == swapped(x),
{
    ((x & 0xFF) << 24u32) | (((x >> 8u32) & 0xFF) << 16u32) | (((x >> 16u32) & 0xFF) << 8u32) | ((x
        >> 24u32) & 0xFF)
}

impl Dma {
    pub open spec fn wf(&self) -> bool {
        self@.wf()
    }

    /// Create a new DMA device.
    pub fn new() -> (r: Self)
        ensures
            r@ == DmaState::initial(),
    {
        let idle = DmaChannel {
            read_addr: 0,
            write_addr: 0,
            trans_count: 0,
            ctrl: 0,
            enabled: false,
            busy: false,
            data_size: DataSize::Byte,
            incr_read: true,
            incr_write: true,
        };
        let r = Dma {
            channels: [idle; 12],
            en: 0,
            intr: 0,
            inte: 0,
            intf: 0,
            chan_abort: 0,
            n_channels: NUM_CHANNELS as u32,
        };
        assert(r@.channels =~= DmaState::initial().channels);
        r
    }

    /// Device identifier.
    pub fn id(&self) -> (r: DeviceId)
        ensures
            r == DeviceId::DMA,
    {
        DeviceId::DMA
    }

    /// Channel enable; false for a channel that does not exist.
    pub fn is_channel_enabled(&self, channel: usize) -> (r: bool)
        ensures
            r == (channel < NUM_CHANNELS && self.channels@[channel as int].enabled),
    {
        if channel < NUM_CHANNELS {
            self.channels[channel].enabled
        } else {
            false
        }
    }

    /// Channel busy flag; false for a channel that does not exist.
    pub fn is_channel_busy(&self, channel: usize) -> (r: bool)
        ensures
            r == (channel < NUM_CHANNELS && self.channels@[channel as int].busy),
    {
        if channel < NUM_CHANNELS {
            self.channels[channel].busy
        } else {
            false
        }
    }

    /// Mark an enabled channel with a non-zero count busy.
    pub fn start_transfer(&mut self, channel: usize)
        ensures
            final(self)@ == old(self)@.started(channel as int),
    {
        if channel < NUM_CHANNELS {
            let c = self.channels[channel];
            if c.enabled && c.trans_count > 0 {
                self.channels[channel] = DmaChannel { busy: true, ctrl: c.ctrl | ctrl::BUSY, ..c };
            }
        }
    }

    /// Stop a channel.
    pub fn abort_transfer(&mut self, channel: usize)
        ensures
            final(self)@ == old(self)@.aborted(channel as int),
    {
        if channel < NUM_CHANNELS {
            let c = self.channels[channel];
            self.channels[channel] = DmaChannel { busy: false, ctrl: c.ctrl & !ctrl::BUSY, ..c };
        }
    }

    /// Channel read address; 0 for a channel that does not exist.
    pub fn get_read_addr(&self, channel: usize) -> (r: u32)
        ensures
            r == if channel < NUM_CHANNELS { self.channels@[channel as int].read_addr } else { 0 },
    {
        if channel < NUM_CHANNELS {
            self.channels[channel].read_addr
        } else {
            0
        }
    }

    /// Channel write address; 0 for a channel that does not exist.
    pub fn get_write_addr(&self, channel: usize) -> (r: u32)
        ensures
            r == if channel < NUM_CHANNELS { self.channels@[channel as int].write_addr } else { 0 },
    {
        if channel < NUM_CHANNELS {
            self.channels[channel].write_addr
        } else {
            0
        }
    }

    /// Channel transfer count; 0 for a channel that does not exist.
    pub fn get_trans_count(&self, channel: usize) -> (r: u32)
        ensures
            r == if channel < NUM_CHANNELS { self.channels@[channel as int].trans_count } else { 0 },
    {
        if channel < NUM_CHANNELS {
            self.channels[channel].trans_count
        } else {
            0
        }
    }

    /// Set a channel's read address.
    pub fn set_read_addr(&mut self, channel: usize, addr: u32)
        ensures
            final(self)@ == if channel < NUM_CHANNELS {
                old(self)@.with_channel(
                    channel as int,
                    DmaChannel { read_addr: addr, ..old(self)@.channels[channel as int] },
                )
            } else {
                old(self)@
            },
    {
        if channel < NUM_CHANNELS {
            self.channels[channel].read_addr = addr;
        }
    }

    /// Set a channel's write address.
    pub fn set_write_addr(&mut self, channel: usize, addr: u32)
        ensures
            final(self)@ == if channel < NUM_CHANNELS {
                old(self)@.with_channel(
                    channel as int,
                    DmaChannel { write_addr: addr, ..old(self)@.channels[channel as int] },
                )
            } else {
                old(self)@
            },
    {
        if channel < NUM_CHANNELS {
            self.channels[channel].write_addr = addr;
        }
    }

    /// Set a channel's transfer count.
    pub fn set_trans_count(&mut self, channel: usize, count: u32)
        ensures
            final(self)@ == if channel < NUM_CHANNELS {
                old(self)@.with_channel(
                    channel as int,
                    DmaChannel { trans_count: count, ..old(self)@.channels[channel as int] },
                )
            } else {
                old(self)@
            },
    {
        if channel < NUM_CHANNELS {
            self.channels[channel].trans_count = count;
        }
    }

    /// One transfer on channel `i`, moving one unit through `memory`.
    fn step_channel<M: DmaMemory>(&mut self, i: usize, memory: &mut M)
        requires
            old(self).wf(),
            i < NUM_CHANNELS,
            old(self)@.step_ok(i as int),
        ensures
            final(self)@ == old(self)@.step(i as int),
            final(memory).bytes() == if old(self)@.active(i as int) {
                moved(old(memory).bytes(), old(self)@.channels[i as int])
            } else {
                old(memory).bytes()
            },
    {
        let c = self.channels[i];
        if c.busy && c.trans_count > 0 {
            let n: u32 = match c.data_size {
                DataSize::Byte => 1,
                DataSize::HalfWord => 2,
                DataSize::Word => 4,
            };
            let data: u32 = match c.data_size {
                DataSize::Byte => memory.read_byte(c.read_addr) as u32,
                DataSize::HalfWord => memory.read_half(c.read_addr) as u32,
                DataSize::Word => memory.read_word(c.read_addr),
            };
            let data = if c.is_bswap() {
                match c.data_size {
                    DataSize::Byte => data,
                    DataSize::HalfWord => ((data & 0xFF) << 8u32) | ((data >> 8u32) & 0xFF),
                    DataSize::Word => swap_word_bytes(data),
                }
            } else {
                data
            };
            match c.data_size {
                DataSize::Byte => memory.write_byte(c.write_addr, data as u8),
                DataSize::HalfWord => memory.write_half(c.write_addr, data as u16),
                DataSize::Word => memory.write_word(c.write_addr, data),
            }
            let mut ra = c.read_addr;
            let mut wa = c.write_addr;
            if c.incr_read {
                ra = ra + n;
            }
            if c.incr_write {
                wa = wa + n;
            }
            let ring_size = c.ring_size();
            proof {
                crate::bits::lemma_word_facts(c.ctrl >> 6u32, 0);
                if ring_size < 16 {
                    crate::bits::lemma_bit_ops(0, ring_size, 0);
                }
            }
            if ring_size > 0 {
                let ring_mask: u32 = (1u32 << ring_size) - 1;
                proof {
                    lemma_ring_identity(ra, ring_mask);
                    lemma_ring_identity(wa, ring_mask);
                }
                if c.ring_on_read() {
                    ra = (ra & !ring_mask) | (ra & ring_mask);
                } else {
                    wa = (wa & !ring_mask) | (wa & ring_mask);
                }
            }
            let count = c.trans_count - 1;
            if count == 0 {
                let done = DmaChannel {
                    read_addr: ra,
                    write_addr: wa,
                    trans_count: 0,
                    busy: false,
                    ctrl: c.ctrl & !ctrl::BUSY,
                    ..c
                };
                self.channels[i] = done;
                self.intr = self.intr | (1u32 << (i as u32));
                let chain_to = done.chain_to();
                if chain_to < NUM_CHANNELS && chain_to != i {
                    self.start_transfer(chain_to);
                }
            } else {
                self.channels[i] = DmaChannel { read_addr: ra, write_addr: wa, trans_count: count, ..c };
            }
        }
    }

    /// Process one transfer on every busy channel, in channel order; a channel
    /// started by chaining moves data in the same tick when it comes later.
    pub fn tick<M: DmaMemory>(&mut self, memory: &mut M)
        requires
            old(self).wf(),
            old(self)@.tick_ok_from(0),
        ensures
            final(self)@ == old(self)@.tick_from(0),
            final(memory).bytes() == old(self)@.tick_mem_from(0, old(memory).bytes()),
            final(self).wf(),
    {
        let mut i: usize = 0;
        while i < NUM_CHANNELS
            invariant
                0 <= i <= NUM_CHANNELS,
                self.wf(),
                self@.tick_from(i as int) == old(self)@.tick_from(0),
                self@.tick_mem_from(i as int, memory.bytes()) == old(self)@.tick_mem_from(
                    0,
                    old(memory).bytes(),
                ),
                self@.tick_ok_from(i as int),
            decreases NUM_CHANNELS - i,
        {
            proof {
                lemma_step_preserves_len(self@, i as int);
            }
            self.step_channel(i, memory);
            i = i + 1;
        }
        proof {
            lemma_tick_from_wf(old(self)@, 0);
        }
    }

    /// An enabled interrupt is raised, or one is forced.
    pub fn has_interrupt(&self) -> (r: bool)
        ensures
            r == ((self.intr & self.inte) != 0 || self.intf != 0),
    {
        (self.intr & self.inte) != 0 || self.intf != 0
    }

    /// Masked interrupt status (INTS0).
    pub fn get_interrupt_status(&self) -> (r: u32)
        ensures
            r == self@.interrupt_status(),
    {
        (self.intr & self.inte) | self.intf
    }

    /// Register read.
    pub fn read(&mut self, addr: u32) -> (r: u32)
        requires
            old(self).wf(),
            addr >= DMA_BASE,
        ensures
            r == old(self)@.read_value((addr - DMA_BASE) as u32),
            final(self)@ == old(self)@,
    {
        let offset = addr - DMA_BASE;
        if offset < 0x400 {
            let ch = (offset / 0x40) as usize;
            let reg = offset % 0x40;
            if ch < NUM_CHANNELS {
                let c = self.channels[ch];
                return if reg == 0x00 || reg == 0x14 || reg == 0x28 || reg == 0x3C {
                    c.read_addr
                } else if reg == 0x04 || reg == 0x18 || reg == 0x2C || reg == 0x34 {
                    c.write_addr
                } else if reg == 0x08 || reg == 0x1C || reg == 0x24 || reg == 0x38 {
                    c.trans_count
                } else if reg == 0x0C || reg == 0x10 || reg == 0x20 || reg == 0x30 {
                    c.ctrl
                } else {
                    0
                };
            }
        }
        if offset == regs::INTR {
            self.intr
        } else if offset == regs::INTE0 {
            self.inte
        } else if offset == regs::INTF0 {
            self.intf
        } else if offset == regs::INTS0 {
            self.get_interrupt_status()
        } else if offset == regs::EN || offset == regs::CTRL {
            self.en
        } else if offset == regs::DEBUG0 {
            let mut val: u32 = 0;
            let mut i: usize = 0;
            while i < NUM_CHANNELS
                invariant
                    0 <= i <= NUM_CHANNELS,
                    self.wf(),
                    val == busy_mask(self.channels@, i as int),
                decreases NUM_CHANNELS - i,
            {
                if self.channels[i].busy {
                    val = val | (1u32 << (i as u32));
                } else {
                    proof {
                        crate::bits::lemma_word_facts(val, 0);
                    }
                }
                i = i + 1;
            }
            val
        } else if offset == regs::DEBUG1 {
            let mut i: usize = 0;
            while i < NUM_CHANNELS
                invariant
                    0 <= i <= NUM_CHANNELS,
                    self.wf(),
                    self@ == old(self)@,
                    offset == addr - DMA_BASE,
                    old(self)@.read_value(offset) == old(self)@.debug1(),
                    first_busy(self.channels@, 0, true) == first_busy(self.channels@, i as int, true),
                decreases NUM_CHANNELS - i,
            {
                if self.channels[i].busy && self.channels[i].is_high_priority() {
                    return i as u32;
                }
                i = i + 1;
            }
            let mut j: usize = 0;
            while j < NUM_CHANNELS
                invariant
                    0 <= j <= NUM_CHANNELS,
                    self.wf(),
                    self@ == old(self)@,
                    offset == addr - DMA_BASE,
                    old(self)@.read_value(offset) == old(self)@.debug1(),
                    first_busy(self.channels@, 0, true) is None,
                    first_busy(self.channels@, 0, false) == first_busy(self.channels@, j as int, false),
                decreases NUM_CHANNELS - j,
            {
                if self.channels[j].busy {
                    return j as u32;
                }
                j = j + 1;
            }
            0
        } else if offset == regs::CHAN_ABORT {
            self.chan_abort
        } else if offset == regs::N_CHANNELS {
            self.n_channels
        } else {
            0
        }
    }

    /// Register write.
    pub fn write(&mut self, addr: u32, value: u32)
        requires
            old(self).wf(),
            addr >= DMA_BASE,
        ensures
            final(self).wf(),
            final(self)@ == old(self)@.after_write((addr - DMA_BASE) as u32, value),
    {
        let offset = addr - DMA_BASE;
        if offset < 0x400 {
            let ch = (offset / 0x40) as usize;
            let reg = offset % 0x40;
            if ch < NUM_CHANNELS {
                let c = self.channels[ch];
                if reg == 0x00 {
                    self.channels[ch].read_addr = value;
                } else if reg == 0x04 {
                    self.channels[ch].write_addr = value;
                } else if reg == 0x08 {
                    self.channels[ch].trans_count = value;
                } else if reg == 0x0C {
                    let size_bits = (value >> ctrl::DATA_SIZE_SHIFT) & 0x3;
                    let size = if size_bits == 1 {
                        DataSize::HalfWord
                    } else if size_bits == 2 {
                        DataSize::Word
                    } else {
                        DataSize::Byte
                    };
                    self.channels[ch] = DmaChannel {
                        ctrl: value,
                        enabled: (value & ctrl::EN) != 0,
                        incr_read: (value & ctrl::INCR_READ) != 0,
                        incr_write: (value & ctrl::INCR_WRITE) != 0,
                        data_size: size,
                        ..c
                    };
                    if self.channels[ch].enabled {
                        self.start_transfer(ch);
                    }
                } else if reg == 0x1C {
                    self.channels[ch].trans_count = value;
                    if self.channels[ch].enabled {
                        self.start_transfer(ch);
                    }
                } else if reg == 0x2C {
                    self.channels[ch].write_addr = value;
                    if self.channels[ch].enabled {
                        self.start_transfer(ch);
                    }
                } else if reg == 0x3C {
                    self.channels[ch].read_addr = value;
                    if self.channels[ch].enabled {
                        self.start_transfer(ch);
                    }
                }
                return;
            }
        }
        if offset == regs::INTR {
            self.intr = self.intr & !value;
        } else if offset == regs::INTE0 {
            self.inte = value & CHANNEL_MASK;
        } else if offset == regs::INTF0 {
            self.intf = value & CHANNEL_MASK;
        } else if offset == regs::EN {
            self.en = value & CHANNEL_MASK;
            let ghost before = self.channels@;
            let mut i: usize = 0;
            while i < NUM_CHANNELS
                invariant
                    0 <= i <= NUM_CHANNELS,
                    self.wf(),
                    before.len() == NUM_CHANNELS,
                    self.en == value & CHANNEL_MASK,
                    self.intr == old(self).intr,
                    self.inte == old(self).inte,
                    self.intf == old(self).intf,
                    self.chan_abort == old(self).chan_abort,
                    self.n_channels == old(self).n_channels,
                    before == old(self)@.channels,
                    forall|k: int|
                        0 <= k < i ==> self.channels@[k] == (DmaChannel {
                            enabled: value & (1u32 << (k as u32)) != 0,
                            ..before[k]
                        }),
                    forall|k: int| i <= k < NUM_CHANNELS ==> self.channels@[k] == before[k],
                decreases NUM_CHANNELS - i,
            {
                self.channels[i].enabled = (value & (1u32 << (i as u32))) != 0;
                i = i + 1;
            }
            assert(self@ =~= old(self)@.with_enables(value));
        } else if offset == regs::CTRL {
            self.en = value & CHANNEL_MASK;
        } else if offset == regs::CHAN_ABORT {
            let ghost before = self.channels@;
            let mut i: usize = 0;
            while i < NUM_CHANNELS
                invariant
                    0 <= i <= NUM_CHANNELS,
                    self.wf(),
                    before.len() == NUM_CHANNELS,
                    self.en == old(self).en,
                    self.intr == old(self).intr,
                    self.inte == old(self).inte,
                    self.intf == old(self).intf,
                    self.chan_abort == old(self).chan_abort,
                    self.n_channels == old(self).n_channels,
                    before == old(self)@.channels,
                    forall|k: int|
                        0 <= k < i ==> self.channels@[k] == (if value & (1u32 << (k as u32)) != 0 {
                            DmaChannel { busy: false, ctrl: before[k].ctrl & !ctrl::BUSY, ..before[k] }
                        } else {
                            before[k]
                        }),
                    forall|k: int| i <= k < NUM_CHANNELS ==> self.channels@[k] == before[k],
                decreases NUM_CHANNELS - i,
            {
                if (value & (1u32 << (i as u32))) != 0 {
                    self.abort_transfer(i);
                }
                i = i + 1;
            }
            self.chan_abort = value;
            assert(self@ =~= old(self)@.with_aborts(value));
        }
    }

    /// Return to the power-on state.
    pub fn reset(&mut self)
        ensures
            final(self)@ == DmaState::initial(),
    {
        *self = Dma::new();
    }
}

impl Default for Dma {
    fn default() -> (r: Self)
        ensures
            r@ == DmaState::initial(),
    {
        Dma::new()
    }
}

} // verus!
