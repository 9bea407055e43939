//! SHA-256 accelerator: words are buffered as bytes, full 64-byte blocks are
//! compressed into the hash state, and finalisation pads the message.
use vstd::prelude::*;

use crate::device::DeviceId;

pub mod ctrl;
pub mod regs;
pub mod status;

verus! {

/// SHA-256 base address.
pub const SHA256_BASE: u32 = 0x5001_1000;

/// Bytes per block.
pub const BLOCK_SIZE: usize = 64;

/// Round constants.
pub open spec fn round_constants() -> Seq<u32> {
    seq![
        0x428a2f98u32, 0x71374491u32, 0xb5c0fbcfu32, 0xe9b5dba5u32,
        0x3956c25bu32, 0x59f111f1u32, 0x923f82a4u32, 0xab1c5ed5u32,
        0xd807aa98u32, 0x12835b01u32, 0x243185beu32, 0x550c7dc3u32,
        0x72be5d74u32, 0x80deb1feu32, 0x9bdc06a7u32, 0xc19bf174u32,
        0xe49b69c1u32, 0xefbe4786u32, 0x0fc19dc6u32, 0x240ca1ccu32,
        0x2de92c6fu32, 0x4a7484aau32, 0x5cb0a9dcu32, 0x76f988dau32,
        0x983e5152u32, 0xa831c66du32, 0xb00327c8u32, 0xbf597fc7u32,
        0xc6e00bf3u32, 0xd5a79147u32, 0x06ca6351u32, 0x14292967u32,
        0x27b70a85u32, 0x2e1b2138u32, 0x4d2c6dfcu32, 0x53380d13u32,
        0x650a7354u32, 0x766a0abbu32, 0x81c2c92eu32, 0x92722c85u32,
        0xa2bfe8a1u32, 0xa81a664bu32, 0xc24b8b70u32, 0xc76c51a3u32,
        0xd192e819u32, 0xd6990624u32, 0xf40e3585u32, 0x106aa070u32,
        0x19a4c116u32, 0x1e376c08u32, 0x2748774cu32, 0x34b0bcb5u32,
        0x391c0cb3u32, 0x4ed8aa4au32, 0x5b9cca4fu32, 0x682e6ff3u32,
        0x748f82eeu32, 0x78a5636fu32, 0x84c87814u32, 0x8cc70208u32,
        0x90befffau32, 0xa4506cebu32, 0xbef9a3f7u32, 0xc67178f2u32,
    ]
}

/// Initial hash value.
pub open spec fn initial_hash() -> Seq<u32> {
    seq![
        0x6a09e667u32, 0xbb67ae85u32, 0x3c6ef372u32, 0xa54ff53au32,
        0x510e527fu32, 0x9b05688cu32, 0x1f83d9abu32, 0x5be0cd19u32,
    ]
}

/// Round constants as an array.
pub fn round_constant_table() -> (r: [u32; 64])
    ensures
        r@ == round_constants(),
{
    let r = [
        0x428a2f98u32, 0x71374491u32, 0xb5c0fbcfu32, 0xe9b5dba5u32,
        0x3956c25bu32, 0x59f111f1u32, 0x923f82a4u32, 0xab1c5ed5u32,
        0xd807aa98u32, 0x12835b01u32, 0x243185beu32, 0x550c7dc3u32,
        0x72be5d74u32, 0x80deb1feu32, 0x9bdc06a7u32, 0xc19bf174u32,
        0xe49b69c1u32, 0xefbe4786u32, 0x0fc19dc6u32, 0x240ca1ccu32,
        0x2de92c6fu32, 0x4a7484aau32, 0x5cb0a9dcu32, 0x76f988dau32,
        0x983e5152u32, 0xa831c66du32, 0xb00327c8u32, 0xbf597fc7u32,
        0xc6e00bf3u32, 0xd5a79147u32, 0x06ca6351u32, 0x14292967u32,
        0x27b70a85u32, 0x2e1b2138u32, 0x4d2c6dfcu32, 0x53380d13u32,
        0x650a7354u32, 0x766a0abbu32, 0x81c2c92eu32, 0x92722c85u32,
        0xa2bfe8a1u32, 0xa81a664bu32, 0xc24b8b70u32, 0xc76c51a3u32,
        0xd192e819u32, 0xd6990624u32, 0xf40e3585u32, 0x106aa070u32,
        0x19a4c116u32, 0x1e376c08u32, 0x2748774cu32, 0x34b0bcb5u32,
        0x391c0cb3u32, 0x4ed8aa4au32, 0x5b9cca4fu32, 0x682e6ff3u32,
        0x748f82eeu32, 0x78a5636fu32, 0x84c87814u32, 0x8cc70208u32,
        0x90befffau32, 0xa4506cebu32, 0xbef9a3f7u32, 0xc67178f2u32,
    ];
    assert(r@ =~= round_constants());
    r
}

/// Initial hash value as an array.
pub fn initial_hash_words() -> (r: [u32; 8])
    ensures
        r@ == initial_hash(),
{
    let r = [
        0x6a09e667u32, 0xbb67ae85u32, 0x3c6ef372u32, 0xa54ff53au32,
        0x510e527fu32, 0x9b05688cu32, 0x1f83d9abu32, 0x5be0cd19u32,
    ];
    assert(r@ =~= initial_hash());
    r
}

/// Wrapping 32-bit addition.
pub open spec fn wadd(x: u32, y: u32) -> u32 {
    vstd::wrapping::u32_specs::wrapping_add(x, y)
}

/// Rotation right by `n` (between 1 and 31) bits.
pub open spec fn rotr(x: u32, n: u32) -> u32 {
    (x >> n) | (x << (32 - n) as u32)
}

pub open spec fn big_sigma0(x: u32) -> u32 {
    rotr(x, 2) ^ rotr(x, 13) ^ rotr(x, 22)
}

pub open spec fn big_sigma1(x: u32) -> u32 {
    rotr(x, 6) ^ rotr(x, 11) ^ rotr(x, 25)
}

pub open spec fn small_sigma0(x: u32) -> u32 {
    rotr(x, 7) ^ rotr(x, 18) ^ (x >> 3u32)
}

pub open spec fn small_sigma1(x: u32) -> u32 {
    rotr(x, 17) ^ rotr(x, 19) ^ (x >> 10u32)
}

pub open spec fn choose_bits(e: u32, f: u32, g: u32) -> u32 {
    (e & f) ^ (!e & g)
}

pub open spec fn majority(a: u32, b: u32, c: u32) -> u32 {
    (a & b) ^ (a & c) ^ (b & c)
}

/// Big-endian word `i` of a block.
pub open spec fn block_word(block: Seq<u8>, i: int) -> u32 {
    ((block[4 * i] as u32) << 24u32) | ((block[4 * i + 1] as u32) << 16u32) | ((block[4 * i
        + 2] as u32) << 8u32) | (block[4 * i + 3] as u32)
}

/// Word `i` of the message schedule of a block.
pub open spec fn sched(block: Seq<u8>, i: int) -> u32
    decreases i,
{
    if i < 16 {
        block_word(block, i)
    } else {
        wadd(
            wadd(wadd(sched(block, i - 16), small_sigma0(sched(block, i - 15))), sched(block, i - 7)),
            small_sigma1(sched(block, i - 2)),
        )
    }
}

/// One compression round on the working variables a..h.
pub open spec fn round(v: Seq<u32>, k: u32, w: u32) -> Seq<u32> {
    let t1 = wadd(wadd(wadd(wadd(v[7], big_sigma1(v[4])), choose_bits(v[4], v[5], v[6])), k), w);
    let t2 = wadd(big_sigma0(v[0]), majority(v[0], v[1], v[2]));
    seq![wadd(t1, t2), v[0], v[1], v[2], wadd(v[3], t1), v[4], v[5], v[6]]
}

/// Working variables after the first `n` rounds over a block.
pub open spec fn rounds(hash: Seq<u32>, block: Seq<u8>, n: int) -> Seq<u32>
    decreases n,
{
    if n <= 0 {
        hash
    } else {
        round(rounds(hash, block, n - 1), round_constants()[n - 1], sched(block, n - 1))
    }
}

/// Hash state after compressing one block.
pub open spec fn compress(hash: Seq<u32>, block: Seq<u8>) -> Seq<u32> {
    let v = rounds(hash, block, 64);
    Seq::new(8, |i: int| wadd(hash[i], v[i]))
}

/// Rotate right.
fn rotate(x: u32, n: u32) -> (r: u32)
    requires
        0 < n < 32,
    ensures
        r == rotr(x, n),
{
    (x >> n) | (x << (32 - n))
}

/// SHA-256 accelerator.
#[derive(Debug)]
pub struct Sha256 {
    /// Control register.
    pub ctrl: u32,
    /// Status register.
    pub status: u32,
    /// Bytes not yet compressed.
    pub input_buffer: Vec<u8>,
    /// Current hash state.
    pub hash: [u32; 8],
    /// Message schedule of the last block.
    pub w: [u32; 64],
    /// Bits compressed so far.
    pub total_bits: u64,
    /// Processing state.
    pub processing: bool,
    /// Double SHA mode.
    pub double_sha: bool,
    /// Big endian mode.
    pub big_endian: bool,
}

/// Abstract state of the accelerator.
#[verifier::ext_equal]
pub ghost struct ShaState {
    pub ctrl: u32,
    pub status: u32,
    pub buffer: Seq<u8>,
    pub hash: Seq<u32>,
    pub w: Seq<u32>,
    pub total_bits: u64,
    pub processing: bool,
    pub double_sha: bool,
    pub big_endian: bool,
}

impl View for Sha256 {
    type V = ShaState;

    open spec fn view(&self) -> ShaState {
        ShaState {
            ctrl: self.ctrl,
            status: self.status,
            buffer: self.input_buffer@,
            hash: self.hash@,
            w: self.w@,
            total_bits: self.total_bits,
            processing: self.processing,
            double_sha: self.double_sha,
            big_endian: self.big_endian,
        }
    }
}

/// Message schedule of a block.
pub open spec fn schedule(block: Seq<u8>) -> Seq<u32> {
    Seq::new(64, |i: int| sched(block, i))
}

/// The first 64 bytes of a byte sequence, zero-filled past its end.
pub open spec fn first_block(buf: Seq<u8>) -> Seq<u8> {
    Seq::new(64, |i: int| if i < buf.len() { buf[i] } else { 0u8 })
}

/// The four bytes of a word in the order the accelerator buffers them.
pub open spec fn word_bytes(data: u32, big_endian: bool) -> Seq<u8> {
    if big_endian {
        seq![
            ((data >> 24u32) & 0xFF) as u8,
            ((data >> 16u32) & 0xFF) as u8,
            ((data >> 8u32) & 0xFF) as u8,
            (data & 0xFF) as u8,
        ]
    } else {
        seq![
            (data & 0xFF) as u8,
            ((data >> 8u32) & 0xFF) as u8,
            ((data >> 16u32) & 0xFF) as u8,
            ((data >> 24u32) & 0xFF) as u8,
        ]
    }
}

/// The eight bytes of a 64-bit length, most significant first.
pub open spec fn length_bytes(x: u64) -> Seq<u8> {
    seq![
        (x >> 56u64) as u8,
        (x >> 48u64) as u8,
        (x >> 40u64) as u8,
        (x >> 32u64) as u8,
        (x >> 24u64) as u8,
        (x >> 16u64) as u8,
        (x >> 8u64) as u8,
        x as u8,
    ]
}

/// Zero bytes that bring a padded message of `n` bytes to 56 modulo 64.
pub open spec fn pad_zeros(n: int) -> int {
    (56 - n) % 64
}

/// Byte `j` of the block that hashes a first digest again: the digest words
/// most significant byte first, the 0x80 terminator at byte 32 and the
/// 256-bit length at the end.
pub open spec fn double_block(words: Seq<u32>) -> Seq<u8> {
    Seq::new(
        64,
        |j: int|
            if j < 32 {
                let w = words[j / 4];
                if j % 4 == 0 {
                    (w >> 24u32) as u8
                } else if j % 4 == 1 {
                    (w >> 16u32) as u8
                } else if j % 4 == 2 {
                    (w >> 8u32) as u8
                } else {
                    w as u8
                }
            } else if j == 32 {
                0x80u8
            } else if j == 62 {
                1u8
            } else {
                0u8
            },
    )
}

impl ShaState {
    pub open spec fn initial() -> ShaState {
        ShaState {
            ctrl: 0,
            status: status::READY,
            buffer: Seq::empty(),
            hash: initial_hash(),
            w: Seq::new(64, |i: int| 0u32),
            total_bits: 0,
            processing: false,
            double_sha: false,
            big_endian: false,
        }
    }

    pub open spec fn wf(self) -> bool {
        self.hash.len() == 8 && self.w.len() == 64
    }

    pub open spec fn busy(self) -> bool {
        self.status & status::BUSY != 0
    }

    /// State after compressing a block.
    pub open spec fn block_processed(self, block: Seq<u8>) -> ShaState {
        ShaState { hash: compress(self.hash, block), w: schedule(block), ..self }
    }

    /// Every full block at the front of the buffer compressed and counted.
    pub open spec fn absorbed(self) -> ShaState
        decreases self.buffer.len(),
    {
        if self.buffer.len() < 64 {
            self
        } else {
            ShaState {
                buffer: self.buffer.skip(64),
                total_bits: (self.total_bits + 512) as u64,
                ..self.block_processed(first_block(self.buffer))
            }.absorbed()
        }
    }

    /// Counting the absorbed blocks stays within 64 bits.
    pub open spec fn absorb_ok(self) -> bool
        decreases self.buffer.len(),
    {
        if self.buffer.len() < 64 {
            true
        } else {
            self.total_bits + 512 <= u64::MAX && (ShaState {
                buffer: self.buffer.skip(64),
                total_bits: (self.total_bits + 512) as u64,
                ..self.block_processed(first_block(self.buffer))
            }).absorb_ok()
        }
    }

    /// The word's bytes appended to the buffer, unless the engine is busy.
    pub open spec fn with_word(self, data: u32) -> ShaState {
        ShaState { buffer: self.buffer + word_bytes(data, self.big_endian), ..self }
    }

    pub open spec fn after_write_data(self, data: u32) -> ShaState {
        if self.busy() { self } else { self.with_word(data).absorbed() }
    }

    pub open spec fn write_data_ok(self, data: u32) -> bool {
        !self.busy() ==> self.with_word(data).absorb_ok()
    }

    /// Compress the buffer block by block, the last one zero-filled.
    pub open spec fn drained(self) -> ShaState
        decreases self.buffer.len(),
    {
        if self.buffer.len() == 0 {
            self
        } else {
            let take = if self.buffer.len() < 64 { self.buffer.len() as int } else { 64 };
            ShaState {
                buffer: self.buffer.skip(take),
                ..self.block_processed(first_block(self.buffer))
            }.drained()
        }
    }

    /// Message padding: the remaining bytes are counted, then 0x80, zeros up
    /// to 56 modulo 64, and the total length in bits.
    pub open spec fn padded(self) -> ShaState {
        let tb = (self.total_bits + self.buffer.len() * 8) as u64;
        let n = self.buffer.len() + 1int;
        ShaState {
            buffer: self.buffer.push(0x80) + Seq::new(pad_zeros(n) as nat, |i: int| 0u8)
                + length_bytes(tb),
            total_bits: tb,
            ..self
        }
    }

    pub open spec fn finalize_ok(self) -> bool {
        self.total_bits + self.buffer.len() * 8 <= u64::MAX
    }

    /// Finalised state: the padded message compressed and, in double mode,
    /// the 32-byte big-endian serialization of that digest hashed once more
    /// from the initial value.
    pub open spec fn finalized(self) -> ShaState {
        let d = self.padded().drained();
        let e = if d.double_sha {
            ShaState { hash: initial_hash(), ..d }.block_processed(double_block(d.hash))
        } else {
            d
        };
        ShaState { status: status::READY, processing: false, ..e }
    }

    pub open spec fn reset_hashed(self) -> ShaState {
        ShaState {
            hash: initial_hash(),
            buffer: Seq::empty(),
            total_bits: 0,
            status: status::READY,
            processing: false,
            ..self
        }
    }

    pub open spec fn read_value(self, offset: u32) -> u32 {
        if offset == regs::CTRL {
            self.ctrl
        } else if offset == regs::STATUS {
            self.status
        } else if regs::SUM0 <= offset <= regs::SUM7 && offset % 4 == 0 {
            self.hash[(offset - regs::SUM0) / 4]
        } else {
            0
        }
    }

    /// CTRL write before a requested start: mode bits and optional reset.
    pub open spec fn ctrl_written(self, value: u32) -> ShaState {
        let s = ShaState {
            ctrl: value,
            double_sha: value & ctrl::DOUBLE_SHA != 0,
            big_endian: value & ctrl::BIG_ENDIAN != 0,
            ..self
        };
        if value & ctrl::RESET != 0 { s.reset_hashed() } else { s }
    }

    pub open spec fn started(self) -> ShaState {
        ShaState { status: status::BUSY, processing: true, ..self }
    }
}

impl Sha256 {
    /// Compress one 64-byte block into the hash state.
    pub fn process_block(&mut self, block: &[u8; 64])
        ensures
            final(self)@ == old(self)@.block_processed(block@),
    {
        let mut i: usize = 0;
        while i < 16
            invariant
                0 <= i <= 16,
                self.w@.len() == 64,
                forall|j: int| 0 <= j < i ==> self.w@[j] == sched(block@, j),
                self@ == (ShaState { w: self@.w, ..old(self)@ }),
            decreases 16 - i,
        {
            self.w[i] = ((block[i * 4] as u32) << 24) | ((block[i * 4 + 1] as u32) << 16) | ((block[i
                * 4 + 2] as u32) << 8) | (block[i * 4 + 3] as u32);
            assert(self.w@[i as int] == block_word(block@, i as int));
            assert(sched(block@, i as int) == block_word(block@, i as int));
            i = i + 1;
        }
        while i < 64
            invariant
                16 <= i <= 64,
                self.w@.len() == 64,
                forall|j: int| 0 <= j < i ==> self.w@[j] == sched(block@, j),
                self@ == (ShaState { w: self@.w, ..old(self)@ }),
            decreases 64 - i,
        {
            let w15 = self.w[i - 15];
            let w2 = self.w[i - 2];
            let s0 = rotate(w15, 7) ^ rotate(w15, 18) ^ (w15 >> 3);
            let s1 = rotate(w2, 17) ^ rotate(w2, 19) ^ (w2 >> 10);
            let w16 = self.w[i - 16];
            let w7 = self.w[i - 7];
            proof {
                assert(s0 == small_sigma0(sched(block@, i - 15)));
                assert(s1 == small_sigma1(sched(block@, i - 2)));
                assert(w16 == sched(block@, i - 16));
                assert(w7 == sched(block@, i - 7));
            }
            self.w[i] = w16.wrapping_add(s0).wrapping_add(w7).wrapping_add(s1);
            assert(self.w@[i as int] == sched(block@, i as int));
            i = i + 1;
        }
        let k = round_constant_table();
        let mut a = self.hash[0];
        let mut b = self.hash[1];
        let mut c = self.hash[2];
        let mut d = self.hash[3];
        let mut e = self.hash[4];
        let mut f = self.hash[5];
        let mut g = self.hash[6];
        let mut h = self.hash[7];
        let mut r: usize = 0;
        while r < 64
            invariant
                0 <= r <= 64,
                self.w@.len() == 64,
                forall|j: int| 0 <= j < 64 ==> self.w@[j] == sched(block@, j),
                self@ == (ShaState { w: self@.w, ..old(self)@ }),
                k@ == round_constants(),
                seq![a, b, c, d, e, f, g, h] == rounds(old(self)@.hash, block@, r as int),
            decreases 64 - r,
        {
            let s1 = rotate(e, 6) ^ rotate(e, 11) ^ rotate(e, 25);
            let ch = (e & f) ^ ((!e) & g);
            let temp1 = h.wrapping_add(s1).wrapping_add(ch).wrapping_add(k[r]).wrapping_add(
                self.w[r],
            );
            let s0 = rotate(a, 2) ^ rotate(a, 13) ^ rotate(a, 22);
            let maj = (a & b) ^ (a & c) ^ (b & c);
            let temp2 = s0.wrapping_add(maj);
            proof {
                let v = rounds(old(self)@.hash, block@, r as int);
                assert(v[0] == a && v[1] == b && v[2] == c && v[3] == d);
                assert(v[4] == e && v[5] == f && v[6] == g && v[7] == h);
            }
            h = g;
            g = f;
            f = e;
            e = d.wrapping_add(temp1);
            d = c;
            c = b;
            b = a;
            a = temp1.wrapping_add(temp2);
            r = r + 1;
        }
        self.hash[0] = self.hash[0].wrapping_add(a);
        self.hash[1] = self.hash[1].wrapping_add(b);
        self.hash[2] = self.hash[2].wrapping_add(c);
        self.hash[3] = self.hash[3].wrapping_add(d);
        self.hash[4] = self.hash[4].wrapping_add(e);
        self.hash[5] = self.hash[5].wrapping_add(f);
        self.hash[6] = self.hash[6].wrapping_add(g);
        self.hash[7] = self.hash[7].wrapping_add(h);
        assert(self@.hash =~= compress(old(self)@.hash, block@));
        assert(self@.w =~= schedule(block@));
    }

    /// Create an accelerator holding the initial hash value.
    pub fn new() -> (r: Self)
        ensures
            r@ == ShaState::initial(),
    {
        Sha256 {
            ctrl: 0,
            status: status::READY,
            input_buffer: Vec::new(),
            hash: initial_hash_words(),
            w: [0u32; 64],
            total_bits: 0,
            processing: false,
            double_sha: false,
            big_endian: false,
        }
    }

    /// Device identifier.
    pub fn id(&self) -> (r: DeviceId)
        ensures
            r == DeviceId::SHA256,
    {
        DeviceId::SHA256
    }

    /// Check if busy.
    pub fn is_busy(&self) -> (r: bool)
        ensures
            r == self@.busy(),
    {
        (self.status & status::BUSY) != 0
    }

    /// Check if ready.
    pub fn is_ready(&self) -> (r: bool)
        ensures
            r == (self.status & status::READY != 0),
    {
        (self.status & status::READY) != 0
    }

    /// Return to the initial hash value with an empty buffer.
    pub fn reset_hash(&mut self)
        ensures
            final(self)@ == old(self)@.reset_hashed(),
    {
        self.hash = initial_hash_words();
        self.input_buffer.clear();
        self.total_bits = 0;
        self.status = status::READY;
        self.processing = false;
    }

    /// Compress and count every full block at the front of the buffer.
    fn absorb(&mut self)
        requires
            old(self)@.absorb_ok(),
        ensures
            final(self)@ == old(self)@.absorbed(),
    {
        while self.input_buffer.len() >= 64
            invariant
                self@.absorb_ok(),
                self@.absorbed() == old(self)@.absorbed(),
            decreases self.input_buffer@.len(),
        {
            let ghost prev = self@;
            let block = block_from(&self.input_buffer);
            let rest = self.input_buffer.split_off(64);
            self.input_buffer = rest;
            self.process_block(&block);
            self.total_bits = self.total_bits + 512;
            assert(self@ == (ShaState {
                buffer: prev.buffer.skip(64),
                total_bits: (prev.total_bits + 512) as u64,
                ..prev.block_processed(first_block(prev.buffer))
            }));
        }
    }

    /// Append a word's bytes (in the selected byte order) and compress every
    /// full block; ignored while busy.
    pub fn write_data(&mut self, data: u32)
        requires
            old(self)@.write_data_ok(data),
        ensures
            final(self)@ == old(self)@.after_write_data(data),
    {
        if self.is_busy() {
            return;
        }
        if self.big_endian {
            self.input_buffer.push(((data >> 24) & 0xFF) as u8);
            self.input_buffer.push(((data >> 16) & 0xFF) as u8);
            self.input_buffer.push(((data >> 8) & 0xFF) as u8);
            self.input_buffer.push((data & 0xFF) as u8);
        } else {
            self.input_buffer.push((data & 0xFF) as u8);
            self.input_buffer.push(((data >> 8) & 0xFF) as u8);
            self.input_buffer.push(((data >> 16) & 0xFF) as u8);
            self.input_buffer.push(((data >> 24) & 0xFF) as u8);
        }
        assert(self@ =~= old(self)@.with_word(data));
        self.absorb();
    }

    /// Get hash result.
    pub fn get_hash(&self) -> (r: [u32; 8])
        ensures
            r@ == self@.hash,
    {
        self.hash
    }
}

/// The standard message padding of SHA-256: the message, 0x80, zeros up to
/// 56 modulo 64, and the message length in bits as a big-endian 64-bit word.
pub open spec fn pad_message(m: Seq<u8>) -> Seq<u8> {
    m.push(0x80) + Seq::new(pad_zeros(m.len() + 1int) as nat, |i: int| 0u8) + length_bytes(
        (m.len() * 8) as u64,
    )
}

/// `h` after compressing the 64-byte blocks of `bytes` in turn (a short last
/// block padded with zeros).
pub open spec fn compress_blocks(h: Seq<u32>, bytes: Seq<u8>) -> Seq<u32>
    decreases bytes.len(),
{
    if bytes.len() == 0 {
        h
    } else {
        let take = if bytes.len() < 64 { bytes.len() as int } else { 64 };
        compress_blocks(compress(h, first_block(bytes)), bytes.skip(take))
    }
}

/// SHA-256 of a message: its padded blocks compressed from the initial value.
pub open spec fn sha256(m: Seq<u8>) -> Seq<u32> {
    compress_blocks(initial_hash(), pad_message(m))
}

/// Compressing what remains of the buffer gives the buffer's blocks
/// compressed into the current hash.
pub proof fn lemma_drained_hash(s: ShaState)
    ensures
        s.drained().hash == compress_blocks(s.hash, s.buffer),
    decreases s.buffer.len(),
{
    if s.buffer.len() > 0 {
        let take = if s.buffer.len() < 64 { s.buffer.len() as int } else { 64 };
        lemma_drained_hash(
            ShaState { buffer: s.buffer.skip(take), ..s.block_processed(first_block(s.buffer)) },
        );
    }
}

/// Finalising a message held whole in the buffer of a freshly reset
/// accelerator, in single mode, gives its SHA-256 digest.
pub proof fn lemma_finalize_is_sha256(s: ShaState)
    requires
        s.hash == initial_hash(),
        s.total_bits == 0,
        !s.double_sha,
        s.buffer.len() * 8 <= u64::MAX,
    ensures
        s.finalized().hash == sha256(s.buffer),
{
    lemma_drained_hash(s.padded());
    lemma_drained_keeps_modes(s.padded());
    assert(s.padded().buffer == pad_message(s.buffer));
}

/// Compressing a full block ahead of time does not change the digest that
/// finalising gives.
pub proof fn lemma_absorb_keeps_digest(s: ShaState)
    requires
        s.buffer.len() >= 64,
        s.finalize_ok(),
    ensures
        (ShaState {
            buffer: s.buffer.skip(64),
            total_bits: (s.total_bits + 512) as u64,
            ..s.block_processed(first_block(s.buffer))
        }).finalized() == s.finalized(),
{
    let t = ShaState {
        buffer: s.buffer.skip(64),
        total_bits: (s.total_bits + 512) as u64,
        ..s.block_processed(first_block(s.buffer))
    };
    let p = s.padded();
    let q = t.padded();
    assert(pad_zeros(t.buffer.len() + 1int) == pad_zeros(s.buffer.len() + 1int)) by {
        assert(s.buffer.len() + 1 == t.buffer.len() + 1 + 64);
    }
    assert(p.buffer.skip(64) =~= q.buffer);
    assert(first_block(p.buffer) =~= first_block(s.buffer));
    assert(p.drained() == (ShaState {
        buffer: p.buffer.skip(64),
        ..p.block_processed(first_block(p.buffer))
    }).drained());
    assert((ShaState { buffer: p.buffer.skip(64), ..p.block_processed(first_block(p.buffer)) })
        == q);
}

/// Compressing every full block ahead of time does not change the digest:
/// a message written into a freshly reset accelerator, in single mode,
/// finalises to its SHA-256 digest however many blocks were absorbed.
pub proof fn lemma_absorbed_is_sha256(s: ShaState)
    requires
        s.finalize_ok(),
    ensures
        s.absorbed().finalized() == s.finalized(),
        s.hash == initial_hash() && s.total_bits == 0 && !s.double_sha ==> s.absorbed().finalized().hash
            == sha256(s.buffer),
    decreases s.buffer.len(),
{
    if s.buffer.len() >= 64 {
        let t = ShaState {
            buffer: s.buffer.skip(64),
            total_bits: (s.total_bits + 512) as u64,
            ..s.block_processed(first_block(s.buffer))
        };
        lemma_absorb_keeps_digest(s);
        lemma_absorbed_is_sha256(t);
    }
    if s.hash == initial_hash() && s.total_bits == 0 && !s.double_sha {
        lemma_finalize_is_sha256(s);
    }
}

/// A data write appends the word's four bytes and then compresses every full
/// block: with the big-endian bit clear the least significant byte comes
/// first, with it set the most significant, so the two orders are each
/// other's reverse; a write while busy changes nothing.
pub proof fn lemma_write_data_byte_order(s: ShaState, data: u32)
    ensures
        s.busy() ==> s.after_write_data(data) == s,
        !s.busy() && !s.big_endian ==> s.after_write_data(data) == (ShaState {
            buffer: s.buffer + seq![
                (data % 256) as u8,
                ((data / 256) % 256) as u8,
                ((data / 65536) % 256) as u8,
                (data / 16777216) as u8,
            ],
            ..s
        }).absorbed(),
        !s.busy() && s.big_endian ==> s.after_write_data(data) == (ShaState {
            buffer: s.buffer + seq![
                (data / 16777216) as u8,
                ((data / 65536) % 256) as u8,
                ((data / 256) % 256) as u8,
                (data % 256) as u8,
            ],
            ..s
        }).absorbed(),
{
    assert(((data & 0xFF) as u8) == ((data % 256) as u8) && (((data >> 8u32) & 0xFF) as u8) == (((
    data / 256) % 256) as u8) && (((data >> 16u32) & 0xFF) as u8) == (((data / 65536) % 256) as u8)
        && (((data >> 24u32) & 0xFF) as u8) == ((data / 16777216) as u8)) by (bit_vector);
    if !s.busy() {
        if s.big_endian {
            assert(s.with_word(data).buffer =~= s.buffer + seq![
                (data / 16777216) as u8,
                ((data / 65536) % 256) as u8,
                ((data / 256) % 256) as u8,
                (data % 256) as u8,
            ]);
        } else {
            assert(s.with_word(data).buffer =~= s.buffer + seq![
                (data % 256) as u8,
                ((data / 256) % 256) as u8,
                ((data / 65536) % 256) as u8,
                (data / 16777216) as u8,
            ]);
        }
    }
}

/// The bytes of a sequence of words, each least significant byte first.
pub open spec fn le_bytes(ws: Seq<u32>) -> Seq<u8>
    decreases ws.len(),
{
    if ws.len() == 0 {
        Seq::empty()
    } else {
        let w = ws.last();
        le_bytes(ws.drop_last()) + seq![
            (w % 256) as u8,
            ((w / 256) % 256) as u8,
            ((w / 65536) % 256) as u8,
            (w / 16777216) as u8,
        ]
    }
}

/// The state after writing each of `ws` to the data register in turn.
pub open spec fn words_written(s: ShaState, ws: Seq<u32>) -> ShaState
    decreases ws.len(),
{
    if ws.len() == 0 {
        s
    } else {
        words_written(s, ws.drop_last()).after_write_data(ws.last())
    }
}

/// Absorbing full blocks keeps the control, status and modes.
proof fn lemma_absorbed_keeps_modes(s: ShaState)
    ensures
        s.absorbed().status == s.status,
        s.absorbed().ctrl == s.ctrl,
        s.absorbed().double_sha == s.double_sha,
        s.absorbed().big_endian == s.big_endian,
    decreases s.buffer.len(),
{
    if s.buffer.len() >= 64 {
        lemma_absorbed_keeps_modes(
            ShaState {
                buffer: s.buffer.skip(64),
                total_bits: (s.total_bits + 512) as u64,
                ..s.block_processed(first_block(s.buffer))
            },
        );
    }
}

/// Appending bytes after absorbing and absorbing again is appending them
/// first and absorbing once.
proof fn lemma_append_after_absorb(y: ShaState, b: Seq<u8>)
    ensures
        (ShaState { buffer: y.absorbed().buffer + b, ..y.absorbed() }).absorbed() == (ShaState {
            buffer: y.buffer + b,
            ..y
        }).absorbed(),
    decreases y.buffer.len(),
{
    if y.buffer.len() >= 64 {
        let z = ShaState {
            buffer: y.buffer.skip(64),
            total_bits: (y.total_bits + 512) as u64,
            ..y.block_processed(first_block(y.buffer))
        };
        lemma_append_after_absorb(z, b);
        let yb = ShaState { buffer: y.buffer + b, ..y };
        assert(first_block(yb.buffer) =~= first_block(y.buffer));
        assert(yb.buffer.skip(64) =~= z.buffer + b);
        assert((ShaState {
            buffer: yb.buffer.skip(64),
            total_bits: (yb.total_bits + 512) as u64,
            ..yb.block_processed(first_block(yb.buffer))
        }) == (ShaState { buffer: z.buffer + b, ..z }));
    }
}

/// Writing words from a state that is not busy and holds less than a block,
/// with the big-endian bit clear, gives the state that holds their
/// little-endian bytes and has absorbed every full block.
pub proof fn lemma_words_written(s: ShaState, ws: Seq<u32>)
    requires
        !s.busy(),
        !s.big_endian,
        s.buffer.len() < 64,
    ensures
        words_written(s, ws) == (ShaState { buffer: s.buffer + le_bytes(ws), ..s }).absorbed(),
    decreases ws.len(),
{
    if ws.len() == 0 {
        assert(s.buffer + le_bytes(ws) =~= s.buffer);
        assert((ShaState { buffer: s.buffer, ..s }) == s);
    } else {
        let prev = ws.drop_last();
        let w = ws.last();
        lemma_words_written(s, prev);
        let y = ShaState { buffer: s.buffer + le_bytes(prev), ..s };
        lemma_absorbed_keeps_modes(y);
        lemma_write_data_byte_order(y.absorbed(), w);
        let b = seq![
            (w % 256) as u8,
            ((w / 256) % 256) as u8,
            ((w / 65536) % 256) as u8,
            (w / 16777216) as u8,
        ];
        lemma_append_after_absorb(y, b);
        assert(y.buffer + b =~= s.buffer + le_bytes(ws));
    }
}

/// Writing the little-endian words of a message into a freshly reset
/// accelerator, in single mode with the big-endian bit clear, and
/// finalising gives the message's SHA-256 digest.
pub proof fn lemma_written_words_hash(s: ShaState, ws: Seq<u32>)
    requires
        !s.busy(),
        !s.big_endian,
        !s.double_sha,
        s.hash == initial_hash(),
        s.total_bits == 0,
        s.buffer.len() == 0,
        ws.len() * 32 <= u64::MAX,
    ensures
        words_written(s, ws).finalized().hash == sha256(le_bytes(ws)),
{
    lemma_words_written(s, ws);
    lemma_le_bytes_len(ws);
    let m = ShaState { buffer: s.buffer + le_bytes(ws), ..s };
    assert(s.buffer + le_bytes(ws) =~= le_bytes(ws));
    lemma_absorbed_is_sha256(m);
}

proof fn lemma_le_bytes_len(ws: Seq<u32>)
    ensures
        le_bytes(ws).len() == 4 * ws.len(),
    decreases ws.len(),
{
    if ws.len() > 0 {
        lemma_le_bytes_len(ws.drop_last());
    }
}

/// Compressing the remaining blocks changes only the buffer, the hash and the
/// schedule: modes, control, status and the bit count stay.
pub proof fn lemma_drained_keeps_modes(s: ShaState)
    ensures
        s.drained().double_sha == s.double_sha,
        s.drained().big_endian == s.big_endian,
        s.drained().ctrl == s.ctrl,
        s.drained().total_bits == s.total_bits,
        s.drained().buffer.len() == 0,
    decreases s.buffer.len(),
{
    if s.buffer.len() > 0 {
        let take = if s.buffer.len() < 64 { s.buffer.len() as int } else { 64 };
        lemma_drained_keeps_modes(
            ShaState { buffer: s.buffer.skip(take), ..s.block_processed(first_block(s.buffer)) },
        );
    }
}

/// Padding length: with `j` zeros after `n` bytes the length is 56 modulo 64
/// exactly when `j` is the padding.
proof fn lemma_pad(n: int, j: int)
    requires
        n >= 0,
        0 <= j <= pad_zeros(n),
    ensures
        ((n + j) % 64 == 56) == (j == pad_zeros(n)),
        pad_zeros(n) < 64,
{
    let m = n % 64;
    assert(n == 64 * (n / 64) + m);
    assert(pad_zeros(n) == (56 - m) % 64);
}

impl Sha256 {
    /// Pad the message, compress what remains and, in double mode, hash the
    /// digest once more.
    pub fn finalize(&mut self)
        requires
            old(self)@.finalize_ok(),
        ensures
            final(self)@ == old(self)@.finalized(),
    {
        let ghost start = self@;
        let msg_len = self.input_buffer.len();
        self.total_bits = self.total_bits + (msg_len as u64) * 8;
        self.input_buffer.push(0x80);
        let ghost base = self.input_buffer@;
        proof {
            lemma_pad(base.len() as int, 0);
        }
        while self.input_buffer.len() % 64 != 56
            invariant
                base.len() >= 1,
                base.len() <= self.input_buffer@.len() <= base.len() + pad_zeros(base.len() as int),
                self.input_buffer@ == base + Seq::new(
                    (self.input_buffer@.len() - base.len()) as nat,
                    |i: int| 0u8,
                ),
                self@ == (ShaState { buffer: self@.buffer, ..start.padded() }),
            decreases base.len() + pad_zeros(base.len() as int) - self.input_buffer@.len(),
        {
            proof {
                lemma_pad(base.len() as int, self.input_buffer@.len() - base.len());
            }
            self.input_buffer.push(0);
            assert(self.input_buffer@ =~= base + Seq::new(
                (self.input_buffer@.len() - base.len()) as nat,
                |i: int| 0u8,
            ));
        }
        proof {
            lemma_pad(base.len() as int, self.input_buffer@.len() - base.len());
        }
        let tb = self.total_bits;
        self.input_buffer.push((tb >> 56) as u8);
        self.input_buffer.push((tb >> 48) as u8);
        self.input_buffer.push((tb >> 40) as u8);
        self.input_buffer.push((tb >> 32) as u8);
        self.input_buffer.push((tb >> 24) as u8);
        self.input_buffer.push((tb >> 16) as u8);
        self.input_buffer.push((tb >> 8) as u8);
        self.input_buffer.push(tb as u8);
        assert(self@ =~= start.padded());
        while self.input_buffer.len() > 0
            invariant
                self@.drained() == start.padded().drained(),
            decreases self.input_buffer@.len(),
        {
            let ghost prev = self@;
            let block = block_from(&self.input_buffer);
            let take = if self.input_buffer.len() < 64 {
                self.input_buffer.len()
            } else {
                64
            };
            let rest = self.input_buffer.split_off(take);
            self.input_buffer = rest;
            self.process_block(&block);
            assert(self@ == (ShaState {
                buffer: prev.buffer.skip(take as int),
                ..prev.block_processed(first_block(prev.buffer))
            }));
        }
        let ghost d = self@;
        assert(d == start.padded().drained());
        let ghost mut digest_words: Seq<u32> = d.hash;
        if self.double_sha {
            let first_hash = self.hash;
            self.hash = initial_hash_words();
            let mut block = [0u8; 64];
            let mut i: usize = 0;
            proof {
                digest_words = Seq::empty();
            }
            while i < 8
                invariant
                    0 <= i <= 8,
                    block@.len() == 64,
                    first_hash@ == d.hash,
                    digest_words.len() == i,
                    forall|k: int| 0 <= k < i ==> #[trigger] digest_words[k] == d.hash[k],
                    forall|j: int|
                        0 <= j < 4 * i ==> block@[j] == double_block(digest_words + Seq::new(
                            (8 - i) as nat,
                            |k: int| 0u32,
                        ))[j],
                    forall|j: int| 4 * i <= j < 64 ==> block@[j] == 0,
                    self@ == (ShaState { hash: initial_hash(), ..d }),
                decreases 8 - i,
            {
                let word = first_hash[i];
                block[i * 4] = (word >> 24) as u8;
                block[i * 4 + 1] = (word >> 16) as u8;
                block[i * 4 + 2] = (word >> 8) as u8;
                block[i * 4 + 3] = word as u8;
                proof {
                    let old_words = digest_words;
                    digest_words = digest_words.push(word);
                    let full = digest_words + Seq::new((8 - i - 1) as nat, |k: int| 0u32);
                    let prev_full = old_words + Seq::new((8 - i) as nat, |k: int| 0u32);
                    assert forall|j: int| 0 <= j < 4 * (i + 1) implies block@[j] == double_block(
                        full,
                    )[j] by {
                        if j < 4 * i {
                            assert(full[j / 4] == prev_full[j / 4]);
                        } else {
                            assert(j / 4 == i);
                            assert(full[j / 4] == word);
                        }
                    }
                }
                i = i + 1;
            }
            block[32] = 0x80;
            block[62] = 1;
            assert(block@ =~= double_block(digest_words));
            self.process_block(&block);
            assert(self@ == (ShaState { hash: initial_hash(), ..d }).block_processed(
                double_block(digest_words),
            ));
        }
        self.status = status::READY;
        self.processing = false;
        proof {
            assert(digest_words.len() == 8);
            assert(digest_words =~= d.hash);
            assert(self@ =~= start.finalized());
        }
    }

    /// Register read.
    pub fn read(&mut self, addr: u32) -> (r: u32)
        requires
            addr >= SHA256_BASE,
        ensures
            r == old(self)@.read_value((addr - SHA256_BASE) as u32),
            final(self)@ == old(self)@,
    {
        let offset = addr - SHA256_BASE;
        if offset == regs::CTRL {
            self.ctrl
        } else if offset == regs::STATUS {
            self.status
        } else if regs::SUM0 <= offset && offset <= regs::SUM7 && offset % 4 == 0 {
            self.hash[((offset - regs::SUM0) / 4) as usize]
        } else {
            0
        }
    }

    /// Register write: CTRL sets the modes, may reset and may start the
    /// final computation; WDATA feeds a word.
    pub fn write(&mut self, addr: u32, value: u32)
        requires
            addr >= SHA256_BASE,
            (addr - SHA256_BASE) as u32 == regs::WDATA ==> old(self)@.write_data_ok(value),
            (addr - SHA256_BASE) as u32 == regs::CTRL && value & ctrl::START != 0 ==> old(
                self,
            )@.ctrl_written(value).finalize_ok(),
        ensures
            (addr - SHA256_BASE) as u32 == regs::CTRL && value & ctrl::START != 0 ==> old(
                self,
            )@.ctrl_written(value).started().finalized() == final(self)@,
            (addr - SHA256_BASE) as u32 == regs::CTRL && value & ctrl::START == 0 ==> final(self)@
                == old(self)@.ctrl_written(value),
            (addr - SHA256_BASE) as u32 == regs::WDATA ==> final(self)@ == old(
                self,
            )@.after_write_data(value),
            (addr - SHA256_BASE) as u32 != regs::CTRL && (addr - SHA256_BASE) as u32
                != regs::WDATA ==> final(self)@ == old(self)@,
    {
        let offset = addr - SHA256_BASE;
        if offset == regs::CTRL {
            self.ctrl = value;
            self.double_sha = (value & ctrl::DOUBLE_SHA) != 0;
            self.big_endian = (value & ctrl::BIG_ENDIAN) != 0;
            if (value & ctrl::RESET) != 0 {
                self.reset_hash();
            }
            if (value & ctrl::START) != 0 {
                self.status = status::BUSY;
                self.processing = true;
                self.finalize();
            }
        } else if offset == regs::WDATA {
            self.write_data(value);
        }
    }

    /// Return to the power-on state.
    pub fn reset(&mut self)
        ensures
            final(self)@ == ShaState::initial(),
    {
        *self = Sha256::new();
    }
}

impl Default for Sha256 {
    fn default() -> (r: Self)
        ensures
            r@ == ShaState::initial(),
    {
        Sha256::new()
    }
}

/// The first 64 bytes of a buffer, zero-filled.
fn block_from(buf: &Vec<u8>) -> (r: [u8; 64])
    ensures
        r@ == first_block(buf@),
{
    let mut block = [0u8; 64];
    let mut i: usize = 0;
    while i < 64
        invariant
            0 <= i <= 64,
            block@.len() == 64,
            forall|j: int| 0 <= j < i ==> block@[j] == first_block(buf@)[j],
            forall|j: int| i <= j < 64 ==> block@[j] == 0,
        decreases 64 - i,
    {
        if i < buf.len() {
            block[i] = buf[i];
        }
        i = i + 1;
    }
    assert(block@ =~= first_block(buf@));
    block
}

} // verus!
