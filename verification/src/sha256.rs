//! SHA-256, implemented and specified in full.
//!
//! The hashing core is kept inside the library (rather than taken from a
//! crate) so that integrity checks need no further trust: the compression
//! function, the streaming buffer discipline and the final padding are all
//! proved against the recursive specification below.

use vstd::prelude::*;
use vstd::string::StrSliceExecFns;

use crate::jsonout::hex_digit;

verus! {

/// Addition modulo 2^32.
pub open spec fn add32(x: u32, y: u32) -> u32 {
    ((x + y) % 0x1_0000_0000) as u32
}

/// Right rotation of a 32-bit word.
pub open spec fn rotr(x: u32, n: u32) -> u32
    recommends
        0 < n < 32,
{
    (x >> n) | (x << ((32 - n) as u32))
}

pub open spec fn ch(e: u32, f: u32, g: u32) -> u32 {
    (e & f) ^ (!e & g)
}

pub open spec fn maj(a: u32, b: u32, c: u32) -> u32 {
    (a & b) ^ (a & c) ^ (b & c)
}

pub open spec fn big_sigma0(a: u32) -> u32 {
    rotr(a, 2) ^ rotr(a, 13) ^ rotr(a, 22)
}

pub open spec fn big_sigma1(e: u32) -> u32 {
    rotr(e, 6) ^ rotr(e, 11) ^ rotr(e, 25)
}

pub open spec fn small_sigma0(x: u32) -> u32 {
    rotr(x, 7) ^ rotr(x, 18) ^ (x >> 3u32)
}

pub open spec fn small_sigma1(x: u32) -> u32 {
    rotr(x, 17) ^ rotr(x, 19) ^ (x >> 10u32)
}

/// The round constants, the fractional parts of the cube roots of the
/// first sixty-four primes.
pub const K: [u32; 64] = [
    0x428a2f98, 0x71374491, 0xb5c0fbcf, 0xe9b5dba5, 0x3956c25b, 0x59f111f1, 0x923f82a4, 0xab1c5ed5,
    0xd807aa98, 0x12835b01, 0x243185be, 0x550c7dc3, 0x72be5d74, 0x80deb1fe, 0x9bdc06a7, 0xc19bf174,
    0xe49b69c1, 0xefbe4786, 0x0fc19dc6, 0x240ca1cc, 0x2de92c6f, 0x4a7484aa, 0x5cb0a9dc, 0x76f988da,
    0x983e5152, 0xa831c66d, 0xb00327c8, 0xbf597fc7, 0xc6e00bf3, 0xd5a79147, 0x06ca6351, 0x14292967,
    0x27b70a85, 0x2e1b2138, 0x4d2c6dfc, 0x53380d13, 0x650a7354, 0x766a0abb, 0x81c2c92e, 0x92722c85,
    0xa2bfe8a1, 0xa81a664b, 0xc24b8b70, 0xc76c51a3, 0xd192e819, 0xd6990624, 0xf40e3585, 0x106aa070,
    0x19a4c116, 0x1e376c08, 0x2748774c, 0x34b0bcb5, 0x391c0cb3, 0x4ed8aa4a, 0x5b9cca4f, 0x682e6ff3,
    0x748f82ee, 0x78a5636f, 0x84c87814, 0x8cc70208, 0x90befffa, 0xa4506ceb, 0xbef9a3f7, 0xc67178f2,
];

/// The message-schedule word at index `i` of a 64-byte block.
#[verifier::opaque]
pub open spec fn w_spec(block: Seq<u8>, i: int) -> u32
    recommends
        block.len() == 64,
        0 <= i < 64,
    decreases i,
{
    if i < 16 {
        ((block[4 * i] as u32) << 24u32) | ((block[4 * i + 1] as u32) << 16u32) | ((block[4 * i
            + 2] as u32) << 8u32) | (block[4 * i + 3] as u32)
    } else {
        add32(
            add32(
                add32(w_spec(block, i - 16), small_sigma0(w_spec(block, i - 15))),
                w_spec(block, i - 7),
            ),
            small_sigma1(w_spec(block, i - 2)),
        )
    }
}

/// One compression round applied to the eight working words.
pub open spec fn round_step(st: Seq<u32>, wi: u32, ki: u32) -> Seq<u32>
    recommends
        st.len() == 8,
{
    let t1 = add32(add32(add32(add32(st[7], big_sigma1(st[4])), ch(st[4], st[5], st[6])), ki), wi);
    let t2 = add32(big_sigma0(st[0]), maj(st[0], st[1], st[2]));
    seq![add32(t1, t2), st[0], st[1], st[2], add32(st[3], t1), st[4], st[5], st[6]]
}

/// The working words after the first `i` rounds over `block`.
#[verifier::opaque]
pub open spec fn rounds(block: Seq<u8>, st: Seq<u32>, i: int) -> Seq<u32>
    recommends
        block.len() == 64,
        st.len() == 8,
        0 <= i <= 64,
    decreases i,
{
    if i <= 0 {
        st
    } else {
        round_step(rounds(block, st, i - 1), w_spec(block, i - 1), K@[i - 1])
    }
}

/// The compression function: one 64-byte block absorbed into the state.
#[verifier::opaque]
pub open spec fn compress(st: Seq<u32>, block: Seq<u8>) -> Seq<u32>
    recommends
        block.len() == 64,
        st.len() == 8,
{
    let f = rounds(block, st, 64);
    seq![
        add32(st[0], f[0]),
        add32(st[1], f[1]),
        add32(st[2], f[2]),
        add32(st[3], f[3]),
        add32(st[4], f[4]),
        add32(st[5], f[5]),
        add32(st[6], f[6]),
        add32(st[7], f[7]),
    ]
}

/// The state after absorbing a whole sequence of 64-byte blocks.
pub open spec fn compress_seq(st: Seq<u32>, bytes: Seq<u8>) -> Seq<u32>
    recommends
        bytes.len() % 64 == 0,
    decreases bytes.len(),
{
    if bytes.len() < 64 {
        st
    } else {
        compress_seq(compress(st, bytes.take(64)), bytes.skip(64))
    }
}

/// The initial hash state, the fractional parts of the square roots of the
/// first eight primes.
pub open spec fn init_state() -> Seq<u32> {
    seq![0x6a09e667u32, 0xbb67ae85u32, 0x3c6ef372u32, 0xa54ff53au32, 0x510e527fu32, 0x9b05688cu32,
        0x1f83d9abu32, 0x5be0cd19u32]
}

/// Big-endian bytes of a 64-bit value.
pub open spec fn be_bytes64(v: u64) -> Seq<u8> {
    seq![
        ((v >> 56u64) & 0xff) as u8,
        ((v >> 48u64) & 0xff) as u8,
        ((v >> 40u64) & 0xff) as u8,
        ((v >> 32u64) & 0xff) as u8,
        ((v >> 24u64) & 0xff) as u8,
        ((v >> 16u64) & 0xff) as u8,
        ((v >> 8u64) & 0xff) as u8,
        (v & 0xff) as u8,
    ]
}

/// The SHA-256 padding for a message of `len` bytes: a 0x80 byte, zeros to
/// 56 modulo 64, then the bit length big-endian.
pub open spec fn sha_padding(len: u64) -> Seq<u8> {
    let zeros = (((56 - ((len + 1) % 64)) % 64)) as nat;
    seq![0x80u8] + Seq::new(zeros, |i: int| 0u8) + be_bytes64(mul8(len))
}

/// The bit length `len * 8`, wrapping as a 64-bit value.
pub open spec fn mul8(len: u64) -> u64 {
    ((len * 8) % 0x1_0000_0000_0000_0000) as u64
}

/// The eight digest words of a message.
pub open spec fn spec_sha256_words(msg: Seq<u8>) -> Seq<u32>
    recommends
        msg.len() <= u64::MAX,
{
    compress_seq(init_state(), msg + sha_padding(msg.len() as u64))
}

/// The lowercase hex rendering of one 32-bit word, eight digits.
pub open spec fn word_hex(w: u32) -> Seq<char> {
    seq![
        hex_digit(((w >> 28u32) & 0xf) as nat),
        hex_digit(((w >> 24u32) & 0xf) as nat),
        hex_digit(((w >> 20u32) & 0xf) as nat),
        hex_digit(((w >> 16u32) & 0xf) as nat),
        hex_digit(((w >> 12u32) & 0xf) as nat),
        hex_digit(((w >> 8u32) & 0xf) as nat),
        hex_digit(((w >> 4u32) & 0xf) as nat),
        hex_digit((w & 0xf) as nat),
    ]
}

/// The lowercase hex digest of a message, 64 characters.
pub open spec fn spec_sha256_hex(msg: Seq<u8>) -> Seq<char> {
    let ws = spec_sha256_words(msg);
    word_hex(ws[0]) + word_hex(ws[1]) + word_hex(ws[2]) + word_hex(ws[3]) + word_hex(ws[4])
        + word_hex(ws[5]) + word_hex(ws[6]) + word_hex(ws[7])
}

/// Streaming SHA-256 state: the chained words, the not-yet-absorbed tail
/// of the input, and the total byte count fed so far.
pub struct Sha256 {
    state: Vec<u32>,
    buffer: Vec<u8>,
    total_len: u64,
    msg: Ghost<Seq<u8>>,
}

/// Addition modulo 2^32, executable form.
fn add32_exec(x: u32, y: u32) -> (r: u32)
    ensures
        r == add32(x, y),
{
    x.wrapping_add(y)
}

/// Right rotation, executable form.
fn rotr_exec(x: u32, n: u32) -> (r: u32)
    requires
        0 < n < 32,
    ensures
        r == rotr(x, n),
{
    (x >> n) | (x << (32 - n))
}

proof fn lemma_compress_seq_snoc(st: Seq<u32>, s: Seq<u8>, block: Seq<u8>)
    requires
        s.len() % 64 == 0,
        block.len() == 64,
    ensures
        compress_seq(st, s + block) == compress(compress_seq(st, s), block),
    decreases s.len(),
{
    if s.len() == 0 {
        assert((s + block).take(64) =~= block);
        assert((s + block).skip(64) =~= Seq::<u8>::empty());
        assert(compress_seq(st, s + block) == compress_seq(compress(st, block), (s
            + block).skip(64)));
    } else {
        assert((s + block).take(64) =~= s.take(64));
        assert((s + block).skip(64) =~= s.skip(64) + block);
        assert(s.skip(64).len() % 64 == 0) by {
            assert(s.len() >= 64);
        }
        lemma_compress_seq_snoc(compress(st, s.take(64)), s.skip(64), block);
    }
}

impl Sha256 {
    /// All bytes fed so far, absorbed or still buffered.
    pub closed spec fn bytes(&self) -> Seq<u8> {
        self.msg@
    }

    /// Internal invariant: the buffer holds the tail of the input after
    /// the last full block, and the state is the compression of what came
    /// before it.
    pub closed spec fn wf(&self) -> bool {
        &&& self.state@.len() == 8
        &&& self.msg@.len() == self.total_len
        &&& self.buffer@.len() == self.msg@.len() % 64
        &&& self.buffer@ == self.msg@.skip(self.msg@.len() - (self.msg@.len() % 64))
        &&& self.state@ == compress_seq(
            init_state(),
            self.msg@.take(self.msg@.len() - (self.msg@.len() % 64)),
        )
    }

    /// A fresh hasher: nothing fed, initial chaining state.
    pub fn new() -> (r: Sha256)
        ensures
            r.wf(),
            r.bytes() == Seq::<u8>::empty(),
    {
        let mut state: Vec<u32> = Vec::new();
        state.push(0x6a09e667);
        state.push(0xbb67ae85);
        state.push(0x3c6ef372);
        state.push(0xa54ff53a);
        state.push(0x510e527f);
        state.push(0x9b05688c);
        state.push(0x1f83d9ab);
        state.push(0x5be0cd19);
        let r = Sha256 { state, buffer: Vec::new(), total_len: 0, msg: Ghost(Seq::empty()) };
        proof {
            let empty = Seq::<u8>::empty();
            assert(r.state@ =~= init_state());
            assert(empty.skip(0) =~= empty);
            assert(empty.take(0) =~= empty);
            assert(r.buffer@ =~= empty);
        }
        r
    }

    /// Absorb one 64-byte block into the chaining state; buffer, count and
    /// recorded message are untouched.
    fn process_block(&mut self, block: &Vec<u8>)
        requires
            block@.len() == 64,
            old(self).state@.len() == 8,
        ensures
            final(self).state@ == compress(old(self).state@, block@),
            final(self).state@.len() == 8,
            final(self).buffer@ == old(self).buffer@,
            final(self).total_len == old(self).total_len,
            final(self).msg@ == old(self).msg@,
    {
        let ghost st0 = self.state@;
        let mut w: Vec<u32> = Vec::new();
        let mut i: usize = 0;
        while i < 16
            invariant
                block@.len() == 64,
                0 <= i <= 16,
                w@.len() == i,
                forall|j: int| 0 <= j < i ==> w@[j] == w_spec(block@, j),
            decreases 16 - i,
        {
            proof {
                reveal(w_spec);
            }
            let v: u32 = ((block[4 * i] as u32) << 24) | ((block[4 * i + 1] as u32) << 16) | ((
            block[4 * i + 2] as u32) << 8) | (block[4 * i + 3] as u32);
            w.push(v);
            i += 1;
        }
        while i < 64
            invariant
                block@.len() == 64,
                16 <= i <= 64,
                w@.len() == i,
                forall|j: int| 0 <= j < i ==> w@[j] == w_spec(block@, j),
            decreases 64 - i,
        {
            proof {
                reveal(w_spec);
            }
            let s0 = {
                let x = w[i - 15];
                rotr_exec(x, 7) ^ rotr_exec(x, 18) ^ (x >> 3)
            };
            let s1 = {
                let x = w[i - 2];
                rotr_exec(x, 17) ^ rotr_exec(x, 19) ^ (x >> 10)
            };
            let v = add32_exec(add32_exec(add32_exec(w[i - 16], s0), w[i - 7]), s1);
            assert(v == w_spec(block@, i as int));
            w.push(v);
            i += 1;
        }
        let mut a = self.state[0];
        let mut b = self.state[1];
        let mut c = self.state[2];
        let mut d = self.state[3];
        let mut e = self.state[4];
        let mut f = self.state[5];
        let mut g = self.state[6];
        let mut h = self.state[7];
        proof {
            reveal(rounds);
            assert(seq![a, b, c, d, e, f, g, h] =~= rounds(block@, st0, 0));
        }
        let mut t: usize = 0;
        while t < 64
            invariant
                block@.len() == 64,
                st0.len() == 8,
                w@.len() == 64,
                forall|j: int| 0 <= j < 64 ==> w@[j] == w_spec(block@, j),
                0 <= t <= 64,
                seq![a, b, c, d, e, f, g, h] =~= rounds(block@, st0, t as int),
            decreases 64 - t,
        {
            let s1 = rotr_exec(e, 6) ^ rotr_exec(e, 11) ^ rotr_exec(e, 25);
            let chv = (e & f) ^ (!e & g);
            let t1 = add32_exec(add32_exec(add32_exec(add32_exec(h, s1), chv), K[t]), w[t]);
            let s0 = rotr_exec(a, 2) ^ rotr_exec(a, 13) ^ rotr_exec(a, 22);
            let majv = (a & b) ^ (a & c) ^ (b & c);
            let t2 = add32_exec(s0, majv);
            let ghost prev = seq![a, b, c, d, e, f, g, h];
            h = g;
            g = f;
            f = e;
            e = add32_exec(d, t1);
            d = c;
            c = b;
            b = a;
            a = add32_exec(t1, t2);
            proof {
                reveal(rounds);
                assert(seq![a, b, c, d, e, f, g, h] =~= round_step(
                    prev,
                    w_spec(block@, t as int),
                    K@[t as int],
                ));
            }
            t += 1;
        }
        let mut state: Vec<u32> = Vec::new();
        state.push(add32_exec(self.state[0], a));
        state.push(add32_exec(self.state[1], b));
        state.push(add32_exec(self.state[2], c));
        state.push(add32_exec(self.state[3], d));
        state.push(add32_exec(self.state[4], e));
        state.push(add32_exec(self.state[5], f));
        state.push(add32_exec(self.state[6], g));
        state.push(add32_exec(self.state[7], h));
        proof {
            reveal(compress);
            assert(state@ =~= compress(st0, block@));
        }
        self.state = state;
    }

    /// Feed more bytes: full 64-byte blocks of the buffered input are
    /// absorbed at once, the remainder stays buffered.
    #[verifier::rlimit(100)]
    pub fn update(&mut self, data: &[u8])
        requires
            old(self).wf(),
            old(self).bytes().len() + data@.len() <= u64::MAX,
        ensures
            final(self).wf(),
            final(self).bytes() == old(self).bytes() + data@,
    {
        let ghost absorbed = old(self).msg@.take(
            old(self).msg@.len() - (old(self).msg@.len() % 64),
        );
        let ghost newmsg = old(self).msg@ + data@;
        let mut combined: Vec<u8> = Vec::new();
        let mut i: usize = 0;
        let blen = self.buffer.len();
        while i < blen
            invariant
                blen == self.buffer@.len(),
                self == old(self),
                0 <= i <= blen,
                combined@ =~= self.buffer@.take(i as int),
            decreases blen - i,
        {
            combined.push(self.buffer[i]);
            i += 1;
        }
        let dlen = data.len();
        let mut j: usize = 0;
        while j < dlen
            invariant
                dlen == data@.len(),
                self == old(self),
                0 <= j <= dlen,
                combined@ =~= self.buffer@ + data@.take(j as int),
            decreases dlen - j,
        {
            let byte = data[j];
            combined.push(byte);
            j += 1;
        }
        proof {
            assert(combined@ =~= old(self).buffer@ + data@);
            assert(newmsg =~= absorbed + combined@);
            assert(absorbed.len() % 64 == 0);
        }
        let clen = combined.len();
        let mut off: usize = 0;
        while clen >= 64 && off <= clen - 64
            invariant
                clen == combined@.len(),
                combined@ == old(self).buffer@ + data@,
                absorbed.len() % 64 == 0,
                self.state@.len() == 8,
                self.buffer@ == old(self).buffer@,
                self.total_len == old(self).total_len,
                self.msg@ == old(self).msg@,
                0 <= off <= clen,
                off % 64 == 0,
                self.state@ == compress_seq(init_state(), absorbed + combined@.take(off as int)),
            decreases clen - off,
        {
            let mut block: Vec<u8> = Vec::new();
            let mut k: usize = 0;
            while k < 64
                invariant
                    clen == combined@.len(),
                    off + 64 <= clen,
                    0 <= k <= 64,
                    block@ =~= combined@.subrange(off as int, off + k),
                decreases 64 - k,
            {
                block.push(combined[off + k]);
                k += 1;
            }
            let ghost sofar = absorbed + combined@.take(off as int);
            proof {
                assert(sofar.len() % 64 == 0);
                lemma_compress_seq_snoc(init_state(), sofar, block@);
                assert(sofar + block@ =~= absorbed + combined@.take(off + 64));
            }
            self.process_block(&block);
            off += 64;
        }
        let mut rest: Vec<u8> = Vec::new();
        let mut k: usize = off;
        while k < clen
            invariant
                clen == combined@.len(),
                off <= k <= clen,
                rest@ =~= combined@.subrange(off as int, k as int),
            decreases clen - k,
        {
            rest.push(combined[k]);
            k += 1;
        }
        let added = dlen as u64;
        self.total_len = self.total_len + added;
        self.buffer = rest;
        proof {
            self.msg@ = newmsg;
        }
        proof {
            assert(clen - off < 64);
            assert(newmsg.len() == absorbed.len() + clen);
            assert((absorbed.len() + clen) % 64 == clen % 64 - off % 64 + off % 64) by {
                assert(absorbed.len() % 64 == 0);
            }
            assert(newmsg.len() % 64 == clen - off) by {
                assert(absorbed.len() % 64 == 0);
                assert(off % 64 == 0);
                assert(clen - off < 64);
            }
            assert(self.buffer@ =~= newmsg.skip(newmsg.len() - (newmsg.len() % 64)));
            assert(newmsg.take(newmsg.len() - (newmsg.len() % 64)) =~= absorbed + combined@.take(
                off as int,
            ));
        }
    }

    /// Append one lowercase hex digit to `out`.
    fn append_nibble(out: &mut String, d: u32)
        requires
            d < 16,
        ensures
            final(out)@ == old(out)@ + seq![hex_digit(d as nat)],
    {
        let hex = "0123456789abcdef";
        proof {
            reveal_strlit("0123456789abcdef");
            assert(hex@.len() == 16);
            assert(hex@[d as int] == hex_digit(d as nat));
        }
        let i = d as usize;
        out.append(hex.substring_ascii(i, i + 1));
        proof {
            assert(hex@.subrange(d as int, d + 1) =~= seq![hex_digit(d as nat)]);
        }
    }

    /// Append the eight lowercase hex digits of `w` to `out`.
    #[verifier::rlimit(100)]
    fn append_word_hex(out: &mut String, w: u32)
        ensures
            final(out)@ == old(out)@ + word_hex(w),
    {
        let ghost base = out@;
        assert(((w >> 28) & 0xf) < 16 && ((w >> 24) & 0xf) < 16 && ((w >> 20) & 0xf) < 16 && ((w
            >> 16) & 0xf) < 16 && ((w >> 12) & 0xf) < 16 && ((w >> 8) & 0xf) < 16 && ((w >> 4)
            & 0xf) < 16 && (w & 0xf) < 16) by (bit_vector);
        Self::append_nibble(out, (w >> 28) & 0xf);
        Self::append_nibble(out, (w >> 24) & 0xf);
        Self::append_nibble(out, (w >> 20) & 0xf);
        Self::append_nibble(out, (w >> 16) & 0xf);
        Self::append_nibble(out, (w >> 12) & 0xf);
        Self::append_nibble(out, (w >> 8) & 0xf);
        Self::append_nibble(out, (w >> 4) & 0xf);
        Self::append_nibble(out, w & 0xf);
        proof {
            assert(out@ =~= base + word_hex(w));
        }
    }

    /// Render the eight state words as 64 lowercase hex characters.
    #[verifier::rlimit(100)]
    fn render_state_hex(state: &Vec<u32>) -> (r: String)
        requires
            state@.len() == 8,
        ensures
            r@ == word_hex(state@[0]) + word_hex(state@[1]) + word_hex(state@[2]) + word_hex(
                state@[3],
            ) + word_hex(state@[4]) + word_hex(state@[5]) + word_hex(state@[6]) + word_hex(
                state@[7],
            ),
    {
        let mut out = String::new();
        Self::append_word_hex(&mut out, state[0]);
        Self::append_word_hex(&mut out, state[1]);
        Self::append_word_hex(&mut out, state[2]);
        Self::append_word_hex(&mut out, state[3]);
        Self::append_word_hex(&mut out, state[4]);
        Self::append_word_hex(&mut out, state[5]);
        Self::append_word_hex(&mut out, state[6]);
        Self::append_word_hex(&mut out, state[7]);
        proof {
            assert(out@ =~= word_hex(state@[0]) + word_hex(state@[1]) + word_hex(state@[2])
                + word_hex(state@[3]) + word_hex(state@[4]) + word_hex(state@[5]) + word_hex(
                state@[6],
            ) + word_hex(state@[7]));
        }
        out
    }

    /// Pad the message and produce its lowercase hex digest, 64 characters.
    #[verifier::rlimit(100)]
    #[verifier::spinoff_prover]
    pub fn finalize_hex(self) -> (r: String)
        requires
            self.wf(),
        ensures
            r@ == spec_sha256_hex(self.bytes()),
    {
        let mut hasher = self;
        let ghost msg = hasher.msg@;
        let bit_len: u64 = hasher.total_len.wrapping_mul(8);
        let mut tail: Vec<u8> = Vec::new();
        tail.push(0x80);
        let rem = (hasher.buffer.len() + 1) % 64;
        let zeros: usize = if rem <= 56 {
            56 - rem
        } else {
            56 + 64 - rem
        };
        let mut z: usize = 0;
        while z < zeros
            invariant
                0 <= z <= zeros,
                tail@ =~= seq![0x80u8] + Seq::new(z as nat, |i: int| 0u8),
            decreases zeros - z,
        {
            tail.push(0);
            proof {
                assert(tail@ =~= seq![0x80u8] + Seq::new((z + 1) as nat, |i: int| 0u8));
            }
            z += 1;
        }
        tail.push(((bit_len >> 56) & 0xff) as u8);
        tail.push(((bit_len >> 48) & 0xff) as u8);
        tail.push(((bit_len >> 40) & 0xff) as u8);
        tail.push(((bit_len >> 32) & 0xff) as u8);
        tail.push(((bit_len >> 24) & 0xff) as u8);
        tail.push(((bit_len >> 16) & 0xff) as u8);
        tail.push(((bit_len >> 8) & 0xff) as u8);
        tail.push((bit_len & 0xff) as u8);
        proof {
            assert(bit_len == mul8(hasher.total_len));
            assert(tail@ =~= sha_padding(msg.len() as u64));
        }
        let ghost before = hasher.msg@;
        let mut blocks: Vec<u8> = Vec::new();
        let mut i: usize = 0;
        let blen = hasher.buffer.len();
        while i < blen
            invariant
                blen == hasher.buffer@.len(),
                0 <= i <= blen,
                blocks@ =~= hasher.buffer@.take(i as int),
            decreases blen - i,
        {
            blocks.push(hasher.buffer[i]);
            i += 1;
        }
        let tlen = tail.len();
        let mut j: usize = 0;
        while j < tlen
            invariant
                tlen == tail@.len(),
                0 <= j <= tlen,
                blocks@ =~= hasher.buffer@ + tail@.take(j as int),
                blen == hasher.buffer@.len(),
            decreases tlen - j,
        {
            blocks.push(tail[j]);
            j += 1;
        }
        proof {
            assert(blocks@ =~= hasher.buffer@ + tail@);
        }
        let ghost absorbed = msg.take(msg.len() - (msg.len() % 64));
        let ghost padded = msg + sha_padding(msg.len() as u64);
        proof {
            assert(padded =~= absorbed + blocks@);
            assert((msg.len() + 1 + zeros + 8) % 64 == 0) by {
                assert(hasher.buffer@.len() == msg.len() % 64);
            }
            assert(blocks@.len() % 64 == 0) by {
                assert(hasher.buffer@.len() == msg.len() % 64);
            }
        }
        let clen = blocks.len();
        let mut off: usize = 0;
        while clen >= 64 && off <= clen - 64
            invariant
                clen == blocks@.len(),
                clen % 64 == 0,
                absorbed.len() % 64 == 0,
                hasher.state@.len() == 8,
                0 <= off <= clen,
                off % 64 == 0,
                hasher.state@ == compress_seq(init_state(), absorbed + blocks@.take(off as int)),
            decreases clen - off,
        {
            let mut block: Vec<u8> = Vec::new();
            let mut k: usize = 0;
            while k < 64
                invariant
                    clen == blocks@.len(),
                    off + 64 <= clen,
                    0 <= k <= 64,
                    block@ =~= blocks@.subrange(off as int, off + k),
                decreases 64 - k,
            {
                block.push(blocks[off + k]);
                k += 1;
            }
            let ghost sofar = absorbed + blocks@.take(off as int);
            proof {
                assert(sofar.len() % 64 == 0);
                lemma_compress_seq_snoc(init_state(), sofar, block@);
                assert(sofar + block@ =~= absorbed + blocks@.take(off + 64));
            }
            hasher.process_block(&block);
            off += 64;
        }
        proof {
            assert(off == clen);
            assert(absorbed + blocks@.take(clen as int) =~= padded);
            assert(hasher.state@ == spec_sha256_words(msg));
        }
        let out = Self::render_state_hex(&hasher.state);
        proof {
            assert(out@ =~= spec_sha256_hex(msg));
        }
        out
    }
}

/// The lowercase hex SHA-256 digest of a byte string.
pub fn sha256_digest(data: &[u8]) -> (r: String)
    requires
        data@.len() <= u64::MAX,
    ensures
        r@ == spec_sha256_hex(data@),
{
    let mut hasher = Sha256::new();
    hasher.update(data);
    proof {
        assert(hasher.bytes() =~= data@);
    }
    hasher.finalize_hex()
}

} // verus!
