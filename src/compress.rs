//! The Tiger compression function: three passes of eight rounds over a
//! 64-byte block, with the key schedule between passes and a feed-forward.

use crate::tables::{T1, T2, T3, T4};
use crate::words::{read_words, words_of};
use vstd::prelude::*;

verus! {

/// First word of the initial chaining value.
pub const A: u64 = 0x0123456789ABCDEF;

/// Second word of the initial chaining value.
pub const B: u64 = 0xFEDCBA9876543210;

/// Third word of the initial chaining value.
pub const C: u64 = 0xF096A5B4C3B2E187;

/// Index of the byte of `v` that starts at bit `shift` (0: least significant).
pub open spec fn byte_of(v: u64, shift: u64) -> int {
    ((v >> shift) & 0xff) as int
}

/// One round on message word `x` with multiplier `m`; returns the new `(a, b, c)`.
pub open spec fn round_spec(a: u64, b: u64, c: u64, x: u64, m: u64) -> (u64, u64, u64) {
    let c1 = c ^ x;
    let a1 = a.wrapping_sub(
        T1@[byte_of(c1, 0)] ^ T2@[byte_of(c1, 16)] ^ T3@[byte_of(c1, 32)] ^ T4@[byte_of(c1, 48)],
    );
    let b1 = b.wrapping_add(
        T4@[byte_of(c1, 8)] ^ T3@[byte_of(c1, 24)] ^ T2@[byte_of(c1, 40)] ^ T1@[byte_of(c1, 56)],
    );
    (a1, b1.wrapping_mul(m), c1)
}

/// One pass: eight rounds over the words of `x`, the registers rotating roles
/// after each round; returns the registers in their starting order.
pub open spec fn pass_spec(r: (u64, u64, u64), x: Seq<u64>, m: u64) -> (u64, u64, u64) {
    let (a, b, c) = round_spec(r.0, r.1, r.2, x[0], m);
    let (b, c, a) = round_spec(b, c, a, x[1], m);
    let (c, a, b) = round_spec(c, a, b, x[2], m);
    let (a, b, c) = round_spec(a, b, c, x[3], m);
    let (b, c, a) = round_spec(b, c, a, x[4], m);
    let (c, a, b) = round_spec(c, a, b, x[5], m);
    let (a, b, c) = round_spec(a, b, c, x[6], m);
    let (b, c, a) = round_spec(b, c, a, x[7], m);
    (a, b, c)
}

/// The key schedule applied to the eight message words between passes.
pub open spec fn key_schedule_spec(x: Seq<u64>) -> Seq<u64> {
    let x0 = x[0].wrapping_sub(x[7] ^ 0xA5A5A5A5A5A5A5A5);
    let x1 = x[1] ^ x0;
    let x2 = x[2].wrapping_add(x1);
    let x3 = x[3].wrapping_sub(x2 ^ ((!x1) << 19u64));
    let x4 = x[4] ^ x3;
    let x5 = x[5].wrapping_add(x4);
    let x6 = x[6].wrapping_sub(x5 ^ ((!x4) >> 23u64));
    let x7 = x[7] ^ x6;
    let y0 = x0.wrapping_add(x7);
    let y1 = x1.wrapping_sub(y0 ^ ((!x7) << 19u64));
    let y2 = x2 ^ y1;
    let y3 = x3.wrapping_add(y2);
    let y4 = x4.wrapping_sub(y3 ^ ((!y2) >> 23u64));
    let y5 = x5 ^ y4;
    let y6 = x6.wrapping_add(y5);
    let y7 = x7.wrapping_sub(y6 ^ 0x0123456789ABCDEF);
    seq![y0, y1, y2, y3, y4, y5, y6, y7]
}

/// The chaining value after compressing one 64-byte block into `st`.
#[verifier::opaque]
pub open spec fn compress_spec(st: (u64, u64, u64), block: Seq<u8>) -> (u64, u64, u64) {
    let x = words_of(block);
    let (a, b, c) = pass_spec(st, x, 5);
    let x = key_schedule_spec(x);
    let (c, a, b) = pass_spec((c, a, b), x, 7);
    let x = key_schedule_spec(x);
    let (b, c, a) = pass_spec((b, c, a), x, 9);
    (a ^ st.0, b.wrapping_sub(st.1), c.wrapping_add(st.2))
}

fn byte_index(v: u64, shift: u64) -> (r: usize)
    requires
        shift < 64,
    ensures
        r as int == byte_of(v, shift),
        r < 256,
{
    let r = (v >> shift) & 0xff;
    assert((v >> shift) & 0xff <= 0xff) by (bit_vector);
    r as usize
}

fn round(a: u64, b: u64, c: u64, x: u64, m: u64) -> (r: (u64, u64, u64))
    ensures
        r == round_spec(a, b, c, x, m),
{
    let c = c ^ x;
    let a = a.wrapping_sub(
        T1[byte_index(c, 0)] ^ T2[byte_index(c, 16)] ^ T3[byte_index(c, 32)] ^ T4[byte_index(
            c,
            48,
        )],
    );
    let b = b.wrapping_add(
        T4[byte_index(c, 8)] ^ T3[byte_index(c, 24)] ^ T2[byte_index(c, 40)] ^ T1[byte_index(
            c,
            56,
        )],
    );
    (a, b.wrapping_mul(m), c)
}

fn pass(r: (u64, u64, u64), x: &[u64; 8], m: u64) -> (out: (u64, u64, u64))
    ensures
        out == pass_spec(r, x@, m),
{
    let (a, b, c) = round(r.0, r.1, r.2, x[0], m);
    let (b, c, a) = round(b, c, a, x[1], m);
    let (c, a, b) = round(c, a, b, x[2], m);
    let (a, b, c) = round(a, b, c, x[3], m);
    let (b, c, a) = round(b, c, a, x[4], m);
    let (c, a, b) = round(c, a, b, x[5], m);
    let (a, b, c) = round(a, b, c, x[6], m);
    let (b, c, a) = round(b, c, a, x[7], m);
    (a, b, c)
}

fn key_schedule(x: &[u64; 8]) -> (r: [u64; 8])
    ensures
        r@ == key_schedule_spec(x@),
{
    let x0 = x[0].wrapping_sub(x[7] ^ 0xA5A5A5A5A5A5A5A5);
    let x1 = x[1] ^ x0;
    let x2 = x[2].wrapping_add(x1);
    let x3 = x[3].wrapping_sub(x2 ^ ((!x1) << 19));
    let x4 = x[4] ^ x3;
    let x5 = x[5].wrapping_add(x4);
    let x6 = x[6].wrapping_sub(x5 ^ ((!x4) >> 23));
    let x7 = x[7] ^ x6;
    let y0 = x0.wrapping_add(x7);
    let y1 = x1.wrapping_sub(y0 ^ ((!x7) << 19));
    let y2 = x2 ^ y1;
    let y3 = x3.wrapping_add(y2);
    let y4 = x4.wrapping_sub(y3 ^ ((!y2) >> 23));
    let y5 = x5 ^ y4;
    let y6 = x6.wrapping_add(y5);
    let y7 = x7.wrapping_sub(y6 ^ 0x0123456789ABCDEF);
    let r = [y0, y1, y2, y3, y4, y5, y6, y7];
    assert(r@ =~= key_schedule_spec(x@));
    r
}

/// The chaining value `(a, b, c)` of the Tiger state.
#[derive(Clone, Copy)]
pub struct TigerState {
    pub words: (u64, u64, u64),
}

impl View for TigerState {
    type V = (u64, u64, u64);

    open spec fn view(&self) -> (u64, u64, u64) {
        self.words
    }
}

impl TigerState {
    /// The state before any block was compressed.
    pub fn new() -> (r: Self)
        ensures
            r@ == (A, B, C),
    {
        TigerState { words: (A, B, C) }
    }

    /// Compresses one 64-byte block into the chaining value.
    pub fn process_block(&mut self, block: &[u8])
        requires
            block@.len() == 64,
        ensures
            final(self)@ == compress_spec(old(self)@, block@),
    {
        proof {
            reveal(compress_spec);
        }
        let st = self.words;
        let x = read_words(block);
        let (a, b, c) = pass(st, &x, 5);
        let x = key_schedule(&x);
        let (c, a, b) = pass((c, a, b), &x, 7);
        let x = key_schedule(&x);
        let (b, c, a) = pass((b, c, a), &x, 9);
        self.words = (a ^ st.0, b.wrapping_sub(st.1), c.wrapping_add(st.2));
    }

    /// The chaining value.
    pub fn get(&self) -> (r: (u64, u64, u64))
        ensures
            r == self@,
    {
        self.words
    }
}

/// The chaining value after compressing, in order, every whole 64-byte block
/// at the front of `data` into `st`; a trailing partial block is left out.
pub open spec fn absorb(st: (u64, u64, u64), data: Seq<u8>) -> (u64, u64, u64)
    decreases data.len(),
{
    if data.len() < 64 {
        st
    } else {
        absorb(compress_spec(st, data.take(64)), data.skip(64))
    }
}

/// Chunking invariance of block absorption: absorbing whole blocks `x` and then
/// `y` gives the chaining value of absorbing `x + y` at once.
pub proof fn lemma_absorb_split(st: (u64, u64, u64), x: Seq<u8>, y: Seq<u8>)
    requires
        x.len() % 64 == 0,
    ensures
        absorb(st, x + y) == absorb(absorb(st, x), y),
    decreases x.len(),
{
    if x.len() == 0 {
        assert(x + y =~= y);
    } else {
        let xy = x + y;
        assert(xy.take(64) =~= x.take(64));
        assert(xy.skip(64) =~= x.skip(64) + y);
        lemma_absorb_split(compress_spec(st, x.take(64)), x.skip(64), y);
    }
}

} // verus!
