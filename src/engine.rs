//! The Tiger digest engine: incremental input, padding, and the 24-byte result.

use crate::buffer::{
    buffer_input, buffer_pad, buffer_reset, new_buffer, pad_suffix, pad_zeros, pending_of, tail_of,
    PendingBlock,
};
use crate::compress::{absorb, lemma_absorb_split, TigerState, A, B, C};
use crate::words::{le_bytes, write_words};
use vstd::arithmetic::div_mod::{
    lemma_add_mod_noop, lemma_fundamental_div_mod, lemma_mod_multiples_basic,
};
use vstd::prelude::*;

verus! {

/// The length counter after `n` bytes: their number of bits, modulo 2^64.
pub open spec fn bit_len(n: nat) -> u64 {
    ((n * 8) % 0x1_0000_0000_0000_0000) as u64
}

/// The message `m` followed by its padding, a whole number of blocks.
pub open spec fn padded(m: Seq<u8>) -> Seq<u8> {
    m + pad_suffix(m.len(), bit_len(m.len()))
}

/// The Tiger digest of `m`: the chaining value after the padded message, each
/// word written little-endian, `a` then `b` then `c`.
pub open spec fn tiger_digest(m: Seq<u8>) -> Seq<u8> {
    let st = absorb((A, B, C), padded(m));
    le_bytes(st.0) + le_bytes(st.1) + le_bytes(st.2)
}

/// The whole blocks at the front of `m`.
pub open spec fn head_of(m: Seq<u8>) -> Seq<u8> {
    m.take(m.len() - m.len() % 64)
}

/// A message is its whole blocks followed by a tail shorter than a block.
proof fn lemma_head_tail(m: Seq<u8>)
    ensures
        head_of(m).len() % 64 == 0,
        tail_of(m).len() < 64,
        m =~= head_of(m) + tail_of(m),
{
    let n = m.len() as int;
    lemma_fundamental_div_mod(n, 64);
    lemma_mod_multiples_basic(n / 64, 64);
    assert(n - n % 64 == (n / 64) * 64);
}

/// Whole blocks in front of `q` do not change its tail.
proof fn lemma_tail_after_blocks(f: Seq<u8>, q: Seq<u8>)
    requires
        f.len() % 64 == 0,
    ensures
        tail_of(f + q) =~= tail_of(q),
{
    lemma_add_mod_noop(f.len() as int, q.len() as int, 64);
}

/// The counter after `k` more bytes, added with wraparound, is the counter of
/// the longer message.
proof fn lemma_bit_len_add(n: nat, k: nat)
    requires
        k <= u64::MAX,
    ensures
        bit_len(n).wrapping_add((k as u64).wrapping_mul(8)) == bit_len(n + k),
{
    let m: int = 0x1_0000_0000_0000_0000;
    let a: int = n as int * 8;
    let b: int = k as int * 8;
    lemma_add_mod_noop(a, b, m);
    assert((n + k) * 8 == a + b);
    let x: int = a % m;
    let y: int = b % m;
    if x + y >= m {
        lemma_fundamental_div_mod(x + y, m);
        assert((x + y) / m == 1) by (nonlinear_arith)
            requires
                m <= x + y < 2 * m,
                x + y == m * ((x + y) / m) + (x + y) % m,
                0 <= (x + y) % m < m,
        ;
    }
}

/// The message an engine holds after one `input` call for each of `chunks`
/// in turn, when it held `start` before.
pub open spec fn fed(start: Seq<u8>, chunks: Seq<Seq<u8>>) -> Seq<u8>
    decreases chunks.len(),
{
    if chunks.len() == 0 {
        start
    } else {
        fed(start, chunks.drop_last()) + chunks.last()
    }
}

proof fn lemma_fed_flatten_alt(start: Seq<u8>, chunks: Seq<Seq<u8>>)
    ensures
        fed(start, chunks) =~= start + chunks.flatten_alt(),
    decreases chunks.len(),
{
    if chunks.len() > 0 {
        lemma_fed_flatten_alt(start, chunks.drop_last());
    }
}

/// Chunking invariance: feeding the consecutive pieces of a message through
/// separate `input` calls leaves the engine holding their concatenation, so a
/// fresh engine fed them yields the digest of the whole message.
pub proof fn lemma_chunking_invariance(start: Seq<u8>, chunks: Seq<Seq<u8>>)
    ensures
        fed(start, chunks) == start + chunks.flatten(),
        tiger_digest(fed(Seq::empty(), chunks)) == tiger_digest(chunks.flatten()),
{
    lemma_fed_flatten_alt(start, chunks);
    lemma_fed_flatten_alt(Seq::empty(), chunks);
    chunks.lemma_flatten_and_flatten_alt_are_equivalent();
    assert(Seq::<u8>::empty() + chunks.flatten() =~= chunks.flatten());
}

/// A Tiger digest engine. Its view is the message fed to it since it was made
/// or last reset.
pub struct Tiger {
    buffer: PendingBlock,
    len: u64,
    state: TigerState,
    message: Ghost<Seq<u8>>,
}

impl View for Tiger {
    type V = Seq<u8>;

    closed spec fn view(&self) -> Seq<u8> {
        self.message@
    }
}

impl Tiger {
    /// The chaining value has absorbed every whole block of the message, the
    /// buffer holds the rest, and the counter holds the message's length in
    /// bits, modulo 2^64.
    pub closed spec fn wf(&self) -> bool {
        &&& self.state@ == absorb((A, B, C), self.message@)
        &&& pending_of(self.buffer) == tail_of(self.message@)
        &&& self.len == bit_len(self.message@.len())
    }

    /// A fresh engine: initial chaining value, empty buffer, zero length.
    pub fn new() -> (r: Self)
        ensures
            r.wf(),
            r@ == Seq::<u8>::empty(),
    {
        let r = Tiger {
            buffer: new_buffer(),
            len: 0,
            state: TigerState::new(),
            message: Ghost(Seq::empty()),
        };
        assert(tail_of(Seq::<u8>::empty()) =~= Seq::<u8>::empty());
        r
    }

    /// Feeds `input` through the buffer; the chaining value then covers every
    /// whole block of the message followed by `input`.
    fn process_block(&mut self, input: &[u8])
        requires
            old(self).wf(),
        ensures
            final(self).state@ == absorb((A, B, C), old(self)@ + input@),
            pending_of(final(self).buffer) == tail_of(old(self)@ + input@),
            final(self).len == old(self).len,
            final(self).message == old(self).message,
    {
        let ghost m = self.message@;
        let ghost f = head_of(m);
        let ghost p = tail_of(m);
        proof {
            lemma_head_tail(m);
            lemma_absorb_split((A, B, C), f, p);
        }
        buffer_input(&mut self.buffer, &mut self.state, input);
        proof {
            lemma_absorb_split((A, B, C), f, p + input@);
            assert(f + (p + input@) =~= m + input@);
            lemma_tail_after_blocks(f, p + input@);
        }
    }

    /// Appends `input` to the message.
    pub fn input(&mut self, input: &[u8])
        requires
            old(self).wf(),
        ensures
            final(self).wf(),
            final(self)@ == old(self)@ + input@,
    {
        self.process_block(input);
        let ghost n = self.message@.len();
        self.len = self.len.wrapping_add((input.len() as u64).wrapping_mul(8));
        self.message = Ghost(self.message@ + input@);
        proof {
            lemma_bit_len_add(n, input@.len());
        }
    }

    /// Pads the message and compresses the last one or two blocks.
    fn finalize(&mut self)
        requires
            old(self).wf(),
        ensures
            final(self).state@ == absorb((A, B, C), padded(old(self)@)),
    {
        let ghost m = self.message@;
        let ghost f = head_of(m);
        let ghost p = tail_of(m);
        proof {
            lemma_head_tail(m);
            lemma_absorb_split((A, B, C), f, p);
            assert(pad_zeros(p.len()) == pad_zeros(m.len()));
        }
        buffer_pad(&mut self.buffer, &mut self.state, self.len);
        proof {
            let suffix = pad_suffix(m.len(), bit_len(m.len()));
            lemma_absorb_split((A, B, C), f, p + suffix);
            assert(f + (p + suffix) =~= padded(m));
        }
    }

    /// Ends the computation and returns the digest of the message.
    pub fn fixed_result(self) -> (r: [u8; 24])
        requires
            self.wf(),
        ensures
            r@ == tiger_digest(self@),
    {
        let mut engine = self;
        engine.finalize();
        let (a, b, c) = engine.state.get();
        write_words(&[a, b, c])
    }

    /// The digest of `data`, computed on a fresh engine.
    pub fn digest(data: &[u8]) -> (r: [u8; 24])
        ensures
            r@ == tiger_digest(data@),
    {
        let mut engine = Tiger::new();
        engine.input(data);
        assert(Seq::<u8>::empty() + data@ =~= data@);
        engine.fixed_result()
    }

    /// Returns the engine to the state of a fresh one.
    pub fn reset(&mut self)
        ensures
            final(self).wf(),
            final(self)@ == Seq::<u8>::empty(),
    {
        self.state = TigerState::new();
        buffer_reset(&mut self.buffer);
        self.len = 0;
        self.message = Ghost(Seq::empty());
        assert(tail_of(Seq::<u8>::empty()) =~= Seq::<u8>::empty());
    }
}

impl Clone for Tiger {
    /// An engine that continues from the same message.
    fn clone(&self) -> (r: Self)
        ensures
            r@ == self@,
            self.wf() ==> r.wf(),
    {
        Tiger {
            buffer: self.buffer.clone(),
            len: self.len,
            state: self.state,
            message: Ghost(self.message@),
        }
    }
}

impl Default for Tiger {
    fn default() -> (r: Self)
        ensures
            r.wf(),
            r@ == Seq::<u8>::empty(),
    {
        Self::new()
    }
}

} // verus!
