//! The pending partial block, kept by block_buffer's `BlockBuffer`, and the
//! calls that turn a stream of bytes into whole blocks for the compression
//! function.

use crate::compress::{absorb, TigerState};
use crate::words::le_bytes;
use block_buffer::byteorder::LE;
use block_buffer::generic_array::typenum::U64;
use block_buffer::BlockBuffer;
use vstd::prelude::*;

verus! {

/// block_buffer's `BlockBuffer` over 64-byte blocks. Verus refuses a
/// declaration of that type itself (its bound on the block size), so the
/// buffer stands in a private field here.
#[verifier::external_body]
pub struct PendingBlock {
    buf: BlockBuffer<U64>,
}

/// The bytes that the buffer holds and has not yet handed on as a block.
pub uninterp spec fn pending_of(b: PendingBlock) -> Seq<u8>;

/// What is left of `s` after its whole 64-byte blocks: the last `s.len() % 64` bytes.
pub open spec fn tail_of(s: Seq<u8>) -> Seq<u8> {
    s.subrange(s.len() - s.len() % 64, s.len() as int)
}

/// The number of zero bytes that follow the `0x80` marker after a message of
/// `n` bytes, so that the marker, the zeros and the eight length bytes close
/// the last block.
pub open spec fn pad_zeros(n: nat) -> nat {
    if n % 64 < 56 {
        (55 - n % 64) as nat
    } else {
        (119 - n % 64) as nat
    }
}

/// The padding after a message of `n` bytes whose length counter reads `bits`:
/// the byte `0x80`, zeros, then `bits` in little-endian order.
pub open spec fn pad_suffix(n: nat, bits: u64) -> Seq<u8> {
    seq![0x80u8] + Seq::new(pad_zeros(n), |i: int| 0u8) + le_bytes(bits)
}

impl Clone for PendingBlock {
    /// Relies on the derived `Clone` of `BlockBuffer`: it copies the bytes and
    /// the cursor.
    #[verifier::external_body]
    fn clone(&self) -> (r: Self)
        ensures
            pending_of(r) == pending_of(*self),
    {
        PendingBlock { buf: self.buf.clone() }
    }
}

/// Relies on `BlockBuffer::default`: an empty buffer, its cursor at zero.
#[verifier::external_body]
pub(crate) fn new_buffer() -> (r: PendingBlock)
    ensures
        pending_of(r) == Seq::<u8>::empty(),
{
    PendingBlock { buf: BlockBuffer::default() }
}

/// Relies on `BlockBuffer::input`: it hands the callback, in order, every
/// whole block of the pending bytes followed by `input`, and keeps the rest.
/// The callback compresses each block into `st`.
#[verifier::external_body]
pub(crate) fn buffer_input(buf: &mut PendingBlock, st: &mut TigerState, input: &[u8])
    requires
        pending_of(*old(buf)).len() < 64,
    ensures
        final(st)@ == absorb(old(st)@, pending_of(*old(buf)) + input@),
        pending_of(*final(buf)) == tail_of(pending_of(*old(buf)) + input@),
{
    buf.buf.input(input, |blk| st.process_block(blk.as_slice()))
}

/// Relies on `BlockBuffer::len64_padding` with little-endian order: it appends
/// `0x80`, zeros and the eight bytes of `bits` to the pending bytes, hands
/// the callback the one or two blocks this makes, and empties the buffer.
#[verifier::external_body]
pub(crate) fn buffer_pad(buf: &mut PendingBlock, st: &mut TigerState, bits: u64)
    requires
        pending_of(*old(buf)).len() < 64,
    ensures
        final(st)@ == absorb(
            old(st)@,
            pending_of(*old(buf)) + pad_suffix(pending_of(*old(buf)).len(), bits),
        ),
        pending_of(*final(buf)) == Seq::<u8>::empty(),
{
    buf.buf.len64_padding::<LE, _>(bits, |blk| st.process_block(blk.as_slice()))
}

/// Relies on `BlockBuffer::reset`: the cursor goes back to zero.
#[verifier::external_body]
pub(crate) fn buffer_reset(buf: &mut PendingBlock)
    ensures
        pending_of(*final(buf)) == Seq::<u8>::empty(),
{
    buf.buf.reset()
}

} // verus!
