//! Little-endian conversion between bytes and 64-bit words.

use block_buffer::byteorder::{ByteOrder, LE};
use vstd::prelude::*;

verus! {

/// The 64-bit word whose little-endian encoding is the eight bytes `b[0..8]`.
pub open spec fn le_word(b: Seq<u8>) -> u64 {
    (b[0] as u64) | ((b[1] as u64) << 8u64) | ((b[2] as u64) << 16u64) | ((b[3] as u64) << 24u64)
        | ((b[4] as u64) << 32u64) | ((b[5] as u64) << 40u64) | ((b[6] as u64) << 48u64) | ((
    b[7] as u64) << 56u64)
}

/// The eight bytes of `w`, least significant first.
pub open spec fn le_bytes(w: u64) -> Seq<u8> {
    Seq::new(8, |i: int| ((w >> (8 * i) as u64) & 0xff) as u8)
}

/// The words of a block: word `i` is read little-endian from bytes `8i .. 8i + 8`.
pub open spec fn words_of(block: Seq<u8>) -> Seq<u64> {
    Seq::new(block.len() / 8, |i: int| le_word(block.subrange(8 * i, 8 * i + 8)))
}

/// Relies on byteorder's `LittleEndian::read_u64_into` (reached through
/// block_buffer): it fills word `i` with bytes `8i .. 8i + 8` read
/// little-endian, and panics only when the lengths disagree.
#[verifier::external_body]
pub(crate) fn read_words(block: &[u8]) -> (r: [u64; 8])
    requires
        block@.len() == 64,
    ensures
        r@ == words_of(block@),
{
    let mut words = [0u64; 8];
    LE::read_u64_into(block, &mut words);
    words
}

/// Relies on byteorder's `LittleEndian::write_u64_into` (reached through
/// block_buffer): it writes each word as eight little-endian bytes, in order.
#[verifier::external_body]
pub(crate) fn write_words(words: &[u64; 3]) -> (r: [u8; 24])
    ensures
        r@ == le_bytes(words[0]) + le_bytes(words[1]) + le_bytes(words[2]),
{
    let mut out = [0u8; 24];
    LE::write_u64_into(words, &mut out);
    out
}

} // verus!
