//! The bytes that a device buffer receives for a run of 32-bit words.
//!
//! Buffers are filled with words in the machine's own byte order, so a
//! contract here says "little-endian or big-endian, the same for every word"
//! and no more.
use vstd::prelude::*;

verus! {

/// The four bytes of `word`, least significant first if `little_endian`.
pub open spec fn word_bytes(word: u32, little_endian: bool) -> Seq<u8> {
    let b0 = (word % 256) as u8;
    let b1 = (word / 256 % 256) as u8;
    let b2 = (word / 65536 % 256) as u8;
    let b3 = (word / 16777216) as u8;
    if little_endian {
        seq![b0, b1, b2, b3]
    } else {
        seq![b3, b2, b1, b0]
    }
}

/// The words laid out one after the other, four bytes each.
pub open spec fn encode_words(words: Seq<u32>, little_endian: bool) -> Seq<u8> {
    Seq::new(4 * words.len(), |i: int| word_bytes(words[i / 4], little_endian)[i % 4])
}

/// `bytes` is `words` in one of the two byte orders.
pub open spec fn is_native_encoding(bytes: Seq<u8>, words: Seq<u32>) -> bool {
    bytes == encode_words(words, true) || bytes == encode_words(words, false)
}

/// The bytes of `words` as they lie in memory.
///
/// Trusted: this is `bytemuck::cast_slice` from `u32` to `u8`, copied into a
/// vector. The cast reinterprets the slice's memory, so each word contributes
/// its four bytes in the machine's byte order; a cast to a type of size and
/// alignment one never fails.
#[verifier::external_body]
pub(crate) fn native_bytes(words: &Vec<u32>) -> (bytes: Vec<u8>)
    ensures
        is_native_encoding(bytes@, words@),
{
    bytemuck::cast_slice::<u32, u8>(words.as_slice()).to_vec()
}

} // verus!
