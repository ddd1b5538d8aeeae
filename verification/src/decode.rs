//! The sample decoder: a payload of exactly four bytes carries one sensor
//! reading, little-endian. Any other length produces no sample at all.
//!
//! The decoder hands back the raw 32-bit pattern; whether a deployment
//! reads it as a signed integer or as a binary32 number is a
//! configuration matter (see [`crate::config`]) settled outside this
//! crate, where the pattern is turned into a physical value.

use vstd::prelude::*;

verus! {

/// The 32-bit word spelled by four bytes in little-endian order.
pub open spec fn le_word_of(bytes: Seq<u8>) -> u32
    recommends
        bytes.len() == 4,
{
    (bytes[0] + bytes[1] * 0x100 + bytes[2] * 0x1_0000 + bytes[3] * 0x100_0000) as u32
}

/// Decode one payload: exactly four bytes give the little-endian word,
/// every other length is silently discarded.
pub fn decode_payload(payload: &[u8]) -> (r: Option<u32>)
    ensures
        payload@.len() == 4 ==> r == Some(le_word_of(payload@)),
        payload@.len() != 4 ==> r is None,
{
    if payload.len() == 4 {
        let b0: u32 = payload[0] as u32;
        let b1: u32 = payload[1] as u32;
        let b2: u32 = payload[2] as u32;
        let b3: u32 = payload[3] as u32;
        let word: u32 = b0 + b1 * 0x100 + b2 * 0x1_0000 + b3 * 0x100_0000;
        Some(word)
    } else {
        None
    }
}

/// The little-endian word read back as a signed 32-bit value, for
/// deployments whose payload is a two's-complement integer.
pub fn word_as_i32(word: u32) -> (r: i32)
    ensures
        r == word as i32,
{
    word as i32
}

} // verus!
