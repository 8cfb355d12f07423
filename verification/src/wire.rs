//! Byte-level reading of the binary audio wire format.
//!
//! A binary audio message is `[1 byte message type][8 bytes big-endian signed
//! 64-bit source timestamp][raw PCM payload]`. This module reads the
//! big-endian timestamp; the payload is decoded in `decode`.

use vstd::prelude::*;

verus! {

/// The unsigned value of eight big-endian bytes starting at `start`.
pub open spec fn be_u64_of(s: Seq<u8>, start: int) -> int {
    s[start] * 0x100_0000_0000_0000 + s[start + 1] * 0x1_0000_0000_0000 + s[start + 2]
        * 0x100_0000_0000 + s[start + 3] * 0x1_0000_0000 + s[start + 4] * 0x100_0000 + s[start + 5]
        * 0x1_0000 + s[start + 6] * 0x100 + s[start + 7]
}

/// Two's-complement reading of an unsigned 64-bit value.
pub open spec fn as_signed_64(u: int) -> int {
    if u >= 0x8000_0000_0000_0000 {
        u - 0x1_0000_0000_0000_0000
    } else {
        u
    }
}

/// The signed big-endian 64-bit value of `s[start .. start + 8]`.
pub open spec fn be_i64_of(s: Seq<u8>, start: int) -> int {
    as_signed_64(be_u64_of(s, start))
}

/// Read a big-endian signed 64-bit integer from eight bytes of `data`.
pub fn read_be_i64(data: &[u8], start: usize) -> (v: i64)
    requires
        start + 8 <= data@.len(),
    ensures
        v == be_i64_of(data@, start as int),
{
    let b0 = data[start] as u64;
    let b1 = data[start + 1] as u64;
    let b2 = data[start + 2] as u64;
    let b3 = data[start + 3] as u64;
    let b4 = data[start + 4] as u64;
    let b5 = data[start + 5] as u64;
    let b6 = data[start + 6] as u64;
    let b7 = data[start + 7] as u64;
    let u: u64 = b0 * 0x100_0000_0000_0000 + b1 * 0x1_0000_0000_0000 + b2 * 0x100_0000_0000 + b3
        * 0x1_0000_0000 + b4 * 0x100_0000 + b5 * 0x1_0000 + b6 * 0x100 + b7;
    if u >= 0x8000_0000_0000_0000 {
        let magnitude: u64 = u - 0x8000_0000_0000_0000;
        i64::MIN + (magnitude as i64)
    } else {
        u as i64
    }
}

} // verus!
