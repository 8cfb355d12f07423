//! Decoding raw PCM payloads into normalized sample sequences.
//!
//! Samples arrive little-endian, 16 or 24 bits deep, interleaved by channel.
//! Every decoded sample is normalized to the signed 24-bit range: a 16-bit
//! sample is scaled by 256, a 24-bit sample is taken as is. Later stages
//! convert that range to whatever the output device needs.

use vstd::prelude::*;

verus! {

/// Bytes per sample of a supported bit depth; zero for an unsupported one.
pub open spec fn spec_bytes_per_sample(bit_depth: u8) -> int {
    if bit_depth == 16 {
        2
    } else if bit_depth == 24 {
        3
    } else {
        0
    }
}

/// Whether the bit depth is one the decoder supports.
pub open spec fn depth_supported(bit_depth: u8) -> bool {
    bit_depth == 16 || bit_depth == 24
}

/// Bytes per sample of a supported bit depth; `None` for an unsupported one.
pub fn bytes_per_sample(bit_depth: u8) -> (r: Option<usize>)
    ensures
        depth_supported(bit_depth) ==> r == Some(spec_bytes_per_sample(bit_depth) as usize),
        !depth_supported(bit_depth) ==> r is None,
{
    if bit_depth == 16 {
        Some(2)
    } else if bit_depth == 24 {
        Some(3)
    } else {
        None
    }
}

/// Two's-complement reading of an unsigned 16-bit value.
pub open spec fn as_signed_16(u: int) -> int {
    if u >= 0x8000 {
        u - 0x1_0000
    } else {
        u
    }
}

/// Two's-complement reading of an unsigned 24-bit value.
pub open spec fn as_signed_24(u: int) -> int {
    if u >= 0x80_0000 {
        u - 0x100_0000
    } else {
        u
    }
}

/// The `i`-th sample of a little-endian 16-bit payload, scaled to the
/// 24-bit range.
pub open spec fn pcm16_sample(s: Seq<u8>, i: int) -> int {
    as_signed_16(s[2 * i] + s[2 * i + 1] * 0x100) * 0x100
}

/// The `i`-th sample of a little-endian 24-bit payload.
pub open spec fn pcm24_sample(s: Seq<u8>, i: int) -> int {
    as_signed_24(s[3 * i] + s[3 * i + 1] * 0x100 + s[3 * i + 2] * 0x1_0000)
}

/// The normalized sample sequence of a PCM payload at a supported bit depth.
pub open spec fn spec_pcm_samples(s: Seq<u8>, bit_depth: u8) -> Seq<int> {
    if bit_depth == 16 {
        Seq::new((s.len() / 2) as nat, |i: int| pcm16_sample(s, i))
    } else {
        Seq::new((s.len() / 3) as nat, |i: int| pcm24_sample(s, i))
    }
}

/// Decode a raw PCM payload into normalized samples.
pub fn decode_pcm(data: &[u8], bit_depth: u8) -> (samples: Vec<i32>)
    requires
        depth_supported(bit_depth),
        data@.len() as int % spec_bytes_per_sample(bit_depth) == 0,
    ensures
        samples@.map_values(|s: i32| s as int) == spec_pcm_samples(data@, bit_depth),
        samples@.len() == data@.len() as int / spec_bytes_per_sample(bit_depth),
{
    let mut samples: Vec<i32> = Vec::new();
    if bit_depth == 16 {
        let n: usize = data.len() / 2;
        let mut i: usize = 0;
        let mut idx: usize = 0;
        while i < n
            invariant
                n == data@.len() / 2,
                2 * n <= data@.len(),
                i <= n,
                idx == 2 * i,
                samples@.len() == i,
                forall|j: int| 0 <= j < i ==> samples@[j] as int == pcm16_sample(data@, j),
            decreases n - i,
        {
            let lo = data[idx] as u32;
            let hi = data[idx + 1] as u32;
            let u: u32 = lo + hi * 0x100;
            let v: i32 = if u >= 0x8000 {
                -(((0x1_0000 - u) * 0x100) as i32)
            } else {
                (u * 0x100) as i32
            };
            samples.push(v);
            i = i + 1;
            idx = idx + 2;
        }
        proof {
            assert(samples@.map_values(|s: i32| s as int) =~= spec_pcm_samples(data@, bit_depth));
        }
    } else {
        let n: usize = data.len() / 3;
        let mut i: usize = 0;
        let mut idx: usize = 0;
        while i < n
            invariant
                n == data@.len() / 3,
                3 * n <= data@.len(),
                i <= n,
                idx == 3 * i,
                samples@.len() == i,
                forall|j: int| 0 <= j < i ==> samples@[j] as int == pcm24_sample(data@, j),
            decreases n - i,
        {
            let b0 = data[idx] as u32;
            let b1 = data[idx + 1] as u32;
            let b2 = data[idx + 2] as u32;
            let u: u32 = b0 + b1 * 0x100 + b2 * 0x1_0000;
            let v: i32 = if u >= 0x80_0000 {
                -((0x100_0000 - u) as i32)
            } else {
                u as i32
            };
            samples.push(v);
            i = i + 1;
            idx = idx + 3;
        }
        proof {
            assert(samples@.map_values(|s: i32| s as int) =~= spec_pcm_samples(data@, bit_depth));
        }
    }
    samples
}

} // verus!
