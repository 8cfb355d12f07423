//! The data model of a stream segment: its audio format and decoded chunks.

use vstd::prelude::*;
use crate::decode::{depth_supported, spec_bytes_per_sample};

verus! {

/// The codec of a stream segment. Only uncompressed PCM is supported.
#[derive(Clone, Copy, PartialEq, Eq, Structural, Debug)]
pub enum Codec {
    Pcm,
}

/// The audio format fixed for one stream segment. Immutable once set;
/// replaced wholesale by the next format-defining message.
#[derive(Clone, Copy, PartialEq, Eq, Structural, Debug)]
pub struct AudioFormat {
    pub codec: Codec,
    pub sample_rate: u32,
    pub channels: u8,
    pub bit_depth: u8,
}

/// A format the client can actually decode and play: a supported bit depth
/// and non-degenerate rate and channel count.
pub open spec fn format_playable(f: AudioFormat) -> bool {
    &&& f.codec == Codec::Pcm
    &&& f.sample_rate > 0
    &&& f.channels > 0
    &&& depth_supported(f.bit_depth)
}

/// Bytes of one interleaved frame (one sample per channel) of the format.
pub open spec fn spec_frame_size(f: AudioFormat) -> int {
    spec_bytes_per_sample(f.bit_depth) * f.channels
}

/// A decoded audio chunk with its assigned local play time.
/// `play_at_us` is computed once, at decode time, and never revised.
#[derive(Clone, Debug)]
pub struct DecodedChunk {
    /// The source timestamp from the wire, on the server's stream clock.
    pub source_timestamp: i64,
    /// Normalized interleaved samples (signed 24-bit range).
    pub samples: Vec<i32>,
    /// The format the samples were decoded under.
    pub format: AudioFormat,
    /// Local monotonic instant, in microseconds, at which the chunk is due.
    pub play_at_us: u64,
}

/// The duration, in microseconds, of `frames` frames at `sample_rate`,
/// saturated to `u64::MAX`.
pub open spec fn spec_chunk_duration_us(frames: int, sample_rate: u32) -> int
    recommends
        sample_rate > 0,
{
    let d = frames * 1_000_000 / (sample_rate as int);
    if d > u64::MAX {
        u64::MAX as int
    } else {
        d
    }
}

/// Compute the duration of `frames` frames at `sample_rate`, in microseconds.
pub fn chunk_duration_us(frames: usize, sample_rate: u32) -> (d: u64)
    requires
        sample_rate > 0,
    ensures
        d == spec_chunk_duration_us(frames as int, sample_rate),
{
    let wide: u128 = (frames as u128) * 1_000_000 / (sample_rate as u128);
    if wide > u64::MAX as u128 {
        u64::MAX
    } else {
        wide as u64
    }
}

} // verus!
