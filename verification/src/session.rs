//! Steady-state session logic: format negotiation, clock-sync bookkeeping,
//! metadata snapshots, and turning binary audio messages into scheduled
//! chunks.
//!
//! The transport loop outside the library parses frames and hands each
//! inbound message to one of the methods here; every decision the session
//! makes lives in this module. Per-message problems (a malformed chunk, an
//! unsupported codec) drop the offending unit and leave the session running.

use vstd::prelude::*;
use crate::audio::{AudioFormat, Codec, DecodedChunk, chunk_duration_us, format_playable,
    spec_chunk_duration_us, spec_frame_size};
use crate::clock::{ClockSample, MAX_TIMESTAMP_MAGNITUDE, sample_in_bounds, spec_offset,
    clock_offset};
use crate::decode::{bytes_per_sample, decode_pcm, spec_bytes_per_sample, spec_pcm_samples};
use crate::now_playing::NowPlaying;
use crate::protocol::SessionMetadata;
use crate::strutil::str_eq;
use crate::wire::{be_i64_of, read_be_i64};
use vstd::arithmetic::div_mod::lemma_mod_mod;
use vstd::slice::slice_subrange;

verus! {

/// Cap a mathematical value at `u64::MAX`, as saturating arithmetic does.
pub open spec fn cap_u64(x: int) -> int {
    if x > u64::MAX {
        u64::MAX as int
    } else {
        x
    }
}

/// Saturating addition on `u64`.
pub fn sat_add_u64(a: u64, b: u64) -> (r: u64)
    ensures
        r == cap_u64(a + b),
{
    match a.checked_add(b) {
        Some(v) => v,
        None => u64::MAX,
    }
}

/// Saturating multiplication on `u64`.
pub fn sat_mul_u64(a: u64, b: u64) -> (r: u64)
    ensures
        r == cap_u64(a * b),
{
    match a.checked_mul(b) {
        Some(v) => v,
        None => u64::MAX,
    }
}

/// The play time assigned to the next chunk: the cursor if one is set, else
/// now plus the warm-up delay (the first chunk of a segment).
pub open spec fn spec_play_at(cursor: Option<u64>, now_us: u64, delay_us: int) -> int {
    match cursor {
        Some(t) => t as int,
        None => cap_u64(now_us + delay_us),
    }
}

/// The format-defining fields of a stream-start message.
#[derive(Debug)]
pub struct StreamStartPlayer {
    pub codec: String,
    pub sample_rate: u32,
    pub channels: u8,
    pub bit_depth: u8,
}

/// The per-session state the steady-state loop owns.
pub struct SessionState {
    /// The configured player identity, echoed into snapshots.
    pub player_id: String,
    /// The configured player display name, echoed into snapshots.
    pub player_name: String,
    /// The active audio format, unset until a supported stream start.
    pub audio_format: Option<AudioFormat>,
    /// The bit depth the decoder was locked to, unset until the first chunk
    /// of a segment.
    pub decoder_depth: Option<u8>,
    /// Audio scheduled since the segment began, in microseconds, saturating.
    pub buffered_duration_us: u64,
    /// Whether the playback-started transition has fired for this segment.
    pub playback_started: bool,
    /// The play time the next chunk will get, unset before the first chunk.
    pub next_play_time_us: Option<u64>,
    /// The current clock offset estimate, in microseconds.
    pub clock_offset_us: i64,
    /// Chunks seen this segment, wrapping.
    pub chunk_count: u32,
    /// The warm-up delay before the first chunk plays, in milliseconds.
    pub start_buffer_ms: u64,
}

/// The warm-up delay absorbing network jitter before audio starts.
pub const START_BUFFER_MS: u64 = 500;

/// Whether a binary audio message can be decoded under the given format:
/// long enough for its header, a format set whose depth the decoder
/// supports, non-degenerate channel count and rate, and a payload that is a
/// whole number of frames.
pub open spec fn chunk_well_formed(fmt: Option<AudioFormat>, data: Seq<u8>) -> bool {
    &&& data.len() >= 9
    &&& fmt is Some
    &&& format_playable(fmt->0)
    &&& (data.len() - 9) % spec_frame_size(fmt->0) == 0
}

/// The payload bytes of a binary audio message.
pub open spec fn chunk_payload(data: Seq<u8>) -> Seq<u8> {
    data.subrange(9, data.len() as int)
}

/// The frames a payload of `payload_len` bytes holds, as the decoder counts
/// them: samples first, then frames.
pub open spec fn spec_chunk_frames(payload_len: int, fmt: AudioFormat) -> int {
    (payload_len / spec_bytes_per_sample(fmt.bit_depth)) / (fmt.channels as int)
}

/// The duration of a well-formed chunk's audio, in microseconds.
pub open spec fn spec_chunk_dur_us(data: Seq<u8>, fmt: AudioFormat) -> int {
    spec_chunk_duration_us(spec_chunk_frames(data.len() - 9, fmt), fmt.sample_rate)
}

/// The chunk counter after one more chunk, wrapping.
pub open spec fn next_chunk_count(c: u32) -> u32 {
    if c == u32::MAX {
        0
    } else {
        (c + 1) as u32
    }
}

/// Everything except the chunk counter is the same in both states.
pub open spec fn same_but_chunk_count(a: SessionState, b: SessionState) -> bool {
    &&& b.player_id == a.player_id
    &&& b.player_name == a.player_name
    &&& b.audio_format == a.audio_format
    &&& b.decoder_depth == a.decoder_depth
    &&& b.buffered_duration_us == a.buffered_duration_us
    &&& b.playback_started == a.playback_started
    &&& b.next_play_time_us == a.next_play_time_us
    &&& b.clock_offset_us == a.clock_offset_us
    &&& b.start_buffer_ms == a.start_buffer_ms
}

/// Seconds from a millisecond count reported by the server; a negative
/// count (protocol garbage) reads as zero.
pub open spec fn spec_ms_to_secs(ms: i64) -> u64 {
    if ms <= 0 {
        0
    } else {
        ((ms as int) / 1000) as u64
    }
}

/// Convert a millisecond count reported by the server to whole seconds.
pub fn ms_to_secs(ms: i64) -> (r: u64)
    ensures
        r == spec_ms_to_secs(ms),
{
    if ms <= 0 {
        0
    } else {
        (ms as u64) / 1000
    }
}

impl SessionState {
    /// Fresh session state for a configured player, before any stream.
    pub fn new(player_id: String, player_name: String) -> (s: SessionState)
        ensures
            s.player_id@ == player_id@,
            s.player_name@ == player_name@,
            s.audio_format is None,
            s.decoder_depth is None,
            s.buffered_duration_us == 0,
            !s.playback_started,
            s.next_play_time_us is None,
            s.clock_offset_us == 0,
            s.chunk_count == 0,
            s.start_buffer_ms == START_BUFFER_MS,
    {
        SessionState {
            player_id,
            player_name,
            audio_format: None,
            decoder_depth: None,
            buffered_duration_us: 0,
            playback_started: false,
            next_play_time_us: None,
            clock_offset_us: 0,
            chunk_count: 0,
            start_buffer_ms: START_BUFFER_MS,
        }
    }

    /// Handle a stream-start message. A supported (PCM) format is fixed for
    /// the new segment; an unsupported codec leaves the format unset so
    /// that the segment's audio is dropped. Either way the decoder and the
    /// buffered-duration counter of the previous segment are invalidated. A
    /// message without format fields is ignored.
    pub fn on_stream_start(&mut self, player: Option<StreamStartPlayer>)
        ensures
            final(self).player_id == old(self).player_id,
            final(self).player_name == old(self).player_name,
            final(self).clock_offset_us == old(self).clock_offset_us,
            final(self).start_buffer_ms == old(self).start_buffer_ms,
            player is None ==> same_but_chunk_count(*old(self), *final(self))
                && final(self).chunk_count == old(self).chunk_count,
            player matches Some(p) ==> {
                &&& p.codec@ == "pcm"@ ==> final(self).audio_format == Some(
                    (AudioFormat {
                        codec: Codec::Pcm,
                        sample_rate: p.sample_rate,
                        channels: p.channels,
                        bit_depth: p.bit_depth,
                    }),
                )
                &&& p.codec@ != "pcm"@ ==> final(self).audio_format is None
            },
            player is Some ==> final(self).decoder_depth is None
                && final(self).buffered_duration_us == 0 && !final(self).playback_started
                && final(self).next_play_time_us is None && final(self).chunk_count == 0,
    {
        match player {
            None => {},
            Some(p) => {
                let is_pcm = str_eq(p.codec.as_str(), "pcm");
                self.audio_format = if is_pcm {
                    Some(
                        AudioFormat {
                            codec: Codec::Pcm,
                            sample_rate: p.sample_rate,
                            channels: p.channels,
                            bit_depth: p.bit_depth,
                        },
                    )
                } else {
                    None
                };
                self.decoder_depth = None;
                self.buffered_duration_us = 0;
                self.playback_started = false;
                self.next_play_time_us = None;
                self.chunk_count = 0;
            },
        }
    }

    /// Handle a server-time reply: one clock-sync round trip, closed by the
    /// local receive time `now_us`. A sample within the timestamp bounds
    /// updates the current offset estimate; anything else is dropped.
    pub fn on_server_time(
        &mut self,
        client_transmitted: i64,
        server_received: i64,
        server_transmitted: i64,
        now_us: i64,
    )
        ensures
            ({
                let sample = ClockSample {
                    client_sent: client_transmitted,
                    server_received,
                    server_sent: server_transmitted,
                    client_received: now_us,
                };
                &&& sample_in_bounds(sample) ==> final(self).clock_offset_us == spec_offset(
                    sample,
                )
                &&& !sample_in_bounds(sample) ==> final(self).clock_offset_us == old(
                    self,
                ).clock_offset_us
            }),
            final(self).player_id == old(self).player_id,
            final(self).player_name == old(self).player_name,
            final(self).audio_format == old(self).audio_format,
            final(self).decoder_depth == old(self).decoder_depth,
            final(self).buffered_duration_us == old(self).buffered_duration_us,
            final(self).playback_started == old(self).playback_started,
            final(self).next_play_time_us == old(self).next_play_time_us,
            final(self).chunk_count == old(self).chunk_count,
            final(self).start_buffer_ms == old(self).start_buffer_ms,
    {
        let sample = ClockSample {
            client_sent: client_transmitted,
            server_received,
            server_sent: server_transmitted,
            client_received: now_us,
        };
        let in_bounds = -MAX_TIMESTAMP_MAGNITUDE <= sample.client_sent
            && sample.client_sent <= MAX_TIMESTAMP_MAGNITUDE
            && -MAX_TIMESTAMP_MAGNITUDE <= sample.server_received
            && sample.server_received <= MAX_TIMESTAMP_MAGNITUDE
            && -MAX_TIMESTAMP_MAGNITUDE <= sample.server_sent
            && sample.server_sent <= MAX_TIMESTAMP_MAGNITUDE
            && -MAX_TIMESTAMP_MAGNITUDE <= sample.client_received
            && sample.client_received <= MAX_TIMESTAMP_MAGNITUDE;
        if in_bounds {
            self.clock_offset_us = clock_offset(&sample);
        }
    }

    /// Handle a server-state message: merge the reported metadata with the
    /// locally tracked playing flag into a fresh snapshot. A message
    /// without metadata produces nothing.
    pub fn on_server_state(&mut self, metadata: Option<SessionMetadata>) -> (r: Option<
        NowPlaying,
    >)
        ensures
            same_but_chunk_count(*old(self), *final(self)),
            final(self).chunk_count == old(self).chunk_count,
            metadata is None ==> r is None,
            metadata matches Some(md) ==> r matches Some(np) && {
                &&& np@.is_playing == old(self).playback_started
                &&& np@.track == md@.title
                &&& np@.artist == md@.artist
                &&& np@.album == md@.album
                &&& np@.image_url == md@.artwork_url
                &&& np@.player_name == Some(old(self).player_name@)
                &&& np@.player_id == Some(old(self).player_id@)
                &&& np@.duration == (match md.progress {
                    Some(p) => Some(spec_ms_to_secs(p.track_duration)),
                    None => None::<u64>,
                })
                &&& np@.elapsed == (match md.progress {
                    Some(p) => Some(spec_ms_to_secs(p.track_progress)),
                    None => None::<u64>,
                })
                &&& np@.can_play == !old(self).playback_started
                &&& np@.can_pause == old(self).playback_started
                &&& np@.can_next
                &&& np@.can_previous
            },
    {
        match metadata {
            None => None,
            Some(md) => {
                let duration: Option<u64> = match &md.progress {
                    Some(p) => Some(ms_to_secs(p.track_duration)),
                    None => None,
                };
                let elapsed: Option<u64> = match &md.progress {
                    Some(p) => Some(ms_to_secs(p.track_progress)),
                    None => None,
                };
                Some(
                    NowPlaying {
                        is_playing: self.playback_started,
                        track: md.title,
                        artist: md.artist,
                        album: md.album,
                        image_url: md.artwork_url,
                        player_name: Some(self.player_name.clone()),
                        player_id: Some(self.player_id.clone()),
                        duration,
                        elapsed,
                        can_play: !self.playback_started,
                        can_pause: self.playback_started,
                        can_next: true,
                        can_previous: true,
                    },
                )
            },
        }
    }

    /// Handle a binary audio message. A malformed chunk — too short for its
    /// header, no (usable) format set, or a payload that is not a whole
    /// number of frames — is dropped without touching decoder or format
    /// state. A well-formed chunk is decoded, given the cursor's play time
    /// (or now plus the warm-up delay for the first chunk of the segment),
    /// and the cursor advances by the chunk's duration, so playback is
    /// scheduled gap-free. Crossing the warm-up threshold flips the
    /// playback-started flag and yields the "now playing" transition
    /// snapshot, exactly once per segment.
    pub fn on_audio_chunk(&mut self, data: &Vec<u8>, now_us: u64) -> (r: (
        Option<DecodedChunk>,
        Option<NowPlaying>,
    ))
        ensures
            final(self).chunk_count == (if data@.len() >= 9 {
                next_chunk_count(old(self).chunk_count)
            } else {
                old(self).chunk_count
            }),
            !chunk_well_formed(old(self).audio_format, data@) ==> r.0 is None && r.1 is None
                && same_but_chunk_count(*old(self), *final(self)),
            chunk_well_formed(old(self).audio_format, data@) ==> ({
                let fmt = old(self).audio_format->0;
                let delay_us = cap_u64(old(self).start_buffer_ms * 1000);
                let play_at = spec_play_at(old(self).next_play_time_us, now_us, delay_us);
                let dur = spec_chunk_dur_us(data@, fmt);
                &&& r.0 matches Some(chunk) && {
                    &&& chunk.source_timestamp == be_i64_of(data@, 1)
                    &&& chunk.format == fmt
                    &&& chunk.samples@.map_values(|s: i32| s as int) == spec_pcm_samples(
                        chunk_payload(data@),
                        fmt.bit_depth,
                    )
                    &&& chunk.play_at_us == play_at
                }
                &&& final(self).next_play_time_us matches Some(t) && t == cap_u64(play_at + dur)
                &&& final(self).buffered_duration_us == cap_u64(
                    old(self).buffered_duration_us + dur,
                )
                &&& ({
                    let started_now = final(self).buffered_duration_us >= delay_us;
                    final(self).playback_started == (old(self).playback_started || started_now)
                })
                &&& final(self).decoder_depth == (if old(self).decoder_depth is None {
                    Some(fmt.bit_depth)
                } else {
                    old(self).decoder_depth
                })
                &&& ({
                    let flipped = !old(self).playback_started && final(self).playback_started;
                    r.1 is Some <==> flipped
                })
                &&& r.1 matches Some(np) ==> {
                    &&& np@.is_playing
                    &&& np@.track is None
                    &&& np@.artist is None
                    &&& np@.album is None
                    &&& np@.image_url is None
                    &&& np@.player_name == Some(old(self).player_name@)
                    &&& np@.player_id == Some(old(self).player_id@)
                    &&& np@.duration is None
                    &&& np@.elapsed is None
                    &&& !np@.can_play
                    &&& np@.can_pause
                    &&& np@.can_next
                    &&& np@.can_previous
                }
                &&& final(self).audio_format == old(self).audio_format
                &&& final(self).clock_offset_us == old(self).clock_offset_us
                &&& final(self).player_id == old(self).player_id
                &&& final(self).player_name == old(self).player_name
                &&& final(self).start_buffer_ms == old(self).start_buffer_ms
            }),
    {
        if data.len() < 9 {
            return (None, None);
        }
        self.chunk_count = if self.chunk_count == u32::MAX {
            0
        } else {
            self.chunk_count + 1
        };
        let fmt: AudioFormat = match &self.audio_format {
            Some(f) => *f,
            None => {
                return (None, None);
            },
        };
        let bps: usize = match bytes_per_sample(fmt.bit_depth) {
            Some(b) => b,
            None => {
                return (None, None);
            },
        };
        if fmt.channels == 0 || fmt.sample_rate == 0 {
            return (None, None);
        }
        proof {
            assert(bps == 2 || bps == 3);
        }
        let frame_size: usize = bps * (fmt.channels as usize);
        let payload_len: usize = data.len() - 9;
        if payload_len % frame_size != 0 {
            return (None, None);
        }
        proof {
            lemma_mod_mod(payload_len as int, bps as int, fmt.channels as int);
        }
        let timestamp: i64 = read_be_i64(data.as_slice(), 1);
        if self.decoder_depth.is_none() {
            self.decoder_depth = Some(fmt.bit_depth);
        }
        let payload: &[u8] = slice_subrange(data.as_slice(), 9, data.len());
        let samples: Vec<i32> = decode_pcm(payload, fmt.bit_depth);
        let frames: usize = samples.len() / (fmt.channels as usize);
        let dur: u64 = chunk_duration_us(frames, fmt.sample_rate);
        let delay_us: u64 = sat_mul_u64(self.start_buffer_ms, 1000);
        let play_at: u64 = match self.next_play_time_us {
            Some(t) => t,
            None => sat_add_u64(now_us, delay_us),
        };
        self.next_play_time_us = Some(sat_add_u64(play_at, dur));
        self.buffered_duration_us = sat_add_u64(self.buffered_duration_us, dur);
        let mut transition: Option<NowPlaying> = None;
        if !self.playback_started && self.buffered_duration_us >= delay_us {
            self.playback_started = true;
            transition = Some(
                NowPlaying {
                    is_playing: true,
                    track: None,
                    artist: None,
                    album: None,
                    image_url: None,
                    player_name: Some(self.player_name.clone()),
                    player_id: Some(self.player_id.clone()),
                    duration: None,
                    elapsed: None,
                    can_play: false,
                    can_pause: true,
                    can_next: true,
                    can_previous: true,
                },
            );
        }
        let chunk = DecodedChunk {
            source_timestamp: timestamp,
            samples,
            format: fmt,
            play_at_us: play_at,
        };
        (Some(chunk), transition)
    }
}

/// The play time of chunk `k` of a segment whose first chunk is assigned
/// `first` and whose earlier chunks last `durs[0] .. durs[k-1]`
/// microseconds: each chunk starts where the one before it ends.
pub open spec fn play_time_at(durs: Seq<u64>, first: u64, k: int) -> int
    decreases k,
{
    if k <= 0 {
        first as int
    } else {
        cap_u64(play_time_at(durs, first, k - 1) + durs[k - 1])
    }
}

/// Every scheduled play time is a valid `u64` instant.
pub proof fn lemma_play_time_bounds(durs: Seq<u64>, first: u64, k: int)
    ensures
        0 <= play_time_at(durs, first, k) <= u64::MAX,
    decreases k,
{
    if k > 0 {
        lemma_play_time_bounds(durs, first, k - 1);
    }
}

/// Law: for any sequence of scheduled chunks, the assigned play times are
/// non-decreasing.
pub proof fn lemma_play_times_non_decreasing(durs: Seq<u64>, first: u64, i: int, j: int)
    requires
        0 <= i <= j,
    ensures
        play_time_at(durs, first, i) <= play_time_at(durs, first, j),
    decreases j - i,
{
    if i < j {
        lemma_play_times_non_decreasing(durs, first, i, j - 1);
        lemma_play_time_bounds(durs, first, j - 1);
    }
}

/// Law: a chunk never overlaps the one before it — its play time is at
/// least the previous play time plus the previous chunk's duration
/// (whenever that sum is still a representable instant).
pub proof fn lemma_play_times_gap_free(durs: Seq<u64>, first: u64, k: int)
    requires
        0 <= k,
        play_time_at(durs, first, k) + durs[k] <= u64::MAX,
    ensures
        play_time_at(durs, first, k + 1) >= play_time_at(durs, first, k) + durs[k],
{
}

/// Law, in the vocabulary of `on_audio_chunk`: from any cursor state, the
/// play time assigned to the next accepted chunk is never earlier than the
/// one assigned before it, and while the next instant is representable the
/// two chunks meet exactly — the second starts where the first ends.
pub proof fn lemma_chunk_scheduling_gap_free(
    cursor0: Option<u64>,
    now0: u64,
    now1: u64,
    dur0: u64,
    delay_us: int,
)
    requires
        0 <= delay_us,
    ensures
        ({
            let p0 = spec_play_at(cursor0, now0, delay_us);
            let c1 = cap_u64(p0 + dur0);
            let p1 = spec_play_at(Some(c1 as u64), now1, delay_us);
            &&& p1 >= p0
            &&& p0 + dur0 <= u64::MAX ==> p1 == p0 + dur0
        }),
{
}

} // verus!
