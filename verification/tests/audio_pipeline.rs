use sendspin_client::audio::{chunk_duration_us, AudioFormat, Codec};
use sendspin_client::clock::{clock_offset, clock_rtt, ClockSample};
use sendspin_client::decode::{bytes_per_sample, decode_pcm};
use sendspin_client::output::{needs_rebuild, sync_delay_sleep_ms, OutputQueue};
use sendspin_client::scheduler::PlaybackScheduler;
use sendspin_client::session::{sat_add_u64, sat_mul_u64, SessionState};
use sendspin_client::wire::read_be_i64;

fn pcm_format() -> AudioFormat {
    AudioFormat { codec: Codec::Pcm, sample_rate: 48000, channels: 2, bit_depth: 16 }
}

fn chunk(play_at_us: u64, samples: Vec<i32>) -> sendspin_client::audio::DecodedChunk {
    sendspin_client::audio::DecodedChunk {
        source_timestamp: 0,
        samples,
        format: pcm_format(),
        play_at_us,
    }
}

#[test]
fn clock_round_trip_formulas() {
    let sample = ClockSample {
        client_sent: 100,
        server_received: 150,
        server_sent: 160,
        client_received: 220,
    };
    assert_eq!(clock_offset(&sample), -5);
    assert_eq!(clock_rtt(&sample), 110);
}

#[test]
fn clock_offset_truncates_toward_zero() {
    let sample = ClockSample {
        client_sent: 0,
        server_received: 0,
        server_sent: 0,
        client_received: 3,
    };
    // ((0 - 0) + (0 - 3)) / 2 = -3 / 2, truncated toward zero
    assert_eq!(clock_offset(&sample), -1);
    assert_eq!(clock_rtt(&sample), 3);
}

#[test]
fn big_endian_timestamp_parsing() {
    let mut data = vec![4u8; 1];
    data.extend_from_slice(&[0, 0, 0, 0, 0, 0, 0, 1]);
    assert_eq!(read_be_i64(&data, 1), 1);

    let all_ones = [0xFFu8; 8];
    assert_eq!(read_be_i64(&all_ones, 0), -1);

    let min = [0x80u8, 0, 0, 0, 0, 0, 0, 0];
    assert_eq!(read_be_i64(&min, 0), i64::MIN);

    let max = [0x7Fu8, 0xFF, 0xFF, 0xFF, 0xFF, 0xFF, 0xFF, 0xFF];
    assert_eq!(read_be_i64(&max, 0), i64::MAX);
}

#[test]
fn bytes_per_sample_supported_depths() {
    assert_eq!(bytes_per_sample(16), Some(2));
    assert_eq!(bytes_per_sample(24), Some(3));
    assert_eq!(bytes_per_sample(20), None);
    assert_eq!(bytes_per_sample(8), None);
}

#[test]
fn decode_pcm_16_bit_scales_to_24_bit_range() {
    let data = [0x01, 0x00, 0xFF, 0xFF, 0x00, 0x80, 0xFF, 0x7F];
    let samples = decode_pcm(&data, 16);
    assert_eq!(samples, vec![256, -256, -32768 * 256, 32767 * 256]);
}

#[test]
fn decode_pcm_24_bit_is_taken_as_is() {
    let data = [0x01, 0x00, 0x00, 0xFF, 0xFF, 0xFF, 0x00, 0x00, 0x80, 0xFF, 0xFF, 0x7F];
    let samples = decode_pcm(&data, 24);
    assert_eq!(samples, vec![1, -1, -8388608, 8388607]);
}

#[test]
fn chunk_duration_follows_frames_and_rate() {
    // 9600 frames at 48 kHz last 200 ms
    assert_eq!(chunk_duration_us(9600, 48000), 200_000);
    assert_eq!(chunk_duration_us(0, 44100), 0);
    assert_eq!(chunk_duration_us(44100, 44100), 1_000_000);
}

#[test]
fn scheduler_orders_by_play_time() {
    let mut scheduler = PlaybackScheduler::new();
    scheduler.submit(chunk(200, vec![2]));
    scheduler.submit(chunk(100, vec![1]));
    scheduler.submit(chunk(300, vec![3]));
    assert_eq!(scheduler.len(), 3);

    // nothing is due before the earliest play time
    assert!(scheduler.next_ready(50).is_none());
    assert_eq!(scheduler.len(), 3);

    // the earliest due chunk comes out first, regardless of submission order
    let first = scheduler.next_ready(150).expect("chunk at 100 is due");
    assert_eq!(first.play_at_us, 100);
    assert_eq!(first.samples, vec![1]);

    assert!(scheduler.next_ready(150).is_none());
    let second = scheduler.next_ready(1000).expect("chunk at 200 is due");
    assert_eq!(second.play_at_us, 200);
    let third = scheduler.next_ready(1000).expect("chunk at 300 is due");
    assert_eq!(third.play_at_us, 300);
    assert!(scheduler.next_ready(1000).is_none());
}

#[test]
fn empty_output_queue_fills_with_silence() {
    let mut queue = OutputQueue::new();
    let out = queue.fill(8);
    assert_eq!(out, vec![0; 8]);
    assert!(queue.is_empty());
}

#[test]
fn output_queue_drains_in_order_then_pads_silence() {
    let mut queue = OutputQueue::new();
    queue.push_chunk(vec![1, 2, 3]);
    queue.push_chunk(vec![4, 5]);
    assert!(!queue.is_empty());

    let first = queue.fill(2);
    assert_eq!(first, vec![1, 2]);

    let rest = queue.fill(6);
    assert_eq!(rest, vec![3, 4, 5, 0, 0, 0]);
    assert!(queue.is_empty());
}

#[test]
fn output_stream_rebuild_decision() {
    let fmt = pcm_format();
    assert!(needs_rebuild(&None, &fmt));
    assert!(!needs_rebuild(&Some(fmt), &fmt));
    let other = AudioFormat { sample_rate: 44100, ..fmt };
    assert!(needs_rebuild(&Some(other), &fmt));
}

#[test]
fn sync_delay_only_positive_waits() {
    assert_eq!(sync_delay_sleep_ms(250), 250);
    assert_eq!(sync_delay_sleep_ms(0), 0);
    assert_eq!(sync_delay_sleep_ms(-100), 0);
}

/// 1 type byte, a big-endian source timestamp, then `frames` frames of
/// silent 16-bit stereo PCM.
fn binary_chunk(timestamp: i64, frames: usize) -> Vec<u8> {
    let mut data = vec![4u8];
    data.extend_from_slice(&timestamp.to_be_bytes());
    data.extend(std::iter::repeat(0u8).take(frames * 4));
    data
}

#[test]
fn playback_starts_once_after_buffer_threshold() {
    let mut session = SessionState::new("player-1".to_string(), "Den".to_string());
    session.on_stream_start(Some(sendspin_client::session::StreamStartPlayer {
        codec: "pcm".to_string(),
        sample_rate: 48000,
        channels: 2,
        bit_depth: 16,
    }));
    assert_eq!(session.audio_format, Some(pcm_format()));

    let now = 1_000_000u64;

    // three chunks of 200 ms each; the third crosses the 500 ms warm-up
    let (c1, np1) = session.on_audio_chunk(&binary_chunk(7, 9600), now);
    let c1 = c1.expect("well-formed chunk decodes");
    assert_eq!(c1.source_timestamp, 7);
    assert_eq!(c1.samples.len(), 19200);
    assert_eq!(c1.play_at_us, 1_500_000);
    assert!(np1.is_none());
    assert!(!session.playback_started);

    let (c2, np2) = session.on_audio_chunk(&binary_chunk(8, 9600), now + 1);
    let c2 = c2.expect("well-formed chunk decodes");
    assert_eq!(c2.play_at_us, 1_700_000);
    assert!(np2.is_none());

    let (c3, np3) = session.on_audio_chunk(&binary_chunk(9, 9600), now + 2);
    let c3 = c3.expect("well-formed chunk decodes");
    assert_eq!(c3.play_at_us, 1_900_000);
    assert_eq!(session.buffered_duration_us, 600_000);
    assert!(session.playback_started);
    let np3 = np3.expect("the playback-started transition fires");
    assert!(np3.is_playing);
    assert!(np3.can_pause);
    assert!(!np3.can_play);
    assert_eq!(np3.player_name.as_deref(), Some("Den"));
    assert_eq!(np3.player_id.as_deref(), Some("player-1"));

    // the transition fires exactly once per segment
    let (c4, np4) = session.on_audio_chunk(&binary_chunk(10, 9600), now + 3);
    assert!(c4.is_some());
    assert!(np4.is_none());

    // play times are gap-free: each chunk starts where the previous ends
    assert_eq!(c4.unwrap().play_at_us, 2_100_000);
}

#[test]
fn malformed_chunks_leave_state_untouched() {
    let mut session = SessionState::new("p".to_string(), "n".to_string());
    session.on_stream_start(Some(sendspin_client::session::StreamStartPlayer {
        codec: "pcm".to_string(),
        sample_rate: 48000,
        channels: 2,
        bit_depth: 16,
    }));

    // shorter than the 9-byte header
    let (decoded, transition) = session.on_audio_chunk(&vec![4u8; 8], 1_000);
    assert!(decoded.is_none());
    assert!(transition.is_none());
    assert_eq!(session.chunk_count, 0);

    // payload is not a whole number of frames (frame size is 4)
    let mut bad = vec![4u8];
    bad.extend_from_slice(&[0u8; 8]);
    bad.extend_from_slice(&[1, 2, 3]);
    let (decoded, transition) = session.on_audio_chunk(&bad, 1_000);
    assert!(decoded.is_none());
    assert!(transition.is_none());
    assert_eq!(session.audio_format, Some(pcm_format()));
    assert_eq!(session.decoder_depth, None);
    assert_eq!(session.buffered_duration_us, 0);
    assert_eq!(session.next_play_time_us, None);
    assert!(!session.playback_started);
    assert_eq!(session.chunk_count, 1);

    // without a format set, even a well-shaped chunk is dropped
    let mut no_format = SessionState::new("p".to_string(), "n".to_string());
    let (decoded, _) = no_format.on_audio_chunk(&binary_chunk(1, 4), 1_000);
    assert!(decoded.is_none());
}

#[test]
fn unsupported_codec_unsets_format_and_resets_segment() {
    let mut session = SessionState::new("p".to_string(), "n".to_string());
    session.on_stream_start(Some(sendspin_client::session::StreamStartPlayer {
        codec: "pcm".to_string(),
        sample_rate: 48000,
        channels: 2,
        bit_depth: 16,
    }));
    let _ = session.on_audio_chunk(&binary_chunk(1, 9600), 0);
    assert!(session.buffered_duration_us > 0);

    session.on_stream_start(Some(sendspin_client::session::StreamStartPlayer {
        codec: "flac".to_string(),
        sample_rate: 48000,
        channels: 2,
        bit_depth: 16,
    }));
    assert_eq!(session.audio_format, None);
    assert_eq!(session.buffered_duration_us, 0);
    assert_eq!(session.next_play_time_us, None);
    assert!(!session.playback_started);

    // subsequent audio is dropped while the format is unset
    let (decoded, _) = session.on_audio_chunk(&binary_chunk(2, 9600), 0);
    assert!(decoded.is_none());
}

#[test]
fn empty_payload_chunk_is_well_formed_but_adds_nothing() {
    let mut session = SessionState::new("p".to_string(), "n".to_string());
    session.on_stream_start(Some(sendspin_client::session::StreamStartPlayer {
        codec: "pcm".to_string(),
        sample_rate: 48000,
        channels: 2,
        bit_depth: 16,
    }));
    // exactly the 9-byte header: zero frames of audio
    let (chunk, transition) = session.on_audio_chunk(&binary_chunk(3, 0), 1_000_000);
    let chunk = chunk.expect("a zero-frame chunk still decodes");
    assert_eq!(chunk.samples.len(), 0);
    assert_eq!(chunk.play_at_us, 1_500_000);
    assert_eq!(session.buffered_duration_us, 0);
    assert!(transition.is_none());
    assert!(!session.playback_started);
}

#[test]
fn scheduler_keeps_submission_order_for_equal_play_times() {
    let mut scheduler = PlaybackScheduler::new();
    scheduler.submit(chunk(100, vec![1]));
    scheduler.submit(chunk(100, vec![2]));
    let first = scheduler.next_ready(100).unwrap();
    let second = scheduler.next_ready(100).unwrap();
    assert_eq!(first.samples, vec![1]);
    assert_eq!(second.samples, vec![2]);
}

#[test]
fn saturating_helpers_cap_at_the_maximum() {
    assert_eq!(sat_add_u64(1, 2), 3);
    assert_eq!(sat_add_u64(u64::MAX, 1), u64::MAX);
    assert_eq!(sat_mul_u64(500, 1000), 500_000);
    assert_eq!(sat_mul_u64(u64::MAX, 2), u64::MAX);
}

#[test]
fn server_time_updates_clock_offset() {
    let mut session = SessionState::new("p".to_string(), "n".to_string());
    session.on_server_time(100, 150, 160, 220);
    assert_eq!(session.clock_offset_us, -5);
}
