//! Core of a network-synchronized audio playback client.
//!
//! The library owns the protocol, timing and buffering logic of the client:
//! decoding the binary PCM wire format, negotiating the audio format of a
//! stream segment, estimating the clock offset to the server, scheduling
//! decoded chunks for gap-free playback, draining scheduled audio into a
//! real-time output callback, and the session lifecycle (handshake, steady
//! state, commands, shutdown). Transport I/O, JSON framing and the audio
//! device itself live outside the library and feed it plain values.

pub mod audio;
pub mod client;
pub mod clock;
pub mod decode;
pub mod devices;
pub mod discovery;
pub mod handshake;
pub mod now_playing;
pub mod output;
pub mod protocol;
pub mod scheduler;
pub mod session;
pub mod settings;
pub mod strutil;
pub mod wire;
