//! Control-plane message types multiplexed onto the session connection.
//!
//! Outbound: playback commands wrapped as controller-role command messages.
//! Inbound: server state (track metadata) and group updates. The transport
//! and the JSON framing live outside the library; these types carry the
//! fields the client reads and writes.

use vstd::prelude::*;
use vstd::string::StringExecFns;
use crate::strutil::opt_view;

verus! {

/// Media commands that can be sent to control playback.
#[derive(Debug, Clone, Copy, PartialEq, Eq, Structural)]
pub enum MediaCommand {
    Play,
    Pause,
    Stop,
    Next,
    Previous,
    Volume,
    Mute,
}

/// Controller command payload.
#[derive(Debug, Clone, Copy, PartialEq, Eq, Structural)]
pub struct ControllerCommandPayload {
    pub command: MediaCommand,
    pub volume: Option<u8>,
    pub mute: Option<bool>,
}

/// Client command message payload.
#[derive(Debug, Clone, Copy, PartialEq, Eq, Structural)]
pub struct ClientCommandPayload {
    pub controller: Option<ControllerCommandPayload>,
}

/// A command message as the client sends it.
#[derive(Debug, Clone)]
pub struct ClientCommandMessage {
    pub msg_type: String,
    pub payload: ClientCommandPayload,
}

impl ClientCommandMessage {
    /// Wrap a plain media command for the controller role.
    pub fn new(command: MediaCommand) -> (r: Self)
        ensures
            r.msg_type@ == "client/command"@,
            r.payload.controller == Some(
                ControllerCommandPayload { command, volume: None, mute: None },
            ),
    {
        ClientCommandMessage {
            msg_type: String::from_str("client/command"),
            payload: ClientCommandPayload {
                controller: Some(
                    ControllerCommandPayload { command, volume: None, mute: None },
                ),
            },
        }
    }

    /// A volume command carrying the level to set.
    pub fn volume(level: u8) -> (r: Self)
        ensures
            r.msg_type@ == "client/command"@,
            r.payload.controller == Some(
                ControllerCommandPayload {
                    command: MediaCommand::Volume,
                    volume: Some(level),
                    mute: None,
                },
            ),
    {
        ClientCommandMessage {
            msg_type: String::from_str("client/command"),
            payload: ClientCommandPayload {
                controller: Some(
                    ControllerCommandPayload {
                        command: MediaCommand::Volume,
                        volume: Some(level),
                        mute: None,
                    },
                ),
            },
        }
    }

    /// A mute command carrying the muted flag to set.
    pub fn mute(muted: bool) -> (r: Self)
        ensures
            r.msg_type@ == "client/command"@,
            r.payload.controller == Some(
                ControllerCommandPayload {
                    command: MediaCommand::Mute,
                    volume: None,
                    mute: Some(muted),
                },
            ),
    {
        ClientCommandMessage {
            msg_type: String::from_str("client/command"),
            payload: ClientCommandPayload {
                controller: Some(
                    ControllerCommandPayload {
                        command: MediaCommand::Mute,
                        volume: None,
                        mute: Some(muted),
                    },
                ),
            },
        }
    }
}

/// Track progress as the server reports it.
#[derive(Debug, Clone, Copy, PartialEq, Eq, Structural, Default)]
pub struct Progress {
    /// Track progress in milliseconds.
    pub track_progress: i64,
    /// Track duration in milliseconds (0 for unknown or live).
    pub track_duration: i64,
    /// Playback speed times 1000 (1000 is normal, 0 is paused).
    pub playback_speed: i32,
}

/// Track metadata carried by a server state message.
#[derive(Debug, Default)]
pub struct SessionMetadata {
    /// Server timestamp in microseconds.
    pub timestamp: i64,
    pub title: Option<String>,
    pub artist: Option<String>,
    pub album_artist: Option<String>,
    pub album: Option<String>,
    pub artwork_url: Option<String>,
    pub year: Option<i32>,
    pub track: Option<i32>,
    pub progress: Option<Progress>,
    pub repeat: Option<String>,
    pub shuffle: Option<bool>,
}

/// The ghost value of a metadata record: every string by its characters.
pub ghost struct SessionMetadataView {
    pub timestamp: i64,
    pub title: Option<Seq<char>>,
    pub artist: Option<Seq<char>>,
    pub album_artist: Option<Seq<char>>,
    pub album: Option<Seq<char>>,
    pub artwork_url: Option<Seq<char>>,
    pub year: Option<i32>,
    pub track: Option<i32>,
    pub progress: Option<Progress>,
    pub repeat: Option<Seq<char>>,
    pub shuffle: Option<bool>,
}

impl View for SessionMetadata {
    type V = SessionMetadataView;

    open spec fn view(&self) -> SessionMetadataView {
        SessionMetadataView {
            timestamp: self.timestamp,
            title: opt_view(self.title),
            artist: opt_view(self.artist),
            album_artist: opt_view(self.album_artist),
            album: opt_view(self.album),
            artwork_url: opt_view(self.artwork_url),
            year: self.year,
            track: self.track,
            progress: self.progress,
            repeat: opt_view(self.repeat),
            shuffle: self.shuffle,
        }
    }
}

/// Server state message payload.
#[derive(Debug, Default)]
pub struct ServerStatePayload {
    pub metadata: Option<SessionMetadata>,
}

/// A server state message as the server sends it.
#[derive(Debug)]
pub struct ServerStateMessage {
    pub msg_type: String,
    pub payload: ServerStatePayload,
}

/// Group update payload.
#[derive(Debug, Default)]
pub struct GroupUpdatePayload {
    pub name: Option<String>,
    pub state: Option<String>,
}

/// A group update message as the server sends it.
#[derive(Debug)]
pub struct GroupUpdateMessage {
    pub msg_type: String,
    pub payload: GroupUpdatePayload,
}

} // verus!
