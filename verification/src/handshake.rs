//! The session handshake: authenticate, introduce the client, and wait for
//! the server's greeting.
//!
//! The transport loop performs the waiting and hands each outcome (a frame,
//! an error, a closure, a timeout) to the state machine here, which decides
//! the next phase. After the authentication reply, up to three messages or
//! timeouts are tolerated while waiting for the server greeting; if none of
//! them is the greeting, the session proceeds anyway — a deliberate lenient
//! fallback, treated as soft success.

use vstd::prelude::*;
use vstd::string::{StringExecFns, StringSliceAdditionalSpecFns};
use crate::strutil::{concat2, contains_bytes, contains_seq};

verus! {

/// How many messages or timeouts are tolerated while waiting for the
/// server's greeting before the client proceeds anyway.
pub const SERVER_HELLO_ATTEMPTS: u8 = 3;

/// Where the handshake stands.
#[derive(Debug)]
pub enum HandshakePhase {
    /// The auth message went out; any reply at all is awaited.
    AwaitAuthReply,
    /// The client hello went out; the server greeting is awaited, with
    /// `seen` messages or timeouts consumed so far.
    AwaitServerHello { seen: u8 },
    /// The handshake is done; the session is treated as connected.
    Established,
    /// The handshake failed; the session ends with the reason given.
    Failed(String),
}

/// The ghost value of a phase: a failure by its reason's characters.
pub ghost enum HandshakePhaseView {
    AwaitAuthReply,
    AwaitServerHello { seen: u8 },
    Established,
    Failed(Seq<char>),
}

impl View for HandshakePhase {
    type V = HandshakePhaseView;

    open spec fn view(&self) -> HandshakePhaseView {
        match self {
            HandshakePhase::AwaitAuthReply => HandshakePhaseView::AwaitAuthReply,
            HandshakePhase::AwaitServerHello { seen } => HandshakePhaseView::AwaitServerHello {
                seen: *seen,
            },
            HandshakePhase::Established => HandshakePhaseView::Established,
            HandshakePhase::Failed(reason) => HandshakePhaseView::Failed(reason@),
        }
    }
}

/// One outcome of waiting on the transport during the handshake.
#[derive(Debug)]
pub enum HandshakeEvent {
    /// A text frame arrived.
    TextFrame(String),
    /// A non-text frame arrived.
    OtherFrame,
    /// The transport reported an error.
    FrameError(String),
    /// The transport closed.
    Closed,
    /// The wait timed out.
    TimedOut,
}

/// Whether a text frame is the server's greeting, judged on the frame's
/// UTF-8 bytes.
pub open spec fn spec_is_server_hello(t: Seq<char>) -> bool {
    ||| contains_seq(vstd::utf8::encode_utf8(t), "server/hello".spec_bytes())
    ||| contains_seq(vstd::utf8::encode_utf8(t), "server_hello".spec_bytes())
}

/// Decide whether a text frame is the server's greeting.
pub fn is_server_hello_text(t: &str) -> (r: bool)
    ensures
        r == spec_is_server_hello(t@),
{
    contains_bytes(t.as_bytes(), "server/hello".as_bytes()) || contains_bytes(
        t.as_bytes(),
        "server_hello".as_bytes(),
    )
}

/// Advance the handshake by one transport outcome. The transition table:
/// awaiting the auth reply, any frame moves on to awaiting the greeting,
/// while an error, a closure or a timeout fails the handshake; awaiting the
/// greeting, the greeting establishes the session, an error or a closure
/// fails it, and any other message or a timeout is tolerated until the
/// attempt budget is spent, after which the session is established anyway.
/// The two final phases absorb every further event.
pub fn handshake_step(phase: HandshakePhase, event: HandshakeEvent) -> (next: HandshakePhase)
    ensures
        phase@ is AwaitAuthReply ==> match event {
            HandshakeEvent::TextFrame(_) | HandshakeEvent::OtherFrame => next@
                == HandshakePhaseView::AwaitServerHello { seen: 0 },
            HandshakeEvent::FrameError(_) => next@ is Failed,
            HandshakeEvent::Closed => next@ is Failed,
            HandshakeEvent::TimedOut => next@ is Failed,
        },
        phase@ matches HandshakePhaseView::AwaitServerHello { seen } ==> match event {
            HandshakeEvent::TextFrame(t) => {
                &&& spec_is_server_hello(t@) ==> next@ is Established
                &&& !spec_is_server_hello(t@) ==> (if seen + 1 >= SERVER_HELLO_ATTEMPTS {
                    next@ is Established
                } else {
                    next@ == (HandshakePhaseView::AwaitServerHello { seen: (seen + 1) as u8 })
                })
            },
            HandshakeEvent::OtherFrame | HandshakeEvent::TimedOut => (if seen + 1
                >= SERVER_HELLO_ATTEMPTS {
                next@ is Established
            } else {
                next@ == (HandshakePhaseView::AwaitServerHello { seen: (seen + 1) as u8 })
            }),
            HandshakeEvent::FrameError(_) => next@ is Failed,
            HandshakeEvent::Closed => next@ is Failed,
        },
        phase@ is Established ==> next@ is Established,
        phase@ matches HandshakePhaseView::Failed(reason) ==> next@
            == HandshakePhaseView::Failed(reason),
{
    match phase {
        HandshakePhase::AwaitAuthReply => match event {
            HandshakeEvent::TextFrame(_) | HandshakeEvent::OtherFrame => {
                HandshakePhase::AwaitServerHello { seen: 0 }
            },
            HandshakeEvent::FrameError(e) => HandshakePhase::Failed(
                concat2("Auth response error: ", e.as_str()),
            ),
            HandshakeEvent::Closed => HandshakePhase::Failed(
                String::from_str("Connection closed during auth"),
            ),
            HandshakeEvent::TimedOut => HandshakePhase::Failed(String::from_str("Auth timeout")),
        },
        HandshakePhase::AwaitServerHello { seen } => match event {
            HandshakeEvent::TextFrame(t) => {
                if is_server_hello_text(t.as_str()) {
                    HandshakePhase::Established
                } else if seen >= SERVER_HELLO_ATTEMPTS - 1 {
                    HandshakePhase::Established
                } else {
                    HandshakePhase::AwaitServerHello { seen: seen + 1 }
                }
            },
            HandshakeEvent::OtherFrame | HandshakeEvent::TimedOut => {
                if seen >= SERVER_HELLO_ATTEMPTS - 1 {
                    HandshakePhase::Established
                } else {
                    HandshakePhase::AwaitServerHello { seen: seen + 1 }
                }
            },
            HandshakeEvent::FrameError(e) => HandshakePhase::Failed(
                concat2("Server message error: ", e.as_str()),
            ),
            HandshakeEvent::Closed => HandshakePhase::Failed(
                String::from_str("Connection closed while waiting for ServerHello"),
            ),
        },
        HandshakePhase::Established => HandshakePhase::Established,
        HandshakePhase::Failed(reason) => HandshakePhase::Failed(reason),
    }
}

/// A format the client advertises it can play.
#[derive(Debug)]
pub struct AudioFormatSpecData {
    pub codec: String,
    pub channels: u8,
    pub sample_rate: u32,
    pub bit_depth: u8,
}

/// The authentication message sent before anything else.
#[derive(Debug)]
pub struct AuthMessageData {
    pub msg_type: String,
    pub token: String,
    pub client_id: String,
}

/// Build the authentication message for the configured credential and
/// identity.
pub fn auth_message(token: String, client_id: String) -> (r: AuthMessageData)
    ensures
        r.msg_type@ == "auth"@,
        r.token@ == token@,
        r.client_id@ == client_id@,
{
    AuthMessageData { msg_type: String::from_str("auth"), token, client_id }
}

/// What the client declares about itself in its hello: identity, name, the
/// roles it wants, the formats it can play, its buffer capacity, and the
/// player commands it accepts.
#[derive(Debug)]
pub struct ClientHelloData {
    pub client_id: String,
    pub name: String,
    pub version: u32,
    pub supported_roles: Vec<String>,
    pub manufacturer: String,
    pub software_version: String,
    pub supported_formats: Vec<AudioFormatSpecData>,
    pub buffer_capacity: u32,
    pub supported_commands: Vec<String>,
}

/// Samples of buffer capacity the client advertises: ten seconds at 48 kHz,
/// to ease server-side scheduling pressure.
pub const ADVERTISED_BUFFER_CAPACITY: u32 = 480000;

/// Build the client hello: player, controller and metadata roles, the three
/// advertised PCM formats, and the volume and mute player commands.
pub fn default_client_hello(client_id: String, name: String, software_version: String) -> (r:
    ClientHelloData)
    ensures
        r.client_id@ == client_id@,
        r.name@ == name@,
        r.version == 1,
        r.supported_roles@.len() == 3,
        r.supported_roles@[0]@ == "player@v1"@,
        r.supported_roles@[1]@ == "controller@v1"@,
        r.supported_roles@[2]@ == "metadata@v1"@,
        r.manufacturer@ == "Music Assistant"@,
        r.software_version@ == software_version@,
        r.supported_formats@.len() == 3,
        r.supported_formats@[0].codec@ == "pcm"@ && r.supported_formats@[0].channels == 2
            && r.supported_formats@[0].sample_rate == 44100 && r.supported_formats@[0].bit_depth
            == 16,
        r.supported_formats@[1].codec@ == "pcm"@ && r.supported_formats@[1].channels == 2
            && r.supported_formats@[1].sample_rate == 48000 && r.supported_formats@[1].bit_depth
            == 24,
        r.supported_formats@[2].codec@ == "pcm"@ && r.supported_formats@[2].channels == 2
            && r.supported_formats@[2].sample_rate == 96000 && r.supported_formats@[2].bit_depth
            == 24,
        r.buffer_capacity == ADVERTISED_BUFFER_CAPACITY,
        r.supported_commands@.len() == 2,
        r.supported_commands@[0]@ == "volume"@,
        r.supported_commands@[1]@ == "mute"@,
{
    let mut supported_roles: Vec<String> = Vec::new();
    supported_roles.push(String::from_str("player@v1"));
    supported_roles.push(String::from_str("controller@v1"));
    supported_roles.push(String::from_str("metadata@v1"));
    let mut supported_formats: Vec<AudioFormatSpecData> = Vec::new();
    supported_formats.push(
        AudioFormatSpecData {
            codec: String::from_str("pcm"),
            channels: 2,
            sample_rate: 44100,
            bit_depth: 16,
        },
    );
    supported_formats.push(
        AudioFormatSpecData {
            codec: String::from_str("pcm"),
            channels: 2,
            sample_rate: 48000,
            bit_depth: 24,
        },
    );
    supported_formats.push(
        AudioFormatSpecData {
            codec: String::from_str("pcm"),
            channels: 2,
            sample_rate: 96000,
            bit_depth: 24,
        },
    );
    let mut supported_commands: Vec<String> = Vec::new();
    supported_commands.push(String::from_str("volume"));
    supported_commands.push(String::from_str("mute"));
    ClientHelloData {
        client_id,
        name,
        version: 1,
        supported_roles,
        manufacturer: String::from_str("Music Assistant"),
        software_version,
        supported_formats,
        buffer_capacity: ADVERTISED_BUFFER_CAPACITY,
        supported_commands,
    }
}

} // verus!
