use sendspin_client::client::{ClientManager, ConnectionStatus, SendspinConfig};
use sendspin_client::handshake::{
    auth_message, default_client_hello, handshake_step, is_server_hello_text, HandshakeEvent,
    HandshakePhase,
};

fn config(player_id: &str) -> SendspinConfig {
    SendspinConfig {
        player_id: player_id.to_string(),
        player_name: "Living Room".to_string(),
        server_url: "ws://example.invalid:8095/sendspin".to_string(),
        audio_device_id: None,
        sync_delay_ms: 0,
        auth_token: "token".to_string(),
    }
}

#[test]
fn command_rejected_while_disconnected() {
    let mut manager = ClientManager::new();
    let result = manager.send_command("volume");
    assert!(result.is_err());
    assert!(matches!(manager.get_status(), ConnectionStatus::Disconnected));
    // no outbound message was produced
    assert!(manager.commands.is_none());
}

#[test]
fn commands_flow_only_while_a_session_is_active() {
    let mut manager = ClientManager::new();
    let id = manager.start(config("p1")).expect("start hands back the player id");
    assert_eq!(id, "p1");
    assert!(manager.is_enabled());

    manager.send_command("play").expect("accepted while active");
    manager.send_command("pause").expect("accepted while active");
    assert_eq!(manager.commands.as_ref().map(|q| q.len()), Some(2));

    manager.stop();
    assert!(!manager.is_enabled());
    assert!(manager.send_command("next").is_err());
    assert!(manager.commands.is_none());
}

#[test]
fn drained_commands_keep_their_order() {
    let mut manager = ClientManager::new();
    manager.start(config("p1")).unwrap();
    manager.send_command("play").unwrap();
    manager.send_command("volume").unwrap();
    let drained = manager.drain_commands();
    assert_eq!(drained, vec!["play", "volume"]);
    assert_eq!(manager.commands.as_ref().map(|q| q.len()), Some(0));
    // a drained queue accepts more
    manager.send_command("pause").unwrap();
    assert_eq!(manager.drain_commands(), vec!["pause"]);
}

#[test]
fn command_queue_is_bounded() {
    let mut manager = ClientManager::new();
    manager.start(config("p1")).unwrap();
    for _ in 0..32 {
        manager.send_command("play").expect("room in the queue");
    }
    assert!(manager.send_command("play").is_err());
    assert_eq!(manager.commands.as_ref().map(|q| q.len()), Some(32));
}

#[test]
fn start_stops_the_prior_session_first() {
    let mut manager = ClientManager::new();
    manager.start(config("first")).unwrap();
    manager.update_status(ConnectionStatus::Connected);
    assert!(matches!(manager.get_status(), ConnectionStatus::Connected));
    manager.send_command("play").unwrap();

    let id = manager.start(config("second")).unwrap();
    assert_eq!(id, "second");
    // the prior session is gone: one handle, still connecting, fresh queue
    assert_eq!(manager.get_player_id().as_deref(), Some("second"));
    assert!(matches!(manager.get_status(), ConnectionStatus::Connecting));
    assert_eq!(manager.commands.as_ref().map(|q| q.len()), Some(0));
}

#[test]
fn status_queries_without_a_session() {
    let manager = ClientManager::new();
    assert!(matches!(manager.get_status(), ConnectionStatus::Disconnected));
    assert!(manager.get_player_id().is_none());
    assert!(!manager.is_enabled());
}

#[test]
fn handshake_auth_reply_tolerates_any_frame() {
    let next = handshake_step(HandshakePhase::AwaitAuthReply, HandshakeEvent::OtherFrame);
    assert!(matches!(next, HandshakePhase::AwaitServerHello { seen: 0 }));

    let next = handshake_step(
        HandshakePhase::AwaitAuthReply,
        HandshakeEvent::TextFrame("{\"ok\":true}".to_string()),
    );
    assert!(matches!(next, HandshakePhase::AwaitServerHello { seen: 0 }));
}

#[test]
fn handshake_auth_failures_are_fatal() {
    assert!(matches!(
        handshake_step(HandshakePhase::AwaitAuthReply, HandshakeEvent::TimedOut),
        HandshakePhase::Failed(_)
    ));
    assert!(matches!(
        handshake_step(HandshakePhase::AwaitAuthReply, HandshakeEvent::Closed),
        HandshakePhase::Failed(_)
    ));
    assert!(matches!(
        handshake_step(
            HandshakePhase::AwaitAuthReply,
            HandshakeEvent::FrameError("boom".to_string())
        ),
        HandshakePhase::Failed(_)
    ));
}

#[test]
fn handshake_greeting_establishes_session() {
    let next = handshake_step(
        HandshakePhase::AwaitServerHello { seen: 0 },
        HandshakeEvent::TextFrame("{\"type\":\"server/hello\"}".to_string()),
    );
    assert!(matches!(next, HandshakePhase::Established));
}

#[test]
fn handshake_proceeds_after_three_unrelated_messages() {
    let mut phase = HandshakePhase::AwaitServerHello { seen: 0 };
    phase = handshake_step(phase, HandshakeEvent::TextFrame("{\"type\":\"other\"}".to_string()));
    assert!(matches!(phase, HandshakePhase::AwaitServerHello { seen: 1 }));
    phase = handshake_step(phase, HandshakeEvent::OtherFrame);
    assert!(matches!(phase, HandshakePhase::AwaitServerHello { seen: 2 }));
    // the lenient fallback: the third tolerated event establishes anyway
    phase = handshake_step(phase, HandshakeEvent::TimedOut);
    assert!(matches!(phase, HandshakePhase::Established));
}

#[test]
fn handshake_transport_failures_while_waiting_are_fatal() {
    assert!(matches!(
        handshake_step(HandshakePhase::AwaitServerHello { seen: 1 }, HandshakeEvent::Closed),
        HandshakePhase::Failed(_)
    ));
    assert!(matches!(
        handshake_step(
            HandshakePhase::AwaitServerHello { seen: 1 },
            HandshakeEvent::FrameError("io".to_string())
        ),
        HandshakePhase::Failed(_)
    ));
}

#[test]
fn server_hello_recognition() {
    assert!(is_server_hello_text("{\"type\":\"server/hello\",\"payload\":{}}"));
    assert!(is_server_hello_text("prefix server_hello suffix"));
    assert!(!is_server_hello_text("{\"type\":\"server/state\"}"));
    assert!(!is_server_hello_text(""));
}

#[test]
fn auth_message_fields() {
    let msg = auth_message("tok".to_string(), "client-9".to_string());
    assert_eq!(msg.msg_type, "auth");
    assert_eq!(msg.token, "tok");
    assert_eq!(msg.client_id, "client-9");
}

#[test]
fn client_hello_advertises_roles_formats_and_commands() {
    let hello = default_client_hello("id-1".to_string(), "Den".to_string(), "1.2.3".to_string());
    assert_eq!(hello.client_id, "id-1");
    assert_eq!(hello.name, "Den");
    assert_eq!(hello.version, 1);
    assert_eq!(hello.supported_roles, vec!["player@v1", "controller@v1", "metadata@v1"]);
    assert_eq!(hello.manufacturer, "Music Assistant");
    assert_eq!(hello.software_version, "1.2.3");
    assert_eq!(hello.buffer_capacity, 480000);
    assert_eq!(hello.supported_formats.len(), 3);
    assert_eq!(hello.supported_formats[0].codec, "pcm");
    assert_eq!(hello.supported_formats[0].sample_rate, 44100);
    assert_eq!(hello.supported_formats[0].bit_depth, 16);
    assert_eq!(hello.supported_formats[0].channels, 2);
    assert_eq!(hello.supported_formats[1].sample_rate, 48000);
    assert_eq!(hello.supported_formats[1].bit_depth, 24);
    assert_eq!(hello.supported_formats[2].sample_rate, 96000);
    assert_eq!(hello.supported_formats[2].bit_depth, 24);
    assert_eq!(hello.supported_commands, vec!["volume", "mute"]);
}
