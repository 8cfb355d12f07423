use sendspin_client::devices::{build_audio_device, sort_devices, ConfigRange};
use sendspin_client::discovery::{
    build_discovered_server, friendly_server_name, https_announced, port_to_string,
    server_dedup_key,
};
use sendspin_client::now_playing::{
    cleared_now_playing, format_now_playing, format_now_playing_with_player, playback_phase,
    NowPlaying, NowPlayingState, PlaybackPhase,
};
use sendspin_client::protocol::{
    ClientCommandMessage, MediaCommand, Progress, SessionMetadata,
};
use sendspin_client::session::SessionState;
use sendspin_client::settings::{clean_player_name, trim_end_matches_str, Settings, SettingsStore};

fn playing_snapshot(track: Option<&str>, artist: Option<&str>) -> NowPlaying {
    NowPlaying {
        is_playing: true,
        track: track.map(|s| s.to_string()),
        artist: artist.map(|s| s.to_string()),
        ..cleared_now_playing()
    }
}

#[test]
fn now_playing_update_skips_playing_without_track() {
    let mut state = NowPlayingState::new();
    let racy = playing_snapshot(None, None);
    assert!(!state.update_now_playing(racy));
    assert!(!state.get_now_playing().is_playing);

    let good = playing_snapshot(Some("Song"), Some("Band"));
    assert!(state.update_now_playing(good));
    let current = state.get_now_playing();
    assert!(current.is_playing);
    assert_eq!(current.track.as_deref(), Some("Song"));

    // a stopped update always lands, even without a track
    let stopped = cleared_now_playing();
    assert!(state.update_now_playing(stopped));
    assert!(!state.get_now_playing().is_playing);
}

#[test]
fn playback_phase_presented_to_media_controls() {
    assert_eq!(playback_phase(&playing_snapshot(Some("Song"), None)), PlaybackPhase::Playing);
    let mut paused = playing_snapshot(Some("Song"), None);
    paused.is_playing = false;
    assert_eq!(playback_phase(&paused), PlaybackPhase::Paused);
    assert_eq!(playback_phase(&cleared_now_playing()), PlaybackPhase::Stopped);
}

#[test]
fn format_now_playing_cases() {
    let mut np = playing_snapshot(Some("Song"), Some("Band"));
    assert_eq!(format_now_playing(&np), "Band - Song");

    np.artist = None;
    assert_eq!(format_now_playing(&np), "Song");

    np.track = None;
    assert_eq!(format_now_playing(&np), "Music Assistant - Playing");

    np.is_playing = false;
    assert_eq!(format_now_playing(&np), "Music Assistant - Not Playing");
}

#[test]
fn format_now_playing_with_player_cases() {
    let mut np = playing_snapshot(Some("Song"), Some("Band"));
    np.player_name = Some("Den".to_string());
    assert_eq!(format_now_playing_with_player(&np), "Band - Song\nDen");

    np.artist = None;
    np.track = None;
    assert_eq!(format_now_playing_with_player(&np), "Unknown Track\nDen");

    np.is_playing = false;
    assert_eq!(format_now_playing_with_player(&np), "Den - Not Playing");

    np.player_name = None;
    assert_eq!(format_now_playing_with_player(&np), "Music Assistant");
}

#[test]
fn server_state_merges_metadata_with_playing_flag() {
    let mut session = SessionState::new("pid".to_string(), "Den".to_string());
    let metadata = SessionMetadata {
        title: Some("Song".to_string()),
        artist: Some("Band".to_string()),
        album: Some("Album".to_string()),
        artwork_url: Some("http://art.invalid/a.png".to_string()),
        progress: Some(Progress {
            track_progress: 65_500,
            track_duration: 180_000,
            playback_speed: 1000,
        }),
        ..SessionMetadata::default()
    };
    let np = session.on_server_state(Some(metadata)).expect("metadata yields a snapshot");
    assert!(!np.is_playing);
    assert_eq!(np.track.as_deref(), Some("Song"));
    assert_eq!(np.artist.as_deref(), Some("Band"));
    assert_eq!(np.album.as_deref(), Some("Album"));
    assert_eq!(np.image_url.as_deref(), Some("http://art.invalid/a.png"));
    assert_eq!(np.player_name.as_deref(), Some("Den"));
    assert_eq!(np.player_id.as_deref(), Some("pid"));
    assert_eq!(np.duration, Some(180));
    assert_eq!(np.elapsed, Some(65));
    assert!(np.can_play);
    assert!(!np.can_pause);
    assert!(np.can_next);
    assert!(np.can_previous);

    assert!(session.on_server_state(None).is_none());
}

#[test]
fn command_message_constructors() {
    let play = ClientCommandMessage::new(MediaCommand::Play);
    assert_eq!(play.msg_type, "client/command");
    let controller = play.payload.controller.unwrap();
    assert_eq!(controller.command, MediaCommand::Play);
    assert_eq!(controller.volume, None);
    assert_eq!(controller.mute, None);

    let volume = ClientCommandMessage::volume(55);
    let controller = volume.payload.controller.unwrap();
    assert_eq!(controller.command, MediaCommand::Volume);
    assert_eq!(controller.volume, Some(55));
    assert_eq!(controller.mute, None);

    let mute = ClientCommandMessage::mute(true);
    let controller = mute.payload.controller.unwrap();
    assert_eq!(controller.command, MediaCommand::Mute);
    assert_eq!(controller.volume, None);
    assert_eq!(controller.mute, Some(true));
}

fn sample_settings() -> Settings {
    Settings {
        discord_rpc_enabled: true,
        start_minimized: false,
        autostart: false,
        last_server_url: None,
        last_server_name: None,
        sendspin_enabled: true,
        sendspin_player_id: None,
        sendspin_player_name: "Den".to_string(),
        sendspin_server_url: None,
        audio_device_id: None,
        sync_delay_ms: 0,
    }
}

#[test]
fn settings_boolean_keys() {
    let mut store = SettingsStore::new(sample_settings());
    store.set_setting("start_minimized", true).unwrap();
    store.set_setting("discord_rpc_enabled", false).unwrap();
    store.set_setting("autostart", true).unwrap();
    store.set_setting("sendspin_enabled", false).unwrap();
    let settings = store.get_settings();
    assert!(settings.start_minimized);
    assert!(!settings.discord_rpc_enabled);
    assert!(settings.autostart);
    assert!(!settings.sendspin_enabled);

    assert!(store.set_setting("volume", true).is_err());
    // the failed update changed nothing
    assert!(store.get_settings().start_minimized);
}

#[test]
fn settings_string_and_int_keys() {
    let mut store = SettingsStore::new(sample_settings());
    store
        .set_string_setting("last_server_url", Some("http://10.0.0.2:8095".to_string()))
        .unwrap();
    store.set_string_setting("audio_device_id", Some("USB DAC".to_string())).unwrap();
    store.set_string_setting("sendspin_player_name", Some("Kitchen".to_string())).unwrap();
    store.set_int_setting("sync_delay_ms", -40).unwrap();

    let settings = store.get_settings();
    assert_eq!(settings.last_server_url.as_deref(), Some("http://10.0.0.2:8095"));
    assert_eq!(settings.audio_device_id.as_deref(), Some("USB DAC"));
    assert_eq!(settings.sendspin_player_name, "Kitchen");
    assert_eq!(settings.sync_delay_ms, -40);

    assert!(store.set_string_setting("unknown_key", None).is_err());
    assert!(store.set_int_setting("volume", 1).is_err());

    // clearing the player name falls back to the machine-derived default,
    // whose value depends on the machine
    store.set_string_setting("sendspin_player_name", None).unwrap();
    assert_ne!(store.get_settings().sendspin_player_name, "Kitchen");
}

#[test]
fn settings_defaults() {
    let settings = Settings::default();
    assert!(settings.discord_rpc_enabled);
    assert!(!settings.start_minimized);
    assert!(!settings.autostart);
    assert!(settings.sendspin_enabled);
    assert_eq!(settings.sync_delay_ms, 0);
    assert!(settings.last_server_url.is_none());
    assert!(settings.audio_device_id.is_none());
}

#[test]
fn player_name_suffix_stripping() {
    assert_eq!(clean_player_name(Some("myhost.local".to_string())), "myhost");
    assert_eq!(clean_player_name(Some("box.lan".to_string())), "box");
    assert_eq!(clean_player_name(Some("media.home".to_string())), "media");
    assert_eq!(clean_player_name(Some("pc.localdomain".to_string())), "pc");
    assert_eq!(clean_player_name(Some("plain".to_string())), "plain");
    assert_eq!(clean_player_name(None), "Music Assistant Companion");

    // repeated suffixes all come off
    assert_eq!(trim_end_matches_str("h.local.local", ".local"), "h");
    // only a whole trailing suffix comes off
    assert_eq!(trim_end_matches_str("local", ".local"), "local");
}

#[test]
fn device_summary_from_config_ranges() {
    let ranges = vec![
        ConfigRange { min_rate: 44100, max_rate: 48000, channels: 2 },
        ConfigRange { min_rate: 96000, max_rate: 96000, channels: 6 },
    ];
    let device = build_audio_device("out-1".to_string(), "Speakers".to_string(), true, Some(&ranges));
    assert_eq!(device.id, "out-1");
    assert_eq!(device.name, "Speakers");
    assert!(device.is_default);
    assert_eq!(device.sample_rates, vec![44100, 48000, 96000]);
    assert_eq!(device.max_channels, 6);
}

#[test]
fn device_summary_fallback_without_configs() {
    let device = build_audio_device("out-2".to_string(), "HDMI".to_string(), false, None);
    assert_eq!(device.sample_rates, vec![44100, 48000]);
    assert_eq!(device.max_channels, 2);
    assert!(!device.is_default);
}

#[test]
fn devices_sort_default_first_then_by_name() {
    let mut devices = vec![
        build_audio_device("zeta-id".to_string(), "Zeta".to_string(), false, None),
        build_audio_device("alpha-id".to_string(), "Alpha".to_string(), false, None),
        build_audio_device("mid-id".to_string(), "Mid".to_string(), true, None),
        build_audio_device("beta-id".to_string(), "Beta".to_string(), false, None),
    ];
    sort_devices(&mut devices);
    let names: Vec<&str> = devices.iter().map(|d| d.name.as_str()).collect();
    assert_eq!(names, vec!["Mid", "Alpha", "Beta", "Zeta"]);
    assert!(devices[0].is_default);
}

#[test]
fn discovered_server_building() {
    let server = build_discovered_server(
        "Media Server".to_string(),
        Some("abc123".to_string()),
        "192.168.1.47",
        8095,
        false,
    );
    assert_eq!(server.name, "Media Server");
    assert_eq!(server.server_id.as_deref(), Some("abc123"));
    assert_eq!(server.address, "192.168.1.47:8095");
    assert_eq!(server.url, "http://192.168.1.47:8095");
    assert!(!server.https);

    let secure = build_discovered_server("S".to_string(), None, "10.0.0.9", 443, true);
    assert_eq!(secure.url, "https://10.0.0.9:443");
    assert!(secure.https);
}

#[test]
fn friendly_name_and_dedup_key() {
    assert_eq!(friendly_server_name("MyServer._mass._tcp.local."), "MyServer");
    assert_eq!(friendly_server_name("plain-name"), "plain-name");

    assert_eq!(
        server_dedup_key(&Some("id-1".to_string()), "full.name".to_string()),
        "id-1"
    );
    assert_eq!(server_dedup_key(&None, "full.name".to_string()), "full.name");
}

#[test]
fn https_txt_flag_parsing() {
    assert!(https_announced(Some(&"true".to_string())));
    assert!(https_announced(Some(&"1".to_string())));
    assert!(!https_announced(Some(&"0".to_string())));
    assert!(!https_announced(Some(&"false".to_string())));
    assert!(!https_announced(None));
}

#[test]
fn port_rendering() {
    assert_eq!(port_to_string(0), "0");
    assert_eq!(port_to_string(7), "7");
    assert_eq!(port_to_string(8095), "8095");
    assert_eq!(port_to_string(65535), "65535");
}
