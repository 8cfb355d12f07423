//! Application settings: the typed record, keyed updates, and the default
//! player name derived from the machine's host name.
//!
//! Reading and writing the settings file is I/O and lives outside the
//! library; the store here owns the in-memory record and every rule about
//! its contents.

use vstd::prelude::*;
use vstd::string::{StringExecFns, StringSliceAdditionalSpecFns};
use vstd::utf8::{
    encode_utf8_valid_utf8, is_ascii_chars, is_char_boundary,
    is_char_boundary_iff_not_is_continuation_byte, is_continuation_byte,
};
use crate::strutil::{clone_opt_string, opt_view, str_eq};

verus! {

/// The persisted application settings.
#[derive(Debug)]
pub struct Settings {
    pub discord_rpc_enabled: bool,
    pub start_minimized: bool,
    pub autostart: bool,
    /// Last connected server (HTTP URL for the launcher to reconnect).
    pub last_server_url: Option<String>,
    pub last_server_name: Option<String>,
    pub sendspin_enabled: bool,
    pub sendspin_player_id: Option<String>,
    pub sendspin_player_name: String,
    pub sendspin_server_url: Option<String>,
    pub audio_device_id: Option<String>,
    pub sync_delay_ms: i32,
}

/// The ghost value of a settings record: every string by its characters.
pub ghost struct SettingsView {
    pub discord_rpc_enabled: bool,
    pub start_minimized: bool,
    pub autostart: bool,
    pub last_server_url: Option<Seq<char>>,
    pub last_server_name: Option<Seq<char>>,
    pub sendspin_enabled: bool,
    pub sendspin_player_id: Option<Seq<char>>,
    pub sendspin_player_name: Seq<char>,
    pub sendspin_server_url: Option<Seq<char>>,
    pub audio_device_id: Option<Seq<char>>,
    pub sync_delay_ms: i32,
}

impl View for Settings {
    type V = SettingsView;

    open spec fn view(&self) -> SettingsView {
        SettingsView {
            discord_rpc_enabled: self.discord_rpc_enabled,
            start_minimized: self.start_minimized,
            autostart: self.autostart,
            last_server_url: opt_view(self.last_server_url),
            last_server_name: opt_view(self.last_server_name),
            sendspin_enabled: self.sendspin_enabled,
            sendspin_player_id: opt_view(self.sendspin_player_id),
            sendspin_player_name: self.sendspin_player_name@,
            sendspin_server_url: opt_view(self.sendspin_server_url),
            audio_device_id: opt_view(self.audio_device_id),
            sync_delay_ms: self.sync_delay_ms,
        }
    }
}

impl Clone for Settings {
    /// Clone a settings record, keeping every field's value.
    fn clone(&self) -> (r: Self)
        ensures
            r@ == self@,
    {
        Settings {
            discord_rpc_enabled: self.discord_rpc_enabled,
            start_minimized: self.start_minimized,
            autostart: self.autostart,
            last_server_url: clone_opt_string(&self.last_server_url),
            last_server_name: clone_opt_string(&self.last_server_name),
            sendspin_enabled: self.sendspin_enabled,
            sendspin_player_id: clone_opt_string(&self.sendspin_player_id),
            sendspin_player_name: self.sendspin_player_name.clone(),
            sendspin_server_url: clone_opt_string(&self.sendspin_server_url),
            audio_device_id: clone_opt_string(&self.audio_device_id),
            sync_delay_ms: self.sync_delay_ms,
        }
    }
}

/// Whether the byte sequence ends with the given suffix.
pub open spec fn ends_with_bytes(s: Seq<u8>, suffix: Seq<u8>) -> bool {
    s.len() >= suffix.len() && s.subrange(s.len() - suffix.len(), s.len() as int) == suffix
}

/// The byte sequence with every trailing repetition of the suffix removed.
pub open spec fn spec_trim_end_bytes(s: Seq<u8>, suffix: Seq<u8>) -> Seq<u8>
    decreases s.len(),
    when suffix.len() > 0
{
    if ends_with_bytes(s, suffix) {
        spec_trim_end_bytes(s.subrange(0, s.len() - suffix.len()), suffix)
    } else {
        s
    }
}

/// Strip every trailing repetition of an ASCII suffix from a string.
pub fn trim_end_matches_str(s: &str, suffix: &str) -> (r: String)
    requires
        suffix@.len() > 0,
        is_ascii_chars(suffix@),
    ensures
        vstd::utf8::encode_utf8(r@) == spec_trim_end_bytes(s.spec_bytes(), suffix.spec_bytes()),
    decreases s.spec_bytes().len(),
{
    proof {
        vstd::string::is_ascii_spec_bytes(suffix);
        encode_utf8_valid_utf8(s@);
    }
    let sb: &[u8] = s.as_bytes();
    let nb: &[u8] = suffix.as_bytes();
    let sl: usize = sb.len();
    let nl: usize = nb.len();
    if sl < nl {
        return s.to_owned();
    }
    let mid: usize = sl - nl;
    let mut j: usize = 0;
    let mut suffix_matches: bool = true;
    while j < nl
        invariant
            nl <= sl,
            sl == s.spec_bytes().len(),
            nl == suffix.spec_bytes().len(),
            mid == sl - nl,
            sb@ == s.spec_bytes(),
            nb@ == suffix.spec_bytes(),
            j <= nl,
            suffix_matches <==> (forall|t: int|
                0 <= t < j ==> s.spec_bytes()[mid + t] == suffix.spec_bytes()[t]),
        decreases nl - j,
    {
        if sb[mid + j] != nb[j] {
            suffix_matches = false;
        }
        j = j + 1;
    }
    if !suffix_matches {
        proof {
            if ends_with_bytes(s.spec_bytes(), suffix.spec_bytes()) {
                assert forall|t: int|
                    0 <= t < nl implies s.spec_bytes()[mid + t] == suffix.spec_bytes()[t] by {
                    assert(s.spec_bytes().subrange(mid as int, sl as int)[t] == s.spec_bytes()[mid
                        + t]);
                }
            }
        }
        return s.to_owned();
    }
    proof {
        assert(s.spec_bytes().subrange(mid as int, sl as int) =~= suffix.spec_bytes());
        assert(is_ascii_chars(suffix@));
        assert((suffix@[0] as nat) < 128) by {
            vstd::utf8::is_ascii_chars_nat_bound(suffix@);
        }
        if mid > 0 {
            is_char_boundary_iff_not_is_continuation_byte(s.spec_bytes(), mid as int);
            assert(s.spec_bytes()[mid as int] == suffix.spec_bytes()[0]);
            assert(!is_continuation_byte(s.spec_bytes()[mid as int]));
        }
        assert(is_char_boundary(s.spec_bytes(), mid as int));
    }
    let pieces: (&str, &str) = s.split_at(mid);
    let trimmed = trim_end_matches_str(pieces.0, suffix);
    proof {
        assert(pieces.0.spec_bytes() == s.spec_bytes().subrange(0, mid as int));
    }
    trimmed
}

/// Relies on hostname::get for the machine's host name: an arbitrary,
/// machine-dependent value; `None` when it cannot be read or is not valid
/// Unicode.
#[verifier::external_body]
fn system_host_name() -> (r: Option<String>) {
    hostname::get().ok().and_then(|h| h.into_string().ok())
}

/// The trailing domain parts stripped off a host name, applied in order.
pub open spec fn spec_clean_host_bytes(host: Seq<u8>) -> Seq<u8> {
    spec_trim_end_bytes(
        spec_trim_end_bytes(
            spec_trim_end_bytes(
                spec_trim_end_bytes(host, ".local".spec_bytes()),
                ".lan".spec_bytes(),
            ),
            ".home".spec_bytes(),
        ),
        ".localdomain".spec_bytes(),
    )
}

/// The player name derived from a host name: the name with common local
/// domain suffixes stripped; a fixed fallback when no host name is known.
pub fn clean_player_name(host: Option<String>) -> (r: String)
    ensures
        host matches Some(h) ==> vstd::utf8::encode_utf8(r@) == spec_clean_host_bytes(
            vstd::utf8::encode_utf8(h@),
        ),
        host is None ==> r@ == "Music Assistant Companion"@,
{
    proof {
        reveal_strlit(".local");
        reveal_strlit(".lan");
        reveal_strlit(".home");
        reveal_strlit(".localdomain");
    }
    match host {
        Some(name) => {
            let step1 = trim_end_matches_str(name.as_str(), ".local");
            let step2 = trim_end_matches_str(step1.as_str(), ".lan");
            let step3 = trim_end_matches_str(step2.as_str(), ".home");
            trim_end_matches_str(step3.as_str(), ".localdomain")
        },
        None => String::from_str("Music Assistant Companion"),
    }
}

/// The default player name: the machine's host name stripped of common
/// local domain suffixes, or a fixed fallback.
pub fn default_player_name() -> String {
    clean_player_name(system_host_name())
}

impl Default for Settings {
    /// Fresh settings: presence and the client enabled, nothing remembered,
    /// no sync delay, and the player named after the machine.
    fn default() -> (r: Self)
        ensures
            r@.discord_rpc_enabled,
            !r@.start_minimized,
            !r@.autostart,
            r@.last_server_url is None,
            r@.last_server_name is None,
            r@.sendspin_enabled,
            r@.sendspin_player_id is None,
            r@.sendspin_server_url is None,
            r@.audio_device_id is None,
            r@.sync_delay_ms == 0,
    {
        Settings {
            discord_rpc_enabled: true,
            start_minimized: false,
            autostart: false,
            last_server_url: None,
            last_server_name: None,
            sendspin_enabled: true,
            sendspin_player_id: None,
            sendspin_player_name: default_player_name(),
            sendspin_server_url: None,
            audio_device_id: None,
            sync_delay_ms: 0,
        }
    }
}

/// Register or unregister the application to start with the system. No
/// platform backend is wired up, so this records nothing and succeeds.
pub fn set_autostart(_enabled: bool) -> (r: Result<(), String>)
    ensures
        r is Ok,
{
    Ok(())
}

/// The in-memory settings store the process owns.
pub struct SettingsStore {
    settings: Settings,
}

impl SettingsStore {
    /// The settings currently held.
    pub closed spec fn view(&self) -> SettingsView {
        self.settings@
    }

    /// A store holding the given record.
    pub fn new(settings: Settings) -> (s: SettingsStore)
        ensures
            s@ == settings@,
    {
        SettingsStore { settings }
    }

    /// Get the current settings.
    pub fn get_settings(&self) -> (r: Settings)
        ensures
            r@ == self@,
    {
        self.settings.clone()
    }

    /// Replace the whole record, as loading the settings file does.
    pub fn replace(&mut self, settings: Settings)
        ensures
            final(self)@ == settings@,
    {
        self.settings = settings;
    }

    /// Set a boolean setting by key; an unknown key changes nothing and is
    /// reported.
    pub fn set_setting(&mut self, key: &str, value: bool) -> (r: Result<(), String>)
        ensures
            key@ == "discord_rpc_enabled"@ ==> r is Ok && final(self)@ == (SettingsView {
                discord_rpc_enabled: value,
                ..old(self)@
            }),
            key@ == "start_minimized"@ ==> r is Ok && final(self)@ == (SettingsView {
                start_minimized: value,
                ..old(self)@
            }),
            key@ == "autostart"@ ==> r is Ok && final(self)@ == (SettingsView {
                autostart: value,
                ..old(self)@
            }),
            key@ == "sendspin_enabled"@ ==> r is Ok && final(self)@ == (SettingsView {
                sendspin_enabled: value,
                ..old(self)@
            }),
            key@ != "discord_rpc_enabled"@ && key@ != "start_minimized"@ && key@ != "autostart"@
                && key@ != "sendspin_enabled"@ ==> r is Err && final(self)@ == old(self)@,
    {
        proof {
            reveal_strlit("discord_rpc_enabled");
            reveal_strlit("start_minimized");
            reveal_strlit("autostart");
            reveal_strlit("sendspin_enabled");
            assert("discord_rpc_enabled"@.len() == 19);
            assert("start_minimized"@.len() == 15);
            assert("autostart"@.len() == 9);
            assert("sendspin_enabled"@.len() == 16);
        }
        if str_eq(key, "discord_rpc_enabled") {
            self.settings.discord_rpc_enabled = value;
            Ok(())
        } else if str_eq(key, "start_minimized") {
            self.settings.start_minimized = value;
            Ok(())
        } else if str_eq(key, "autostart") {
            self.settings.autostart = value;
            Ok(())
        } else if str_eq(key, "sendspin_enabled") {
            self.settings.sendspin_enabled = value;
            Ok(())
        } else {
            Err(crate::strutil::concat2("Unknown boolean setting: ", key))
        }
    }

    /// Set a string setting by key; an unknown key changes nothing and is
    /// reported. Clearing the player name falls back to the default player
    /// name (derived from the machine's host name).
    pub fn set_string_setting(&mut self, key: &str, value: Option<String>) -> (r: Result<
        (),
        String,
    >)
        ensures
            key@ == "last_server_url"@ ==> r is Ok && final(self)@ == (SettingsView {
                last_server_url: opt_view(value),
                ..old(self)@
            }),
            key@ == "last_server_name"@ ==> r is Ok && final(self)@ == (SettingsView {
                last_server_name: opt_view(value),
                ..old(self)@
            }),
            key@ == "sendspin_player_id"@ ==> r is Ok && final(self)@ == (SettingsView {
                sendspin_player_id: opt_view(value),
                ..old(self)@
            }),
            key@ == "sendspin_player_name"@ ==> r is Ok && {
                &&& value matches Some(v) ==> final(self)@ == (SettingsView {
                    sendspin_player_name: v@,
                    ..old(self)@
                })
                &&& value is None ==> final(self)@ == (SettingsView {
                    sendspin_player_name: final(self)@.sendspin_player_name,
                    ..old(self)@
                })
            },
            key@ == "sendspin_server_url"@ ==> r is Ok && final(self)@ == (SettingsView {
                sendspin_server_url: opt_view(value),
                ..old(self)@
            }),
            key@ == "audio_device_id"@ ==> r is Ok && final(self)@ == (SettingsView {
                audio_device_id: opt_view(value),
                ..old(self)@
            }),
            key@ != "last_server_url"@ && key@ != "last_server_name"@ && key@
                != "sendspin_player_id"@ && key@ != "sendspin_player_name"@ && key@
                != "sendspin_server_url"@ && key@ != "audio_device_id"@ ==> r is Err
                && final(self)@ == old(self)@,
    {
        proof {
            reveal_strlit("last_server_url");
            reveal_strlit("last_server_name");
            reveal_strlit("sendspin_player_id");
            reveal_strlit("sendspin_player_name");
            reveal_strlit("sendspin_server_url");
            reveal_strlit("audio_device_id");
            assert("last_server_url"@.len() == 15);
            assert("last_server_name"@.len() == 16);
            assert("sendspin_player_id"@.len() == 18);
            assert("sendspin_player_name"@.len() == 20);
            assert("sendspin_server_url"@.len() == 19);
            assert("audio_device_id"@.len() == 15);
            assert("last_server_url"@[0] == 'l');
            assert("audio_device_id"@[0] == 'a');
        }
        if str_eq(key, "last_server_url") {
            self.settings.last_server_url = value;
            Ok(())
        } else if str_eq(key, "last_server_name") {
            self.settings.last_server_name = value;
            Ok(())
        } else if str_eq(key, "sendspin_player_id") {
            self.settings.sendspin_player_id = value;
            Ok(())
        } else if str_eq(key, "sendspin_player_name") {
            self.settings.sendspin_player_name = match value {
                Some(v) => v,
                None => default_player_name(),
            };
            Ok(())
        } else if str_eq(key, "sendspin_server_url") {
            self.settings.sendspin_server_url = value;
            Ok(())
        } else if str_eq(key, "audio_device_id") {
            self.settings.audio_device_id = value;
            Ok(())
        } else {
            Err(crate::strutil::concat2("Unknown string setting: ", key))
        }
    }

    /// Set a numeric setting by key; an unknown key changes nothing and is
    /// reported.
    pub fn set_int_setting(&mut self, key: &str, value: i32) -> (r: Result<(), String>)
        ensures
            key@ == "sync_delay_ms"@ ==> r is Ok && final(self)@ == (SettingsView {
                sync_delay_ms: value,
                ..old(self)@
            }),
            key@ != "sync_delay_ms"@ ==> r is Err && final(self)@ == old(self)@,
    {
        proof {
            reveal_strlit("sync_delay_ms");
        }
        if str_eq(key, "sync_delay_ms") {
            self.settings.sync_delay_ms = value;
            Ok(())
        } else {
            Err(crate::strutil::concat2("Unknown int setting: ", key))
        }
    }
}

} // verus!
