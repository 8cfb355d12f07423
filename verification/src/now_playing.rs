//! The now-playing snapshot pushed outward whenever playback state changes.

use vstd::prelude::*;
use vstd::string::StringExecFns;
use crate::strutil::{clone_opt_string, opt_view};

verus! {

/// Current now-playing information.
#[derive(Debug, Default)]
pub struct NowPlaying {
    /// Whether something is currently playing.
    pub is_playing: bool,
    /// Track name.
    pub track: Option<String>,
    /// Artist name.
    pub artist: Option<String>,
    /// Album name.
    pub album: Option<String>,
    /// Image URL.
    pub image_url: Option<String>,
    /// Player name.
    pub player_name: Option<String>,
    /// Player ID.
    pub player_id: Option<String>,
    /// Duration in seconds.
    pub duration: Option<u64>,
    /// Elapsed time in seconds.
    pub elapsed: Option<u64>,
    /// Whether the play action is available.
    pub can_play: bool,
    /// Whether the pause action is available.
    pub can_pause: bool,
    /// Whether the next-track action is available.
    pub can_next: bool,
    /// Whether the previous-track action is available.
    pub can_previous: bool,
}

/// The ghost value of a snapshot: every string by its characters.
pub ghost struct NowPlayingView {
    pub is_playing: bool,
    pub track: Option<Seq<char>>,
    pub artist: Option<Seq<char>>,
    pub album: Option<Seq<char>>,
    pub image_url: Option<Seq<char>>,
    pub player_name: Option<Seq<char>>,
    pub player_id: Option<Seq<char>>,
    pub duration: Option<u64>,
    pub elapsed: Option<u64>,
    pub can_play: bool,
    pub can_pause: bool,
    pub can_next: bool,
    pub can_previous: bool,
}

impl View for NowPlaying {
    type V = NowPlayingView;

    open spec fn view(&self) -> NowPlayingView {
        NowPlayingView {
            is_playing: self.is_playing,
            track: opt_view(self.track),
            artist: opt_view(self.artist),
            album: opt_view(self.album),
            image_url: opt_view(self.image_url),
            player_name: opt_view(self.player_name),
            player_id: opt_view(self.player_id),
            duration: self.duration,
            elapsed: self.elapsed,
            can_play: self.can_play,
            can_pause: self.can_pause,
            can_next: self.can_next,
            can_previous: self.can_previous,
        }
    }
}

impl Clone for NowPlaying {
    /// Clone a snapshot, keeping every field's value.
    fn clone(&self) -> (r: Self)
        ensures
            r@ == self@,
    {
        NowPlaying {
            is_playing: self.is_playing,
            track: clone_opt_string(&self.track),
            artist: clone_opt_string(&self.artist),
            album: clone_opt_string(&self.album),
            image_url: clone_opt_string(&self.image_url),
            player_name: clone_opt_string(&self.player_name),
            player_id: clone_opt_string(&self.player_id),
            duration: self.duration,
            elapsed: self.elapsed,
            can_play: self.can_play,
            can_pause: self.can_pause,
            can_next: self.can_next,
            can_previous: self.can_previous,
        }
    }
}

/// A snapshot in which nothing plays and no action is available.
pub open spec fn cleared_snapshot(v: NowPlayingView) -> bool {
    &&& !v.is_playing
    &&& v.track is None
    &&& v.artist is None
    &&& v.album is None
    &&& v.image_url is None
    &&& v.player_name is None
    &&& v.player_id is None
    &&& v.duration is None
    &&& v.elapsed is None
    &&& !v.can_play
    &&& !v.can_pause
    &&& !v.can_next
    &&& !v.can_previous
}

/// Build the cleared (not-playing) snapshot.
pub fn cleared_now_playing() -> (r: NowPlaying)
    ensures
        cleared_snapshot(r@),
{
    NowPlaying {
        is_playing: false,
        track: None,
        artist: None,
        album: None,
        image_url: None,
        player_name: None,
        player_id: None,
        duration: None,
        elapsed: None,
        can_play: false,
        can_pause: false,
        can_next: false,
        can_previous: false,
    }
}

/// The now-playing state a client process holds, with the snapshot that
/// external consumers read.
pub struct NowPlayingState {
    current: NowPlaying,
}

impl NowPlayingState {
    /// The snapshot currently held.
    pub closed spec fn view(&self) -> NowPlayingView {
        self.current@
    }

    /// A fresh state holding the cleared snapshot.
    pub fn new() -> (s: NowPlayingState)
        ensures
            cleared_snapshot(s@),
    {
        NowPlayingState { current: cleared_now_playing() }
    }

    /// Get the current now-playing state.
    pub fn get_now_playing(&self) -> (r: NowPlaying)
        ensures
            r@ == self@,
    {
        self.current.clone()
    }

    /// Update the now-playing state. An update that claims active playback
    /// but carries no track name races with data still loading and is
    /// skipped. Returns whether the state changed, so the caller knows to
    /// notify its listeners.
    pub fn update_now_playing(&mut self, now_playing: NowPlaying) -> (updated: bool)
        ensures
            updated == !(now_playing@.is_playing && now_playing@.track is None),
            updated ==> final(self)@ == now_playing@,
            !updated ==> final(self)@ == old(self)@,
    {
        if now_playing.is_playing && now_playing.track.is_none() {
            return false;
        }
        self.current = now_playing;
        true
    }
}

/// What the system's media controls should display for a snapshot.
#[derive(Clone, Copy, PartialEq, Eq, Structural, Debug)]
pub enum PlaybackPhase {
    Playing,
    Paused,
    Stopped,
}

/// The playback phase a snapshot presents: playing while active, paused
/// while a track is loaded but not playing, stopped otherwise.
pub fn playback_phase(np: &NowPlaying) -> (r: PlaybackPhase)
    ensures
        np@.is_playing ==> r == PlaybackPhase::Playing,
        !np@.is_playing && np@.track is Some ==> r == PlaybackPhase::Paused,
        !np@.is_playing && np@.track is None ==> r == PlaybackPhase::Stopped,
{
    if np.is_playing {
        PlaybackPhase::Playing
    } else if np.track.is_some() {
        PlaybackPhase::Paused
    } else {
        PlaybackPhase::Stopped
    }
}

/// Format now-playing info for display: the artist and track if both are
/// known, the track alone if only it is, and a fixed label otherwise.
pub fn format_now_playing(np: &NowPlaying) -> (r: String)
    ensures
        !np@.is_playing ==> r@ == "Music Assistant - Not Playing"@,
        np@.is_playing && np@.artist is Some && np@.track is Some ==> r@
            == np@.artist->0 + " - "@ + np@.track->0,
        np@.is_playing && np@.artist is None && np@.track is Some ==> r@ == np@.track->0,
        np@.is_playing && np@.track is None ==> r@ == "Music Assistant - Playing"@,
{
    if !np.is_playing {
        return String::from_str("Music Assistant - Not Playing");
    }
    match (&np.artist, &np.track) {
        (Some(artist), Some(track)) => crate::strutil::concat3(
            artist.as_str(),
            " - ",
            track.as_str(),
        ),
        (None, Some(track)) => track.clone(),
        _ => String::from_str("Music Assistant - Playing"),
    }
}

/// Format now-playing info together with the player name: the not-playing
/// label carries the player name when one is known; while playing, the
/// player name follows the track info on its own line.
pub fn format_now_playing_with_player(np: &NowPlaying) -> (r: String)
    ensures
        !np@.is_playing && np@.player_name is Some ==> r@ == np@.player_name->0
            + " - Not Playing"@,
        !np@.is_playing && np@.player_name is None ==> r@ == "Music Assistant"@,
        np@.is_playing ==> r@ == track_info_view(np@) + (
        if np@.player_name is Some {
            "\n"@ + np@.player_name->0
        } else {
            Seq::<char>::empty()
        }),
{
    if !np.is_playing {
        match &np.player_name {
            Some(name) => crate::strutil::concat2(name.as_str(), " - Not Playing"),
            None => String::from_str("Music Assistant"),
        }
    } else {
        let track_info: String = match (&np.artist, &np.track) {
            (Some(artist), Some(track)) => crate::strutil::concat3(
                artist.as_str(),
                " - ",
                track.as_str(),
            ),
            (None, Some(track)) => track.clone(),
            _ => String::from_str("Unknown Track"),
        };
        proof {
            assert(track_info@ == track_info_view(np@));
        }
        match &np.player_name {
            Some(name) => {
                let with_break: String = track_info.concat("\n");
                let r = with_break.concat(name.as_str());
                proof {
                    assert(r@ == track_info_view(np@) + ("\n"@ + np@.player_name->0));
                }
                r
            },
            None => {
                proof {
                    assert(track_info@ == track_info_view(np@) + Seq::<char>::empty());
                }
                track_info
            },
        }
    }
}

/// The track line of a playing snapshot: artist and track if both are
/// known, the track alone if only it is, and a fixed label otherwise.
pub open spec fn track_info_view(v: NowPlayingView) -> Seq<char> {
    if v.artist is Some && v.track is Some {
        v.artist->0 + " - "@ + v.track->0
    } else if v.artist is None && v.track is Some {
        v.track->0
    } else {
        "Unknown Track"@
    }
}

} // verus!
