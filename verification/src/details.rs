//! The song-details overlay: its tabs and the state its controller keeps.
use vstd::prelude::*;

use crate::lyrics::LyricsResult;
use crate::model::{clone_opt_string, opt_string_eq, opt_view, Song};

verus! {

/// A tab of the song-details overlay.
#[derive(Debug, Clone, Copy, PartialEq, Eq, Structural)]
pub enum SongDetailsTab {
    Details,
    Queue,
    Related,
    Lyrics,
}

impl SongDetailsTab {
    pub open spec fn label_spec(self) -> Seq<char> {
        match self {
            SongDetailsTab::Details => "Details"@,
            SongDetailsTab::Queue => "Up Next"@,
            SongDetailsTab::Related => "Related"@,
            SongDetailsTab::Lyrics => "Lyrics"@,
        }
    }

    /// The tab's caption.
    pub fn label(self) -> (r: &'static str)
        ensures
            r@ == self.label_spec(),
    {
        match self {
            SongDetailsTab::Details => "Details",
            SongDetailsTab::Queue => "Up Next",
            SongDetailsTab::Related => "Related",
            SongDetailsTab::Lyrics => "Lyrics",
        }
    }
}

/// Whether the overlay is open, which song it shows and which tab is active.
#[derive(Debug)]
pub struct SongDetailsState {
    pub is_open: bool,
    pub song: Option<Song>,
    pub active_tab: SongDetailsTab,
}

impl Default for SongDetailsState {
    /// Closed, showing no song, on the details tab.
    fn default() -> (r: Self)
        ensures
            !r.is_open,
            r.song is None,
            r.active_tab == SongDetailsTab::Details,
    {
        SongDetailsState { is_open: false, song: None, active_tab: SongDetailsTab::Details }
    }
}

impl Clone for SongDetailsState {
    fn clone(&self) -> (r: Self)
        ensures
            r == *self,
    {
        SongDetailsState {
            is_open: self.is_open,
            song: match &self.song {
                Some(s) => Some(s.clone()),
                None => None,
            },
            active_tab: self.active_tab,
        }
    }
}

/// Opens, closes and switches the song-details overlay.
#[derive(Debug)]
pub struct SongDetailsController {
    state: SongDetailsState,
}

impl SongDetailsController {
    pub closed spec fn state(&self) -> SongDetailsState {
        self.state
    }

    pub fn new(state: SongDetailsState) -> (r: Self)
        ensures
            r.state() == state,
    {
        SongDetailsController { state }
    }

    /// Opens the overlay on `song`, keeping the active tab.
    pub fn open(&mut self, song: Song)
        ensures
            final(self).state() == (SongDetailsState { is_open: true, song: Some(song), ..old(self).state() }),
    {
        self.state.is_open = true;
        self.state.song = Some(song);
    }

    /// Closes the overlay; the song and tab stay for the next opening.
    pub fn close(&mut self)
        ensures
            final(self).state() == (SongDetailsState { is_open: false, ..old(self).state() }),
    {
        self.state.is_open = false;
    }

    pub fn set_tab(&mut self, tab: SongDetailsTab)
        ensures
            final(self).state() == (SongDetailsState { active_tab: tab, ..old(self).state() }),
    {
        self.state.active_tab = tab;
    }

    /// A copy of the current state.
    pub fn current(&self) -> (r: SongDetailsState)
        ensures
            r == self.state(),
    {
        self.state.clone()
    }
}

} // verus!
verus! {

/// While the overlay is open it follows the song playing: it switches when
/// a song plays that differs from the one shown.
pub open spec fn should_follow_spec(state: SongDetailsState, now_playing: Option<Song>) -> bool {
    state.is_open && match now_playing {
        Some(n) => !(state.song matches Some(s) && crate::collection::song_eqv(s, n)),
        None => false,
    }
}

pub fn overlay_should_follow(state: &SongDetailsState, now_playing: &Option<Song>) -> (r: bool)
    ensures
        r == should_follow_spec(*state, *now_playing),
{
    if !state.is_open {
        return false;
    }
    match now_playing {
        Some(n) => match &state.song {
            Some(s) => !crate::collection::song_equal(s, n),
            None => true,
        },
        None => false,
    }
}

/// The key the overlay remembers a song by: `server_id:id`.
pub open spec fn overlay_song_key_spec(song: Song) -> Seq<char> {
    song.server_id@ + ":"@ + song.id@
}

pub fn overlay_song_key(song: &Song) -> (r: String)
    ensures
        r@ == overlay_song_key_spec(*song),
{
    let mut key = song.server_id.clone();
    key.append(":");
    key.append(song.id.as_str());
    key
}

/// What the overlay remembers about the lyrics of the song it shows: the
/// song's key, the song whose failed lyrics lookup and LRCLIB upgrade were
/// already retried once, and the last timed lyrics found for a song.
pub struct OverlayLyricsState {
    pub song_key: Option<String>,
    pub lyrics_retried: Option<String>,
    pub upgrade_retried: Option<String>,
    pub synced_cache: Option<(String, LyricsResult)>,
}

impl OverlayLyricsState {
    pub fn new() -> (r: Self)
        ensures
            r.song_key is None && r.lyrics_retried is None && r.upgrade_retried is None && r.synced_cache is None,
    {
        OverlayLyricsState { song_key: None, lyrics_retried: None, upgrade_retried: None, synced_cache: None }
    }

    /// The overlay now shows the song with key `key`. Another song forgets
    /// the retries and the cached lyrics (and answers `true`: the lyrics
    /// search overrides are reset too).
    pub fn select_song(&mut self, key: Option<String>) -> (r: bool)
        ensures
            r == (opt_view(old(self).song_key) != opt_view(key)),
            r ==> {
                &&& opt_view(final(self).song_key) == opt_view(key)
                &&& final(self).lyrics_retried is None
                &&& final(self).upgrade_retried is None
                &&& final(self).synced_cache is None
            },
            !r ==> opt_view(final(self).song_key) == opt_view(old(self).song_key)
                && final(self).lyrics_retried == old(self).lyrics_retried
                && final(self).upgrade_retried == old(self).upgrade_retried
                && final(self).synced_cache == old(self).synced_cache,
    {
        if opt_string_eq(&self.song_key, &key) {
            return false;
        }
        self.song_key = key;
        self.lyrics_retried = None;
        self.upgrade_retried = None;
        self.synced_cache = None;
        true
    }

    /// A failed lyrics lookup is retried once per song: answers whether to
    /// retry now.
    pub fn retry_lyrics(&mut self, failed: bool) -> (r: bool)
        ensures
            r == (failed && old(self).song_key is Some && opt_view(old(self).lyrics_retried) != opt_view(old(self).song_key)),
            r ==> opt_view(final(self).lyrics_retried) == opt_view(old(self).song_key),
            !r ==> final(self).lyrics_retried == old(self).lyrics_retried,
            final(self).song_key == old(self).song_key,
            final(self).upgrade_retried == old(self).upgrade_retried,
            final(self).synced_cache == old(self).synced_cache,
    {
        if !failed || self.song_key.is_none() || opt_string_eq(&self.lyrics_retried, &self.song_key) {
            return false;
        }
        self.lyrics_retried = clone_opt_string(&self.song_key);
        true
    }

    /// A failed LRCLIB upgrade is retried once per song, unless timed
    /// lyrics are turned off: answers whether to retry now.
    pub fn retry_upgrade(&mut self, failed: bool, unsynced_mode: bool) -> (r: bool)
        ensures
            r == (!unsynced_mode && failed && old(self).song_key is Some && opt_view(old(self).upgrade_retried) != opt_view(
                old(self).song_key,
            )),
            r ==> opt_view(final(self).upgrade_retried) == opt_view(old(self).song_key),
            !r ==> final(self).upgrade_retried == old(self).upgrade_retried,
            final(self).song_key == old(self).song_key,
            final(self).lyrics_retried == old(self).lyrics_retried,
            final(self).synced_cache == old(self).synced_cache,
    {
        if unsynced_mode || !failed || self.song_key.is_none() || opt_string_eq(&self.upgrade_retried, &self.song_key) {
            return false;
        }
        self.upgrade_retried = clone_opt_string(&self.song_key);
        true
    }

    /// An LRCLIB upgrade arrived: timed lyrics are kept for the song shown.
    pub fn remember_upgrade(&mut self, upgrade: LyricsResult)
        ensures
            final(self).song_key == old(self).song_key,
            final(self).lyrics_retried == old(self).lyrics_retried,
            final(self).upgrade_retried == old(self).upgrade_retried,
            final(self).synced_cache == (match old(self).song_key {
                Some(k) => if upgrade.synced_lines@.len() > 0 {
                    Some((k, upgrade))
                } else {
                    old(self).synced_cache
                },
                None => old(self).synced_cache,
            }),
    {
        if let Some(k) = &self.song_key {
            if upgrade.synced_lines.len() > 0 {
                self.synced_cache = Some((k.clone(), upgrade));
            }
        }
    }

    /// The cached timed lyrics, when they belong to the song shown.
    pub fn cached_synced(&self) -> (r: Option<LyricsResult>)
        ensures
            match self.synced_cache {
                Some((k, l)) => if self.song_key matches Some(s) && s@ == k@ {
                    r matches Some(c) && c.plain_lyrics == l.plain_lyrics && c.synced_lines@ == l.synced_lines@
                } else {
                    r is None
                },
                None => r is None,
            },
    {
        match (&self.synced_cache, &self.song_key) {
            (Some((k, l)), Some(s)) => if *k == *s {
                Some(l.clone())
            } else {
                None
            },
            _ => None,
        }
    }
}

} // verus!
