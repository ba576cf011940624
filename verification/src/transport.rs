//! Transport decisions: what the next/previous buttons, the system's
//! remote commands and the end of a track do to the queue selection and the
//! play state.
use vstd::prelude::*;

use crate::model::RepeatMode;
use crate::text::{str_eq, str_starts_with};

verus! {

/// The repeat button cycles Off → All → One → Off.
pub open spec fn next_repeat_mode_spec(mode: RepeatMode) -> RepeatMode {
    match mode {
        RepeatMode::Off => RepeatMode::All,
        RepeatMode::All => RepeatMode::One,
        RepeatMode::One => RepeatMode::Off,
    }
}

pub fn next_repeat_mode(mode: RepeatMode) -> (r: RepeatMode)
    ensures
        r == next_repeat_mode_spec(mode),
{
    match mode {
        RepeatMode::Off => RepeatMode::All,
        RepeatMode::All => RepeatMode::One,
        RepeatMode::One => RepeatMode::Off,
    }
}

/// The name a native player knows a repeat mode by.
pub open spec fn repeat_mode_name_spec(mode: RepeatMode) -> Seq<char> {
    match mode {
        RepeatMode::Off => "off"@,
        RepeatMode::All => "all"@,
        RepeatMode::One => "one"@,
    }
}

pub fn repeat_mode_name(mode: RepeatMode) -> (r: &'static str)
    ensures
        r@ == repeat_mode_name_spec(mode),
{
    match mode {
        RepeatMode::Off => "off",
        RepeatMode::All => "all",
        RepeatMode::One => "one",
    }
}

/// Reads a repeat mode back from its name; any other text means off.
pub open spec fn repeat_mode_from_name_spec(name: Seq<char>) -> RepeatMode {
    if name == "all"@ {
        RepeatMode::All
    } else if name == "one"@ {
        RepeatMode::One
    } else {
        RepeatMode::Off
    }
}

pub fn repeat_mode_from_name(name: &str) -> (r: RepeatMode)
    ensures
        r == repeat_mode_from_name_spec(name@),
{
    if str_eq(name, "all") {
        RepeatMode::All
    } else if str_eq(name, "one") {
        RepeatMode::One
    } else {
        RepeatMode::Off
    }
}

/// What a transport decision asks the player to do.
#[derive(Debug, Clone, Copy, PartialEq, Eq, Structural)]
pub enum TransportAction {
    /// Nothing changes.
    Stay,
    /// Only the play state changes.
    SetPlaying { playing: bool },
    /// Select queue entry `index` (it becomes the song playing) and set the
    /// play state.
    Select { index: usize, playing: bool },
    /// Seek the current track back to its start and set the play state.
    Restart { playing: bool },
    /// Replace the queue with a freshly generated similar/random one and
    /// set the play state.
    GenerateQueue { playing: bool },
}

/// The next button (`was_playing` is the play state when it was pressed).
pub open spec fn next_button_spec(
    is_radio: bool,
    was_playing: bool,
    repeat: RepeatMode,
    shuffle: bool,
    index: usize,
    len: usize,
) -> TransportAction {
    if is_radio {
        TransportAction::Stay
    } else if repeat == RepeatMode::One {
        TransportAction::Restart { playing: was_playing }
    } else if repeat == RepeatMode::Off && shuffle {
        if len == 0 {
            TransportAction::GenerateQueue { playing: was_playing }
        } else if index + 1 < len {
            TransportAction::Select { index: (index + 1) as usize, playing: was_playing }
        } else {
            TransportAction::GenerateQueue { playing: was_playing }
        }
    } else if index + 1 < len {
        TransportAction::Select { index: (index + 1) as usize, playing: was_playing }
    } else if repeat == RepeatMode::All && len > 0 {
        TransportAction::Select { index: 0, playing: was_playing }
    } else {
        TransportAction::Stay
    }
}

pub fn next_button_action(
    is_radio: bool,
    was_playing: bool,
    repeat: RepeatMode,
    shuffle: bool,
    index: usize,
    len: usize,
) -> (r: TransportAction)
    ensures
        r == next_button_spec(is_radio, was_playing, repeat, shuffle, index, len),
{
    if is_radio {
        return TransportAction::Stay;
    }
    if repeat == RepeatMode::One {
        return TransportAction::Restart { playing: was_playing };
    }
    let last = if len > 0 { len - 1 } else { 0 };
    if repeat == RepeatMode::Off && shuffle {
        if len == 0 {
            TransportAction::GenerateQueue { playing: was_playing }
        } else if index < last {
            TransportAction::Select { index: index + 1, playing: was_playing }
        } else {
            TransportAction::GenerateQueue { playing: was_playing }
        }
    } else if index < last {
        TransportAction::Select { index: index + 1, playing: was_playing }
    } else if repeat == RepeatMode::All && len > 0 {
        TransportAction::Select { index: 0, playing: was_playing }
    } else {
        TransportAction::Stay
    }
}

/// The previous button: one entry back, never wrapping.
pub open spec fn prev_button_spec(is_radio: bool, was_playing: bool, index: usize, len: usize) -> TransportAction {
    if !is_radio && index > 0 && index - 1 < len {
        TransportAction::Select { index: (index - 1) as usize, playing: was_playing }
    } else {
        TransportAction::Stay
    }
}

pub fn prev_button_action(is_radio: bool, was_playing: bool, index: usize, len: usize) -> (r: TransportAction)
    ensures
        r == prev_button_spec(is_radio, was_playing, index, len),
{
    if !is_radio && index > 0 && index - 1 < len {
        TransportAction::Select { index: index - 1, playing: was_playing }
    } else {
        TransportAction::Stay
    }
}

/// The previous button of the song-details panel: one entry back, never
/// wrapping, never for a live stream; the song then plays.
pub open spec fn details_prev_spec(is_live: bool, index: usize, len: usize) -> TransportAction {
    if !is_live && index > 0 && index - 1 < len {
        TransportAction::Select { index: (index - 1) as usize, playing: true }
    } else {
        TransportAction::Stay
    }
}

pub fn details_prev_action(is_live: bool, index: usize, len: usize) -> (r: TransportAction)
    ensures
        r == details_prev_spec(is_live, index, len),
{
    if !is_live && index > 0 && index - 1 < len {
        TransportAction::Select { index: index - 1, playing: true }
    } else {
        TransportAction::Stay
    }
}

/// The next button of the song-details panel: repeat-one restarts the
/// track; with repeat off, at the end of the queue (or with none) a new
/// queue is generated; otherwise one entry forward, wrapping under repeat
/// all; never for a live stream.
pub open spec fn details_next_spec(is_live: bool, was_playing: bool, repeat: RepeatMode, index: usize, len: usize) -> TransportAction {
    if is_live {
        TransportAction::Stay
    } else if repeat == RepeatMode::One {
        TransportAction::Restart { playing: was_playing }
    } else if repeat == RepeatMode::Off && (len == 0 || index + 1 >= len) {
        TransportAction::GenerateQueue { playing: was_playing }
    } else if index + 1 < len {
        TransportAction::Select { index: (index + 1) as usize, playing: true }
    } else if repeat == RepeatMode::All && len > 0 {
        TransportAction::Select { index: 0, playing: true }
    } else {
        TransportAction::Stay
    }
}

pub fn details_next_action(is_live: bool, was_playing: bool, repeat: RepeatMode, index: usize, len: usize) -> (r: TransportAction)
    ensures
        r == details_next_spec(is_live, was_playing, repeat, index, len),
{
    if is_live {
        return TransportAction::Stay;
    }
    if repeat == RepeatMode::One {
        return TransportAction::Restart { playing: was_playing };
    }
    let last = if len > 0 { len - 1 } else { 0 };
    if repeat == RepeatMode::Off && (len == 0 || index >= last) {
        TransportAction::GenerateQueue { playing: was_playing }
    } else if index < last {
        TransportAction::Select { index: index + 1, playing: true }
    } else if repeat == RepeatMode::All && len > 0 {
        TransportAction::Select { index: 0, playing: true }
    } else {
        TransportAction::Stay
    }
}

/// Whether the song-details panel offers a previous and a next track.
pub fn details_can_skip(is_live: bool, index: usize, len: usize, repeat: RepeatMode, has_song: bool) -> (r: (bool, bool))
    ensures
        r.0 == (!is_live && index > 0),
        r.1 == (!is_live && (index + 1 < len || (repeat == RepeatMode::All && len > 0) || repeat == RepeatMode::Off
            || (repeat == RepeatMode::One && has_song))),
{
    let can_prev = !is_live && index > 0;
    let can_next = !is_live && ((index < usize::MAX && index + 1 < len) || (repeat == RepeatMode::All && len > 0)
        || repeat == RepeatMode::Off || (repeat == RepeatMode::One && has_song));
    (can_prev, can_next)
}

/// The loop button of the song-details panel toggles repeat-one.
pub fn details_loop_mode(mode: RepeatMode) -> (r: RepeatMode)
    ensures
        r == (if mode == RepeatMode::One { RepeatMode::Off } else { RepeatMode::One }),
{
    match mode {
        RepeatMode::One => RepeatMode::Off,
        _ => RepeatMode::One,
    }
}

/// A command from the system's media controls.
#[derive(Debug)]
pub enum RemoteCommand {
    TogglePlay,
    Play,
    Pause,
    Next,
    Previous,
    Ended,
    /// A seek; holds the text after `seek:` (a number of seconds).
    Seek { target: String },
    Unknown,
}

/// Reads an action name as the native players report it.
pub open spec fn remote_command_spec(action: Seq<char>) -> RemoteCommand {
    if action == "toggle_play"@ || action == "playpause"@ {
        RemoteCommand::TogglePlay
    } else if action == "play"@ {
        RemoteCommand::Play
    } else if action == "pause"@ {
        RemoteCommand::Pause
    } else if action == "next"@ {
        RemoteCommand::Next
    } else if action == "previous"@ {
        RemoteCommand::Previous
    } else if action == "ended"@ {
        RemoteCommand::Ended
    } else {
        RemoteCommand::Unknown
    }
}

/// The action starts with `seek:`.
pub open spec fn is_seek_action(action: Seq<char>) -> bool {
    action.len() >= 5 && action.take(5) == "seek:"@
}

pub fn parse_remote_command(action: &str) -> (r: RemoteCommand)
    ensures
        is_seek_action(action@) ==> (r matches RemoteCommand::Seek { target } && target@ == action@.skip(5)),
        !is_seek_action(action@) ==> r == remote_command_spec(action@),
{
    proof {
        reveal_strlit("seek:");
    }
    if str_starts_with(action, "seek:") {
        let n = action.unicode_len();
        let rest = action.substring_char(5, n);
        return RemoteCommand::Seek { target: String::from_str(rest) };
    }
    if str_eq(action, "toggle_play") || str_eq(action, "playpause") {
        RemoteCommand::TogglePlay
    } else if str_eq(action, "play") {
        RemoteCommand::Play
    } else if str_eq(action, "pause") {
        RemoteCommand::Pause
    } else if str_eq(action, "next") {
        RemoteCommand::Next
    } else if str_eq(action, "previous") {
        RemoteCommand::Previous
    } else if str_eq(action, "ended") {
        RemoteCommand::Ended
    } else {
        RemoteCommand::Unknown
    }
}

/// A remote "next": a skip always resumes playback.
pub open spec fn remote_next_spec(is_radio: bool, repeat: RepeatMode, shuffle: bool, index: usize, len: usize) -> TransportAction {
    if is_radio {
        TransportAction::Stay
    } else if len == 0 {
        TransportAction::GenerateQueue { playing: true }
    } else if repeat == RepeatMode::Off && shuffle {
        if index + 1 < len {
            TransportAction::Select { index: (index + 1) as usize, playing: true }
        } else {
            TransportAction::GenerateQueue { playing: true }
        }
    } else if index + 1 < len {
        TransportAction::Select { index: (index + 1) as usize, playing: true }
    } else if repeat == RepeatMode::All {
        TransportAction::Select { index: 0, playing: true }
    } else if len <= 1 {
        TransportAction::GenerateQueue { playing: true }
    } else {
        TransportAction::Restart { playing: false }
    }
}

/// A remote "previous": one entry back, wrapping to the end under repeat
/// all, otherwise back to the start of the track.
pub open spec fn remote_previous_spec(is_radio: bool, repeat: RepeatMode, index: usize, len: usize) -> TransportAction {
    if is_radio || len == 0 {
        TransportAction::Stay
    } else if index > 0 {
        if index - 1 < len {
            TransportAction::Select { index: (index - 1) as usize, playing: true }
        } else {
            TransportAction::Stay
        }
    } else if repeat == RepeatMode::All {
        TransportAction::Select { index: (len - 1) as usize, playing: true }
    } else {
        TransportAction::Restart { playing: true }
    }
}

/// The decision for one remote command while a song is selected
/// (`currently_playing` is the play state after the poll's sync).
pub open spec fn remote_action_spec(
    command: RemoteCommand,
    is_radio: bool,
    currently_playing: bool,
    repeat: RepeatMode,
    shuffle: bool,
    index: usize,
    len: usize,
) -> TransportAction {
    match command {
        RemoteCommand::TogglePlay => TransportAction::SetPlaying { playing: !currently_playing },
        RemoteCommand::Play => TransportAction::SetPlaying { playing: true },
        RemoteCommand::Pause => TransportAction::SetPlaying { playing: false },
        RemoteCommand::Next => remote_next_spec(is_radio, repeat, shuffle, index, len),
        RemoteCommand::Previous => remote_previous_spec(is_radio, repeat, index, len),
        _ => TransportAction::Stay,
    }
}

pub fn remote_action(
    command: &RemoteCommand,
    is_radio: bool,
    currently_playing: bool,
    repeat: RepeatMode,
    shuffle: bool,
    index: usize,
    len: usize,
) -> (r: TransportAction)
    ensures
        r == remote_action_spec(*command, is_radio, currently_playing, repeat, shuffle, index, len),
{
    let last = if len > 0 { len - 1 } else { 0 };
    match command {
        RemoteCommand::TogglePlay => TransportAction::SetPlaying { playing: !currently_playing },
        RemoteCommand::Play => TransportAction::SetPlaying { playing: true },
        RemoteCommand::Pause => TransportAction::SetPlaying { playing: false },
        RemoteCommand::Next => {
            if is_radio {
                TransportAction::Stay
            } else if len == 0 {
                TransportAction::GenerateQueue { playing: true }
            } else if repeat == RepeatMode::Off && shuffle {
                if index < last {
                    TransportAction::Select { index: index + 1, playing: true }
                } else {
                    TransportAction::GenerateQueue { playing: true }
                }
            } else if index < last {
                TransportAction::Select { index: index + 1, playing: true }
            } else if repeat == RepeatMode::All {
                TransportAction::Select { index: 0, playing: true }
            } else if len <= 1 {
                TransportAction::GenerateQueue { playing: true }
            } else {
                TransportAction::Restart { playing: false }
            }
        },
        RemoteCommand::Previous => {
            if is_radio || len == 0 {
                TransportAction::Stay
            } else if index > 0 {
                if index - 1 < len {
                    TransportAction::Select { index: index - 1, playing: true }
                } else {
                    TransportAction::Stay
                }
            } else if repeat == RepeatMode::All {
                TransportAction::Select { index: len - 1, playing: true }
            } else {
                TransportAction::Restart { playing: true }
            }
        },
        _ => TransportAction::Stay,
    }
}

} // verus!
verus! {

/// What to do when the player reports that the current track ended.
#[derive(Debug, Clone, Copy, PartialEq, Eq, Structural)]
pub struct EndedOutcome {
    /// Report the track as listened to the end.
    pub scrobble: bool,
    pub action: TransportAction,
}

/// Remembers which song last ended and which song repeat-one already
/// replayed, so that each end is handled once and repeat-one replays a
/// track exactly once.
#[derive(Debug)]
pub struct EndedTracker {
    pub last_ended_song: Option<String>,
    pub repeat_one_replayed_song: Option<String>,
}

/// The decision once an end has been accepted: `replayed` is the song
/// repeat-one already replayed. Answers the action and the new value of
/// `replayed`.
pub open spec fn ended_action_spec(
    current: Option<Seq<char>>,
    replayed: Option<Seq<char>>,
    is_playing: bool,
    repeat: RepeatMode,
    shuffle: bool,
    index: usize,
    len: usize,
) -> (TransportAction, Option<Seq<char>>) {
    if repeat == RepeatMode::One {
        match current {
            Some(id) => if replayed != Some(id) {
                (TransportAction::Restart { playing: is_playing }, Some(id))
            } else {
                (TransportAction::SetPlaying { playing: false }, None)
            },
            None => (TransportAction::SetPlaying { playing: false }, replayed),
        }
    } else if len == 0 {
        (TransportAction::SetPlaying { playing: false }, replayed)
    } else if repeat == RepeatMode::Off && shuffle {
        if index + 1 < len {
            (TransportAction::Select { index: (index + 1) as usize, playing: true }, replayed)
        } else {
            (TransportAction::GenerateQueue { playing: true }, replayed)
        }
    } else if index + 1 < len {
        (TransportAction::Select { index: (index + 1) as usize, playing: true }, replayed)
    } else if repeat == RepeatMode::All {
        (TransportAction::Select { index: 0, playing: true }, replayed)
    } else {
        (TransportAction::SetPlaying { playing: false }, replayed)
    }
}

/// One reported end, over the song that last ended, the song repeat-one
/// already replayed and the song selected: the outcome and the two songs
/// remembered after it. An end already handled for the same song is
/// ignored; in preview playback nothing follows; otherwise the track is
/// scrobbled (when a song is selected) and the queue moves on as
/// `ended_action_spec` says. Leaving repeat-one forgets the replayed song.
pub open spec fn ended_step(
    last: Option<Seq<char>>,
    replayed: Option<Seq<char>>,
    current: Option<Seq<char>>,
    preview: bool,
    is_playing: bool,
    repeat: RepeatMode,
    shuffle: bool,
    index: usize,
    len: usize,
) -> (EndedOutcome, Option<Seq<char>>, Option<Seq<char>>) {
    if last == current {
        (EndedOutcome { scrobble: false, action: TransportAction::Stay }, last, replayed)
    } else {
        let kept = if repeat != RepeatMode::One { None } else { replayed };
        let (action, replayed_after) = ended_action_spec(current, kept, is_playing, repeat, shuffle, index, len);
        if current is Some && preview {
            (EndedOutcome { scrobble: false, action: TransportAction::Stay }, current, kept)
        } else {
            (EndedOutcome { scrobble: current is Some, action }, current, replayed_after)
        }
    }
}

impl EndedTracker {
    pub fn new() -> (r: EndedTracker)
        ensures
            r.last_ended_song is None,
            r.repeat_one_replayed_song is None,
    {
        EndedTracker { last_ended_song: None, repeat_one_replayed_song: None }
    }

    /// The poll saw no end: the next end of any song counts again.
    pub fn on_not_ended(&mut self)
        ensures
            final(self).last_ended_song is None,
            final(self).repeat_one_replayed_song == old(self).repeat_one_replayed_song,
    {
        self.last_ended_song = None;
    }

    /// The player reported an end while `current_id` was selected. An end
    /// already handled for the same song is ignored; in preview playback
    /// nothing follows; otherwise the track is scrobbled (when a song is
    /// selected) and the queue moves on as `ended_action_spec` says.
    pub fn on_ended(
        &mut self,
        current_id: &Option<String>,
        preview: bool,
        is_playing: bool,
        repeat: RepeatMode,
        shuffle: bool,
        index: usize,
        len: usize,
    ) -> (r: EndedOutcome)
        ensures
            (
                r,
                crate::model::opt_view(final(self).last_ended_song),
                crate::model::opt_view(final(self).repeat_one_replayed_song),
            ) == ended_step(
                crate::model::opt_view(old(self).last_ended_song),
                crate::model::opt_view(old(self).repeat_one_replayed_song),
                crate::model::opt_view(*current_id),
                preview,
                is_playing,
                repeat,
                shuffle,
                index,
                len,
            ),
    {
        if crate::model::opt_string_eq(&self.last_ended_song, current_id) {
            return EndedOutcome { scrobble: false, action: TransportAction::Stay };
        }
        self.last_ended_song = crate::model::clone_opt_string(current_id);
        if repeat != RepeatMode::One && self.repeat_one_replayed_song.is_some() {
            self.repeat_one_replayed_song = None;
        }
        let scrobble = current_id.is_some();
        if scrobble && preview {
            return EndedOutcome { scrobble: false, action: TransportAction::Stay };
        }
        let last = if len > 0 { len - 1 } else { 0 };
        let action = if repeat == RepeatMode::One {
            match current_id {
                Some(id) => {
                    let already = match &self.repeat_one_replayed_song {
                        Some(r) => *r == *id,
                        None => false,
                    };
                    if !already {
                        self.repeat_one_replayed_song = Some(id.clone());
                        TransportAction::Restart { playing: is_playing }
                    } else {
                        self.repeat_one_replayed_song = None;
                        TransportAction::SetPlaying { playing: false }
                    }
                },
                None => TransportAction::SetPlaying { playing: false },
            }
        } else if len == 0 {
            TransportAction::SetPlaying { playing: false }
        } else if repeat == RepeatMode::Off && shuffle {
            if index < last {
                TransportAction::Select { index: index + 1, playing: true }
            } else {
                TransportAction::GenerateQueue { playing: true }
            }
        } else if index < last {
            TransportAction::Select { index: index + 1, playing: true }
        } else if repeat == RepeatMode::All {
            TransportAction::Select { index: 0, playing: true }
        } else {
            TransportAction::SetPlaying { playing: false }
        };
        EndedOutcome { scrobble, action }
    }
}

/// Smooths the play state reported by a native player: a selected song is
/// taken as stopped after three paused polls in a row (and only once past
/// the first moments of the track), and as playing after two playing polls.
#[derive(Debug, Clone, Copy)]
pub struct PlayStateSync {
    pub paused_streak: u8,
    pub playing_streak: u8,
}

pub open spec fn sat_inc(x: u8) -> u8 {
    if x == 255 { 255 } else { (x + 1) as u8 }
}

/// One poll: with a song selected the streaks count the paused and the
/// playing polls in a row; three paused polls report a playing song as
/// stopped (past the first moments of the track, and unless it ended), two
/// playing polls report a stopped song as playing. With no song selected
/// the streaks restart and playback is reported stopped.
pub open spec fn observed(
    s: PlayStateSync,
    has_song: bool,
    paused: bool,
    ended: bool,
    is_playing: bool,
    past_startup: bool,
) -> (PlayStateSync, Option<bool>) {
    if has_song {
        let next = if paused {
            PlayStateSync { paused_streak: sat_inc(s.paused_streak), playing_streak: 0 }
        } else {
            PlayStateSync { paused_streak: 0, playing_streak: sat_inc(s.playing_streak) }
        };
        let r = if is_playing && next.paused_streak >= 3 && !ended {
            if past_startup { Some(false) } else { None }
        } else if !is_playing && next.playing_streak >= 2 {
            Some(true)
        } else {
            None
        };
        (next, r)
    } else {
        (PlayStateSync { paused_streak: 0, playing_streak: 0 }, if is_playing { Some(false) } else { None })
    }
}

impl PlayStateSync {
    pub fn new() -> (r: PlayStateSync)
        ensures
            r.paused_streak == 0 && r.playing_streak == 0,
    {
        PlayStateSync { paused_streak: 0, playing_streak: 0 }
    }

    /// Takes one poll. Answers the new play state, or `None` when it stays.
    pub fn observe(
        &mut self,
        has_song: bool,
        paused: bool,
        ended: bool,
        is_playing: bool,
        past_startup: bool,
    ) -> (r: Option<bool>)
        ensures
            (*final(self), r) == observed(*old(self), has_song, paused, ended, is_playing, past_startup),
    {
        if has_song {
            if paused {
                self.paused_streak = self.paused_streak.saturating_add(1);
                self.playing_streak = 0;
            } else {
                self.playing_streak = self.playing_streak.saturating_add(1);
                self.paused_streak = 0;
            }
            if is_playing && self.paused_streak >= 3 && !ended {
                if past_startup {
                    Some(false)
                } else {
                    None
                }
            } else if !is_playing && self.playing_streak >= 2 {
                Some(true)
            } else {
                None
            }
        } else {
            self.paused_streak = 0;
            self.playing_streak = 0;
            if is_playing {
                Some(false)
            } else {
                None
            }
        }
    }
}

/// Minimum distance between two automatic bookmarks of the same song while
/// it plays.
pub const PLAYING_BOOKMARK_GAP_MS: u64 = 15000;

/// Minimum distance between two automatic bookmarks of the same song when
/// playback pauses.
pub const PAUSED_BOOKMARK_GAP_MS: u64 = 2000;

/// A bookmark is saved once past the first 1.5 s, unless the last one was
/// for the same song less than `min_gap_ms` away.
pub open spec fn bookmark_due_spec(last: Option<(Seq<char>, u64)>, song_id: Seq<char>, position_ms: u64, min_gap_ms: u64) -> bool {
    position_ms > 1500 && match last {
        Some((id, pos)) => id != song_id || (if pos >= position_ms { pos - position_ms } else { position_ms - pos }) >= min_gap_ms,
        None => true,
    }
}

pub fn bookmark_due(last: &Option<(String, u64)>, song_id: &String, position_ms: u64, min_gap_ms: u64) -> (r: bool)
    ensures
        r == bookmark_due_spec(match last {
            Some((id, pos)) => Some((id@, *pos)),
            None => None,
        }, song_id@, position_ms, min_gap_ms),
{
    if position_ms <= 1500 {
        return false;
    }
    match last {
        Some((id, pos)) => {
            let diff = if *pos >= position_ms { *pos - position_ms } else { position_ms - *pos };
            *id != *song_id || diff >= min_gap_ms
        },
        None => true,
    }
}

/// The number of bookmarks the server keeps, from the setting, within 1..=5000.
pub fn bookmark_limit(setting: u32) -> (r: usize)
    ensures
        r == (if setting < 1 { 1 } else if setting > 5000 { 5000 } else { setting as int }),
{
    if setting < 1 {
        1
    } else if setting > 5000 {
        5000
    } else {
        setting as usize
    }
}

} // verus!
