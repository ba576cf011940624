//! Where a song's audio and artwork come from, what the system's
//! now-playing display shows for it, and the messages shown when it cannot
//! be played.
use vstd::prelude::*;

use crate::model::{find_server_index, is_radio, opt_view, song_is_radio, ServerConfig, Song};
use crate::text::{chars_eq_ignore_ascii_case, chars_of, eq_ignore_ascii_case, is_blank, push_decimal, trim, trim_bounds, trimmed, decimal};

verus! {

/// The text is present and not only white space.
pub open spec fn has_text(o: Option<String>) -> bool {
    o matches Some(s) && trim(s@).len() > 0
}

fn opt_has_text(o: &Option<String>) -> (r: bool)
    ensures
        r == has_text(*o),
{
    match o {
        Some(s) => !is_blank(s.as_str()),
        None => false,
    }
}

/// Where to fetch a song's audio from.
#[derive(Debug)]
pub enum StreamSource {
    /// A copy stored on this device.
    Cached { url: String },
    /// A station's own stream address.
    Direct { url: String },
    /// The stream of song `song_id` on server `server_index`.
    Server { server_index: usize, song_id: String },
}

/// The source a song plays from: a local copy first; nothing else offline;
/// a station's own address for radio; otherwise the song's server, when it
/// is configured and the song has an id.
pub open spec fn stream_source_spec(
    song: Song,
    servers: Seq<ServerConfig>,
    offline_mode: bool,
    cached_url: Option<String>,
    r: Option<StreamSource>,
) -> bool {
    if cached_url is Some {
        r matches Some(StreamSource::Cached { url }) && url == cached_url->0
    } else if offline_mode {
        r is None
    } else if is_radio(song) {
        if has_text(song.stream_url) {
            r matches Some(StreamSource::Direct { url }) && url == song.stream_url->0
        } else {
            r is None
        }
    } else if trim(song.id@).len() == 0 {
        r is None
    } else {
        match r {
            Some(StreamSource::Server { server_index, song_id }) => {
                &&& server_index < servers.len()
                &&& servers[server_index as int].id@ == song.server_id@
                &&& forall|j: int| 0 <= j < server_index ==> servers[j].id@ != song.server_id@
                &&& song_id@ == trim(song.id@)
            },
            None => forall|j: int| 0 <= j < servers.len() ==> servers[j].id@ != song.server_id@,
            _ => false,
        }
    }
}

/// Resolves where `song` plays from. `cached_url` is the address of a copy
/// stored on this device, if there is one (the web build has none and is
/// never offline).
pub fn resolve_stream_url(
    song: &Song,
    servers: &Vec<ServerConfig>,
    offline_mode: bool,
    cached_url: Option<String>,
) -> (r: Option<StreamSource>)
    ensures
        stream_source_spec(*song, servers@, offline_mode, cached_url, r),
{
    if let Some(url) = cached_url {
        return Some(StreamSource::Cached { url });
    }
    if offline_mode {
        return None;
    }
    if song_is_radio(song) {
        return match &song.stream_url {
            Some(url) => if !is_blank(url.as_str()) {
                Some(StreamSource::Direct { url: url.clone() })
            } else {
                None
            },
            None => None,
        };
    }
    let song_id = trimmed(song.id.as_str());
    if song_id.as_str().unicode_len() == 0 {
        return None;
    }
    match find_server_index(servers, &song.server_id) {
        Some(server_index) => Some(StreamSource::Server { server_index, song_id }),
        None => None,
    }
}

/// A bookmark can be kept on the server only for a server song with an id.
pub open spec fn can_save_bookmark_spec(song: Song) -> bool {
    !is_radio(song) && trim(song.id@).len() > 0 && trim(song.server_id@).len() > 0
}

pub fn can_save_server_bookmark(song: &Song) -> (r: bool)
    ensures
        r == can_save_bookmark_spec(*song),
{
    !song_is_radio(song) && !is_blank(song.id.as_str()) && !is_blank(song.server_id.as_str())
}

/// A live stream: a radio station, or any song with its own stream address.
pub open spec fn is_live_spec(song: Song) -> bool {
    is_radio(song) || has_text(song.stream_url)
}

pub fn is_live_song(song: &Song) -> (r: bool)
    ensures
        r == is_live_spec(*song),
{
    song_is_radio(song) || opt_has_text(&song.stream_url)
}

/// Cover art to fetch: image `cover_art` at `size` pixels from server
/// `server_index`.
#[derive(Debug)]
pub struct CoverArtRequest {
    pub server_index: usize,
    pub cover_art: String,
    pub size: u32,
}

/// A song's cover art comes from its own server, when that server is
/// configured and the song names an image.
pub fn song_cover_url(song: &Song, servers: &Vec<ServerConfig>, size: u32) -> (r: Option<CoverArtRequest>)
    ensures
        match r {
            Some(req) => {
                &&& req.server_index < servers@.len()
                &&& servers@[req.server_index as int].id@ == song.server_id@
                &&& forall|j: int| 0 <= j < req.server_index ==> servers@[j].id@ != song.server_id@
                &&& song.cover_art == Some(req.cover_art)
                &&& req.size == size
            },
            None => song.cover_art is None || forall|j: int| 0 <= j < servers@.len() ==> servers@[j].id@ != song.server_id@,
        },
{
    let server_index = find_server_index(servers, &song.server_id)?;
    let cover_art = match &song.cover_art {
        Some(c) => c.clone(),
        None => return None,
    };
    Some(CoverArtRequest { server_index, cover_art, size })
}

/// What the system's now-playing display shows for a track.
#[derive(Debug)]
pub struct NativeTrackMetadata {
    pub title: String,
    pub artist: String,
    pub album: String,
    pub artwork: Option<String>,
    /// Length in whole seconds.
    pub duration: u32,
    pub is_live: bool,
}

impl Clone for NativeTrackMetadata {
    fn clone(&self) -> (r: Self)
        ensures
            r == *self,
    {
        NativeTrackMetadata {
            title: self.title.clone(),
            artist: self.artist.clone(),
            album: self.album.clone(),
            artwork: crate::model::clone_opt_string(&self.artwork),
            duration: self.duration,
            is_live: self.is_live,
        }
    }
}

/// The text is present and not empty.
pub open spec fn non_empty(o: Option<String>) -> bool {
    o matches Some(s) && s@.len() > 0
}

/// The display title: a station still called "Unknown Song" shows its
/// artist line instead (or "Unknown Song" when it has none).
pub open spec fn metadata_title(song: Song) -> Seq<char> {
    if is_radio(song) && eq_ignore_ascii_case(trim(song.title@), "unknown song"@) {
        if non_empty(song.artist) { song.artist->0@ } else { "Unknown Song"@ }
    } else {
        song.title@
    }
}

pub open spec fn metadata_artist(song: Song) -> Seq<char> {
    if non_empty(song.artist) {
        song.artist->0@
    } else if is_radio(song) {
        "Internet Radio"@
    } else {
        "Unknown Artist"@
    }
}

/// The album line: "LIVE" for a station, else the album (or "Unknown
/// Album") followed by the year in parentheses when it is known.
pub open spec fn metadata_album(song: Song) -> Seq<char> {
    if is_radio(song) {
        "LIVE"@
    } else {
        let base = if non_empty(song.album) { song.album->0@ } else { "Unknown Album"@ };
        match song.year {
            Some(y) => base + " ("@ + decimal(y as nat) + ")"@,
            None => base,
        }
    }
}

fn non_empty_exec(o: &Option<String>) -> (r: bool)
    ensures
        r == non_empty(*o),
{
    match o {
        Some(s) => s.as_str().unicode_len() > 0,
        None => false,
    }
}

/// The now-playing metadata of `song`; `artwork` is the address of its
/// cover art, when it has one.
pub fn song_metadata(song: &Song, artwork: Option<String>) -> (r: NativeTrackMetadata)
    ensures
        r.title@ == metadata_title(*song),
        r.artist@ == metadata_artist(*song),
        r.album@ == metadata_album(*song),
        r.artwork == artwork,
        r.duration == song.duration,
        r.is_live == is_radio(*song),
{
    let is_live = song_is_radio(song);
    proof {
        reveal_strlit("unknown song");
    }
    let title_chars = chars_of(song.title.as_str());
    let (start, end) = trim_bounds(&title_chars);
    let trimmed_title = chars_of(song.title.as_str().substring_char(start, end));
    let unknown = chars_of("unknown song");
    let title = if is_live && chars_eq_ignore_ascii_case(&trimmed_title, &unknown) {
        if non_empty_exec(&song.artist) {
            match &song.artist {
                Some(a) => a.clone(),
                None => String::new(),
            }
        } else {
            String::from_str("Unknown Song")
        }
    } else {
        song.title.clone()
    };
    let artist = if non_empty_exec(&song.artist) {
        match &song.artist {
            Some(a) => a.clone(),
            None => String::new(),
        }
    } else if is_live {
        String::from_str("Internet Radio")
    } else {
        String::from_str("Unknown Artist")
    };
    let album = if is_live {
        String::from_str("LIVE")
    } else {
        let mut base = if non_empty_exec(&song.album) {
            match &song.album {
                Some(a) => a.clone(),
                None => String::new(),
            }
        } else {
            String::from_str("Unknown Album")
        };
        if let Some(year) = song.year {
            base.append(" (");
            push_decimal(&mut base, year);
            base.append(")");
        }
        base
    };
    NativeTrackMetadata { title, artist, album, artwork, duration: song.duration, is_live }
}

/// The message shown when a song has no playable source.
pub fn unresolved_source_message(song: &Song) -> (r: String)
    ensures
        r@ == (if is_radio(*song) {
            "No station found: this station has no stream URL."@
        } else {
            "Unable to load this audio source."@
        }),
{
    if song_is_radio(song) {
        String::from_str("No station found: this station has no stream URL.")
    } else {
        String::from_str("Unable to load this audio source.")
    }
}

/// The name a failing station is called by: its album line, else its
/// artist line, when that is not blank; otherwise "this station".
pub open spec fn station_name(song: Song) -> Seq<char> {
    let name = if song.album is Some { song.album } else { song.artist };
    if has_text(name) { name->0@ } else { "this station"@ }
}

/// The message for a media error code reported by the browser's audio
/// element (1 aborted, 2 network, 3 decode, 4 unsupported source).
pub open spec fn playback_error_text(code: u16, song: Option<Song>) -> Seq<char> {
    let radio = song matches Some(s) && is_radio(s);
    let name = match song {
        Some(s) => station_name(s),
        None => "this station"@,
    };
    if code == 1 {
        "Playback was aborted before the stream loaded."@
    } else if code == 2 {
        if radio {
            "No station found: \""@ + name + "\" is unreachable right now."@
        } else {
            "Network error while loading this track."@
        }
    } else if code == 3 {
        "Audio playback failed due to a decode error."@
    } else if code == 4 {
        if radio {
            "No station found: \""@ + name + "\" has no supported stream source."@
        } else {
            "Failed to load audio because no supported source was found."@
        }
    } else if radio {
        "No station found: \""@ + name + "\" could not be loaded."@
    } else {
        "Unable to load this audio source."@
    }
}

pub fn playback_error_message(code: u16, song: Option<&Song>) -> (r: String)
    ensures
        r@ == playback_error_text(code, match song {
            Some(s) => Some(*s),
            None => None,
        }),
{
    let radio = match song {
        Some(s) => song_is_radio(s),
        None => false,
    };
    let name = match song {
        Some(s) => {
            let candidate = if s.album.is_some() { &s.album } else { &s.artist };
            if opt_has_text(candidate) {
                match candidate {
                    Some(c) => c.clone(),
                    None => String::new(),
                }
            } else {
                String::from_str("this station")
            }
        },
        None => String::from_str("this station"),
    };
    if code == 1 {
        String::from_str("Playback was aborted before the stream loaded.")
    } else if code == 2 {
        if radio {
            let mut m = String::from_str("No station found: \"");
            m.append(name.as_str());
            m.append("\" is unreachable right now.");
            m
        } else {
            String::from_str("Network error while loading this track.")
        }
    } else if code == 3 {
        String::from_str("Audio playback failed due to a decode error.")
    } else if code == 4 {
        if radio {
            let mut m = String::from_str("No station found: \"");
            m.append(name.as_str());
            m.append("\" has no supported stream source.");
            m
        } else {
            String::from_str("Failed to load audio because no supported source was found.")
        }
    } else if radio {
        let mut m = String::from_str("No station found: \"");
        m.append(name.as_str());
        m.append("\" could not be loaded.");
        m
    } else {
        String::from_str("Unable to load this audio source.")
    }
}

} // verus!
verus! {

/// Every `%20` replaced by a space, scanning from the left (`str::replace`).
pub open spec fn decode_spaces(s: Seq<char>) -> Seq<char>
    decreases s.len(),
{
    if s.len() >= 3 && s[0] == '%' && s[1] == '2' && s[2] == '0' {
        seq![' '] + decode_spaces(s.skip(3))
    } else if s.len() > 0 {
        seq![s[0]] + decode_spaces(s.skip(1))
    } else {
        s
    }
}

/// The local path of a `file://` address: what follows the scheme, with a
/// leading `/` added when missing and `%20` decoded to spaces; `None` for
/// any other address.
pub open spec fn file_path_spec(src: Seq<char>) -> Option<Seq<char>> {
    if src.len() >= 7 && src.take(7) == "file://"@ {
        let raw = src.skip(7);
        let normalized = if raw.len() > 0 && raw[0] == '/' { raw } else { seq!['/'] + raw };
        Some(decode_spaces(normalized))
    } else {
        None
    }
}

pub fn ios_file_path_from_url(src: &str) -> (r: Option<String>)
    ensures
        match r {
            Some(p) => file_path_spec(src@) == Some(p@),
            None => file_path_spec(src@) is None,
        },
{
    proof {
        reveal_strlit("file://");
    }
    if !crate::text::str_starts_with(src, "file://") {
        return None;
    }
    let chars = chars_of(src);
    let n = chars.len();
    let mut normalized: Vec<char> = Vec::new();
    if !(n > 7 && chars[7] == '/') {
        normalized.push('/');
    }
    let mut k: usize = 7;
    while k < n
        invariant
            7 <= k <= n,
            n == src@.len(),
            chars@ == src@,
            normalized@ == (if n > 7 && src@[7] == '/' { Seq::<char>::empty() } else { seq!['/'] }) + src@.subrange(7, k as int),
        decreases n - k,
    {
        normalized.push(chars[k]);
        assert(src@.subrange(7, k + 1) =~= src@.subrange(7, k as int).push(chars@[k as int]));
        k += 1;
    }
    proof {
        let raw = src@.skip(7);
        assert(src@.subrange(7, n as int) =~= raw);
        if n > 7 && src@[7] == '/' {
            assert(raw[0] == '/');
            assert(normalized@ =~= raw);
        } else {
            assert(normalized@ =~= seq!['/'] + raw);
        }
    }
    let ghost norm = normalized@;
    let m = normalized.len();
    let mut out: Vec<char> = Vec::new();
    let mut i: usize = 0;
    assert(norm.skip(0) =~= norm);
    while i < m
        invariant
            i <= m,
            m == norm.len(),
            normalized@ == norm,
            out@ + decode_spaces(norm.skip(i as int)) == decode_spaces(norm),
        decreases m - i,
    {
        let ghost rest = norm.skip(i as int);
        if m - i > 2 && normalized[i] == '%' && normalized[i + 1] == '2' && normalized[i + 2] == '0' {
            proof {
                assert(rest[0] == '%' && rest[1] == '2' && rest[2] == '0');
                assert(rest.skip(3) =~= norm.skip(i + 3));
                assert(out@.push(' ') + decode_spaces(norm.skip(i + 3)) =~= out@ + decode_spaces(rest));
            }
            out.push(' ');
            i += 3;
        } else {
            proof {
                assert(rest[0] == normalized@[i as int]);
                assert(!(rest.len() >= 3 && rest[0] == '%' && rest[1] == '2' && rest[2] == '0'));
                assert(rest.skip(1) =~= norm.skip(i + 1));
                assert(out@.push(normalized@[i as int]) + decode_spaces(norm.skip(i + 1)) =~= out@ + decode_spaces(rest));
            }
            out.push(normalized[i]);
            i += 1;
        }
    }
    proof {
        assert(norm.skip(m as int).len() == 0);
        assert(out@ + decode_spaces(norm.skip(m as int)) =~= out@);
    }
    Some(crate::text::string_from_chars(&out))
}

} // verus!
