//! The data the player works on: songs, their queue provenance, servers and
//! the repeat mode.
use vstd::prelude::*;

use crate::text::str_eq;

verus! {

/// The kind of collection a queued song was taken from.
#[derive(Debug)]
pub enum QueueSourceKind {
    Album,
    Playlist,
    Favorites,
    RandomMix,
    Artist,
}

impl Clone for QueueSourceKind {
    fn clone(&self) -> (r: Self)
        ensures
            r == *self,
    {
        match self {
            QueueSourceKind::Album => QueueSourceKind::Album,
            QueueSourceKind::Playlist => QueueSourceKind::Playlist,
            QueueSourceKind::Favorites => QueueSourceKind::Favorites,
            QueueSourceKind::RandomMix => QueueSourceKind::RandomMix,
            QueueSourceKind::Artist => QueueSourceKind::Artist,
        }
    }
}

/// Where a queued song came from: the collection group it was queued with
/// and its position inside that collection.
#[derive(Debug)]
pub struct QueueSongMeta {
    pub group_id: String,
    pub source_kind: QueueSourceKind,
    pub source_id: String,
    pub source_position: usize,
}

impl Clone for QueueSongMeta {
    fn clone(&self) -> (r: Self)
        ensures
            r == *self,
    {
        QueueSongMeta {
            group_id: self.group_id.clone(),
            source_kind: self.source_kind.clone(),
            source_id: self.source_id.clone(),
            source_position: self.source_position,
        }
    }
}

/// A track as the player sees it. Songs of the internet-radio pseudo server
/// have `server_name == "Radio"`.
#[derive(Debug)]
pub struct Song {
    pub id: String,
    pub server_id: String,
    pub server_name: String,
    pub title: String,
    pub artist: Option<String>,
    pub artist_id: Option<String>,
    pub album: Option<String>,
    pub album_id: Option<String>,
    pub cover_art: Option<String>,
    pub stream_url: Option<String>,
    pub starred: Option<String>,
    pub user_rating: Option<u32>,
    pub year: Option<u32>,
    /// Length in whole seconds (0 when unknown).
    pub duration: u32,
    pub queue_meta: Option<QueueSongMeta>,
}

pub fn clone_opt_string(s: &Option<String>) -> (r: Option<String>)
    ensures
        r == *s,
{
    match s {
        Some(v) => Some(v.clone()),
        None => None,
    }
}

impl Clone for Song {
    fn clone(&self) -> (r: Self)
        ensures
            r == *self,
    {
        Song {
            id: self.id.clone(),
            server_id: self.server_id.clone(),
            server_name: self.server_name.clone(),
            title: self.title.clone(),
            artist: clone_opt_string(&self.artist),
            artist_id: clone_opt_string(&self.artist_id),
            album: clone_opt_string(&self.album),
            album_id: clone_opt_string(&self.album_id),
            cover_art: clone_opt_string(&self.cover_art),
            stream_url: clone_opt_string(&self.stream_url),
            starred: clone_opt_string(&self.starred),
            user_rating: self.user_rating,
            year: self.year,
            duration: self.duration,
            queue_meta: match &self.queue_meta {
                Some(m) => Some(m.clone()),
                None => None,
            },
        }
    }
}

/// A configured music server.
#[derive(Debug)]
pub struct ServerConfig {
    pub id: String,
    pub name: String,
    pub url: String,
    pub active: bool,
}

impl Clone for ServerConfig {
    fn clone(&self) -> (r: Self)
        ensures
            r == *self,
    {
        ServerConfig {
            id: self.id.clone(),
            name: self.name.clone(),
            url: self.url.clone(),
            active: self.active,
        }
    }
}

/// What happens when the queue runs out or a track ends.
#[derive(Debug, Clone, Copy, PartialEq, Eq, Structural)]
pub enum RepeatMode {
    Off,
    All,
    One,
}

/// The song is a live internet-radio station.
pub open spec fn is_radio(song: Song) -> bool {
    song.server_name@ == "Radio"@
}

pub fn song_is_radio(song: &Song) -> (r: bool)
    ensures
        r == is_radio(*song),
{
    str_eq(song.server_name.as_str(), "Radio")
}

/// Two entries are the same track: same id on the same server.
pub open spec fn same_track(a: Song, b: Song) -> bool {
    a.id@ == b.id@ && a.server_id@ == b.server_id@
}

pub fn is_same_track(a: &Song, b: &Song) -> (r: bool)
    ensures
        r == same_track(*a, *b),
{
    a.id == b.id && a.server_id == b.server_id
}

/// `servers.iter().position(|s| s.id == server_id)`.
pub fn find_server_index(servers: &Vec<ServerConfig>, server_id: &String) -> (r: Option<usize>)
    ensures
        match r {
            Some(i) => i < servers.len() && servers@[i as int].id@ == server_id@ && forall|j: int|
                0 <= j < i ==> servers@[j].id@ != server_id@,
            None => forall|j: int| 0 <= j < servers.len() ==> servers@[j].id@ != server_id@,
        },
{
    let mut i: usize = 0;
    while i < servers.len()
        invariant
            i <= servers.len(),
            forall|j: int| 0 <= j < i ==> servers@[j].id@ != server_id@,
        decreases servers.len() - i,
    {
        if servers[i].id == *server_id {
            return Some(i);
        }
        i += 1;
    }
    None
}

} // verus!
verus! {

/// The characters of an optional text.
pub open spec fn opt_view(o: Option<String>) -> Option<Seq<char>> {
    match o {
        Some(s) => Some(s@),
        None => None,
    }
}

/// Whether two optional texts hold the same characters.
pub fn opt_string_eq(a: &Option<String>, b: &Option<String>) -> (r: bool)
    ensures
        r == (opt_view(*a) == opt_view(*b)),
{
    match (a, b) {
        (Some(x), Some(y)) => *x == *y,
        (None, None) => true,
        _ => false,
    }
}

} // verus!
