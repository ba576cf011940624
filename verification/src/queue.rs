//! Queue editing: manual normalisation, locating a queued instance, moving
//! and removing entries, and selecting a song to play.
use vstd::prelude::*;

use crate::model::{is_same_track, same_track, QueueSongMeta, Song};

verus! {

/// The song without its collection provenance.
pub open spec fn without_meta(song: Song) -> Song {
    Song { queue_meta: None, ..song }
}

/// A song added by hand is no longer part of the collection it came from.
pub fn normalize_song_for_manual_queue(song: Song) -> (r: Song)
    ensures
        r == without_meta(song),
{
    let mut song = song;
    song.queue_meta = None;
    song
}

/// Drops the collection provenance of every song.
pub fn normalize_manual_queue_songs(songs: Vec<Song>) -> (r: Vec<Song>)
    ensures
        r@.len() == songs@.len(),
        forall|i: int| 0 <= i < songs@.len() ==> r@[i] == without_meta(songs@[i]),
{
    let mut out: Vec<Song> = Vec::new();
    let mut rest = songs;
    let ghost original = rest@;
    let mut i: usize = 0;
    let n = rest.len();
    while i < n
        invariant
            n == original.len(),
            i <= n,
            rest@ == original,
            out@.len() == i,
            forall|j: int| 0 <= j < i ==> out@[j] == without_meta(original[j]),
        decreases n - i,
    {
        let song = rest[i].clone();
        out.push(normalize_song_for_manual_queue(song));
        i += 1;
    }
    out
}

/// The two songs are the same queued instance: both carry provenance with
/// equal group, position and source.
pub open spec fn meta_matches(song: Song, meta: QueueSongMeta) -> bool {
    match song.queue_meta {
        Some(m) => m.group_id@ == meta.group_id@ && m.source_position == meta.source_position
            && m.source_id@ == meta.source_id@,
        None => false,
    }
}

/// `r` is the first index of `q` whose song satisfies `p`, or `None` when no
/// song does.
pub open spec fn first_index_where(q: Seq<Song>, p: spec_fn(Song) -> bool, r: Option<usize>) -> bool {
    match r {
        Some(i) => i < q.len() && p(q[i as int]) && forall|j: int| 0 <= j < i ==> !p(q[j]),
        None => forall|j: int| 0 <= j < q.len() ==> !p(q[j]),
    }
}

pub open spec fn meta_pred(meta: QueueSongMeta) -> spec_fn(Song) -> bool {
    |s: Song| meta_matches(s, meta)
}

pub open spec fn track_pred(target: Song) -> spec_fn(Song) -> bool {
    |s: Song| same_track(s, target)
}

pub open spec fn id_pred(id: Seq<char>) -> spec_fn(Song) -> bool {
    |s: Song| s.id@ == id
}

/// Where `target` sits in `q`: the entry with the same provenance when
/// there is one, otherwise the first entry of the same track.
pub open spec fn is_instance_index(q: Seq<Song>, target: Song, r: Option<usize>) -> bool {
    match target.queue_meta {
        Some(m) => if exists|j: int| 0 <= j < q.len() && meta_matches(q[j], m) {
            first_index_where(q, meta_pred(m), r)
        } else {
            first_index_where(q, track_pred(target), r)
        },
        None => first_index_where(q, track_pred(target), r),
    }
}

pub fn meta_matches_exec(song: &Song, meta: &QueueSongMeta) -> (r: bool)
    ensures
        r == meta_matches(*song, *meta),
{
    match &song.queue_meta {
        Some(m) => m.group_id == meta.group_id && m.source_position == meta.source_position
            && m.source_id == meta.source_id,
        None => false,
    }
}

fn position_with_meta(q: &Vec<Song>, meta: &QueueSongMeta) -> (r: Option<usize>)
    ensures
        first_index_where(q@, meta_pred(*meta), r),
{
    let mut i: usize = 0;
    while i < q.len()
        invariant
            i <= q.len(),
            forall|j: int| 0 <= j < i ==> !meta_matches(q@[j], *meta),
        decreases q.len() - i,
    {
        if meta_matches_exec(&q[i], meta) {
            return Some(i);
        }
        i += 1;
    }
    None
}

fn position_of_track(q: &Vec<Song>, target: &Song) -> (r: Option<usize>)
    ensures
        first_index_where(q@, track_pred(*target), r),
{
    let mut i: usize = 0;
    while i < q.len()
        invariant
            i <= q.len(),
            forall|j: int| 0 <= j < i ==> !same_track(q@[j], *target),
        decreases q.len() - i,
    {
        if is_same_track(&q[i], target) {
            return Some(i);
        }
        i += 1;
    }
    None
}

/// `queue.iter().position(|s| s.id == id)`.
pub fn position_of_id(q: &Vec<Song>, id: &String) -> (r: Option<usize>)
    ensures
        first_index_where(q@, id_pred(id@), r),
{
    let mut i: usize = 0;
    while i < q.len()
        invariant
            i <= q.len(),
            forall|j: int| 0 <= j < i ==> q@[j].id@ != id@,
        decreases q.len() - i,
    {
        if q[i].id == *id {
            return Some(i);
        }
        i += 1;
    }
    None
}

/// Finds the queued instance of `target`: by provenance first, then by track.
pub fn find_song_instance_index(queue: &Vec<Song>, target: &Song) -> (r: Option<usize>)
    ensures
        is_instance_index(queue@, *target, r),
{
    if let Some(meta) = &target.queue_meta {
        let with_meta = position_with_meta(queue, meta);
        if with_meta.is_some() {
            return with_meta;
        }
    }
    position_of_track(queue, target)
}

/// Selects `song` for playback, keeping the queue and the song playing
/// aligned: the selection moves to the first queued entry of the same track
/// (same id, same server); when the queue does not hold the track, the
/// queue is replaced by the song alone.
pub fn play_song(
    song: Song,
    now_playing: &mut Option<Song>,
    queue: &mut Vec<Song>,
    queue_index: &mut usize,
    is_playing: &mut bool,
)
    ensures
        exists|r: Option<usize>|
            first_index_where(old(queue)@, track_pred(song), r) && match r {
                Some(i) => final(queue)@ == old(queue)@ && *final(queue_index) == i,
                None => final(queue)@ == seq![song] && *final(queue_index) == 0,
            },
        *final(now_playing) == Some(song),
        *final(is_playing),
        *final(queue_index) < final(queue)@.len(),
        final(queue)@[*final(queue_index) as int].id@ == song.id@,
        final(queue)@[*final(queue_index) as int].server_id@ == song.server_id@,
{
    let pos = position_of_track(queue, &song);
    match pos {
        Some(p) => {
            *queue_index = p;
            *now_playing = Some(song);
        },
        None => {
            let mut fresh: Vec<Song> = Vec::new();
            fresh.push(song.clone());
            *queue = fresh;
            *queue_index = 0;
            *now_playing = Some(song);
        },
    }
    *is_playing = true;
}

} // verus!
verus! {

/// The song is the one playing: same id and same server.
pub open spec fn is_now_playing(now_playing: Option<Song>, song: Song) -> bool {
    now_playing matches Some(c) && same_track(c, song)
}

/// The play button of the song-details panel: for the song playing it
/// toggles the play state; any other song is selected and played, from its
/// queued entry (same id and server) or appended to the queue.
pub fn toggle_selected_playback(
    song: &Song,
    queue: &mut Vec<Song>,
    queue_index: &mut usize,
    now_playing: &mut Option<Song>,
    is_playing: &mut bool,
)
    ensures
        if is_now_playing(*old(now_playing), *song) {
            &&& final(queue)@ == old(queue)@
            &&& *final(queue_index) == *old(queue_index)
            &&& *final(now_playing) == *old(now_playing)
            &&& *final(is_playing) == !*old(is_playing)
        } else {
            &&& exists|r: Option<usize>|
                first_index_where(old(queue)@, track_pred(*song), r) && match r {
                    Some(i) => final(queue)@ == old(queue)@ && *final(queue_index) == i,
                    None => final(queue)@ == old(queue)@.push(*song) && *final(queue_index)
                        == old(queue)@.len(),
                }
            &&& *final(now_playing) == Some(*song)
            &&& *final(is_playing)
        },
{
    let selected = match now_playing {
        Some(c) => is_same_track(c, song),
        None => false,
    };
    if selected {
        *is_playing = !*is_playing;
        return;
    }
    let found = position_of_track(queue, song);
    let index = match found {
        Some(i) => i,
        None => {
            queue.push(song.clone());
            queue.len() - 1
        },
    };
    *queue_index = index;
    *now_playing = Some(song.clone());
    *is_playing = true;
}

/// Whether the details panel shows `song` as a favourite: the mark of its
/// queued entry (same id and server) when there is one, else of the song
/// playing when it is this song, else the song's own mark.
pub open spec fn selected_favorited_spec(song: Song, q: Seq<Song>, now_playing: Option<Song>) -> bool {
    if exists|j: int| 0 <= j < q.len() && same_track(q[j], song) {
        q[choose|j: int| 0 <= j < q.len() && same_track(q[j], song) && forall|m: int| 0 <= m < j ==> !same_track(q[m], song)].starred is Some
    } else if is_now_playing(now_playing, song) {
        now_playing->0.starred is Some
    } else {
        song.starred is Some
    }
}

pub fn selected_song_favorited(song: &Song, queue: &Vec<Song>, now_playing: &Option<Song>) -> (r: bool)
    ensures
        r == selected_favorited_spec(*song, queue@, *now_playing),
{
    match position_of_track(queue, song) {
        Some(i) => {
            proof {
                let c = choose|j: int| 0 <= j < queue@.len() && same_track(queue@[j], *song) && forall|m: int| 0 <= m < j ==> !same_track(queue@[m], *song);
                assert(track_pred(*song)(queue@[i as int]));
                if c < i {
                    assert(!track_pred(*song)(queue@[c]));
                } else if i < c {
                    assert(same_track(queue@[i as int], *song));
                }
            }
            queue[i].starred.is_some()
        },
        None => {
            proof {
                if exists|j: int| 0 <= j < queue@.len() && same_track(queue@[j], *song) {
                    let j = choose|j: int| 0 <= j < queue@.len() && same_track(queue@[j], *song);
                    assert(!track_pred(*song)(queue@[j]));
                }
            }
            match now_playing {
                Some(c) => if is_same_track(c, song) {
                    c.starred.is_some()
                } else {
                    song.starred.is_some()
                },
                None => song.starred.is_some(),
            }
        },
    }
}

/// Where the current entry lands after the entry at `source` moved to
/// `target`.
pub open spec fn adjusted_index_spec(current: usize, source: usize, target: usize) -> int {
    if source == current {
        target as int
    } else if source < current && target >= current {
        if current == 0 { 0 } else { current - 1 }
    } else if source > current && target <= current {
        if current == usize::MAX { current as int } else { current + 1 }
    } else {
        current as int
    }
}

pub fn adjusted_queue_index_after_reorder(current_index: usize, source_index: usize, target_index: usize) -> (r: usize)
    ensures
        r == adjusted_index_spec(current_index, source_index, target_index),
{
    if source_index == current_index {
        target_index
    } else if source_index < current_index && target_index >= current_index {
        current_index.saturating_sub(1)
    } else if source_index > current_index && target_index <= current_index {
        current_index.saturating_add(1)
    } else {
        current_index
    }
}

/// The queue after the entry at `source` is taken out and put back at `target`.
pub open spec fn moved_entry(q: Seq<Song>, source: int, target: int) -> Seq<Song> {
    q.remove(source).insert(target, q[source])
}

/// A move is carried out only on a queue of two or more entries, with both
/// positions inside the queue and different from each other.
pub open spec fn reorder_applies(len: int, source: usize, target: usize) -> bool {
    len >= 2 && source < len && target < len && source != target
}

/// Moves the entry at `source_index` to `target_index`, keeping the
/// selection on the entry that was current and re-reading the song that
/// is now playing from the queue.
pub fn reorder_queue_entry(
    queue: &mut Vec<Song>,
    queue_index: &mut usize,
    now_playing: &mut Option<Song>,
    source_index: usize,
    target_index: usize,
)
    ensures
        if reorder_applies(old(queue)@.len() as int, source_index, target_index) {
            let q = moved_entry(old(queue)@, source_index as int, target_index as int);
            let next = adjusted_index_spec(*old(queue_index), source_index, target_index);
            let clamped = if next < q.len() - 1 { next } else { q.len() - 1 };
            &&& final(queue)@ == q
            &&& *final(queue_index) == clamped
            &&& *final(now_playing) == (if old(now_playing).is_some() {
                Some(q[clamped])
            } else {
                None
            })
        } else {
            &&& final(queue)@ == old(queue)@
            &&& *final(queue_index) == *old(queue_index)
            &&& *final(now_playing) == *old(now_playing)
        },
{
    let current_index = *queue_index;
    let len = queue.len();
    if len < 2 || source_index >= len || target_index >= len || source_index == target_index {
        return;
    }
    let moved = queue.remove(source_index);
    queue.insert(target_index, moved);
    let next_index = adjusted_queue_index_after_reorder(current_index, source_index, target_index);
    let last = queue.len() - 1;
    let clamped = if next_index < last { next_index } else { last };
    *queue_index = clamped;
    if now_playing.is_some() {
        *now_playing = Some(queue[clamped].clone());
    }
}

/// The index selected after the entry at `removed` left a queue that now
/// holds `len > 0` entries.
pub open spec fn index_after_removal(current: usize, removed: usize, len: int) -> int {
    if removed < current {
        current - 1
    } else if removed == current {
        if removed < len - 1 { removed as int } else { len - 1 }
    } else {
        if current < len - 1 { current as int } else { len - 1 }
    }
}

/// Removes the entry at `remove_index`. An emptied queue stops playback;
/// otherwise the selection stays on the same entry when another one was
/// removed, or moves to the entry that took the removed one's place. The
/// song playing is re-read from the queue (none when the selection lies
/// past its end, which only a selection already out of range can cause).
pub fn remove_queue_entry(
    queue: &mut Vec<Song>,
    queue_index: &mut usize,
    now_playing: &mut Option<Song>,
    is_playing: &mut bool,
    remove_index: usize,
)
    ensures
        if remove_index >= old(queue)@.len() {
            &&& final(queue)@ == old(queue)@
            &&& *final(queue_index) == *old(queue_index)
            &&& *final(now_playing) == *old(now_playing)
            &&& *final(is_playing) == *old(is_playing)
        } else if old(queue)@.len() == 1 {
            &&& final(queue)@.len() == 0
            &&& *final(queue_index) == 0
            &&& *final(now_playing) == None::<Song>
            &&& !*final(is_playing)
        } else {
            let q = old(queue)@.remove(remove_index as int);
            let next = index_after_removal(*old(queue_index), remove_index, q.len() as int);
            &&& final(queue)@ == q
            &&& *final(queue_index) == next
            &&& *final(now_playing) == (if old(now_playing).is_some() && next < q.len() {
                Some(q[next])
            } else {
                None
            })
            &&& *final(is_playing) == *old(is_playing)
        },
{
    let had_now_playing = now_playing.is_some();
    let was_playing = *is_playing;
    let current_index = *queue_index;
    if remove_index >= queue.len() {
        return;
    }
    queue.remove(remove_index);
    if queue.len() == 0 {
        *queue_index = 0;
        *now_playing = None;
        *is_playing = false;
        return;
    }
    let last = queue.len() - 1;
    let mut next_index = if current_index < last { current_index } else { last };
    if remove_index < current_index {
        next_index = current_index - 1;
    } else if remove_index == current_index {
        next_index = if remove_index < last { remove_index } else { last };
    }
    *queue_index = next_index;
    if had_now_playing {
        *now_playing = if next_index < queue.len() {
            Some(queue[next_index].clone())
        } else {
            None
        };
        *is_playing = was_playing;
    }
}

} // verus!
