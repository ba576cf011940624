//! Keeping the selection, the audio source and the prefetch list in step
//! with the song playing.
use vstd::prelude::*;

use crate::model::{same_track, Song};
use crate::queue::{first_index_where, id_pred, position_of_id, track_pred};

verus! {

/// The selection follows the song playing: when the queue holds a song with
/// its id, the first such entry is selected; otherwise the selection stays.
pub fn aligned_queue_index(queue: &Vec<Song>, now_playing: &Option<Song>, current: usize) -> (r: usize)
    ensures
        match now_playing {
            Some(s) => exists|o: Option<usize>|
                first_index_where(queue@, id_pred(s.id@), o) && r == match o {
                    Some(i) => i,
                    None => current,
                },
            None => r == current,
        },
{
    match now_playing {
        Some(s) => match position_of_id(queue, &s.id) {
            Some(i) => i,
            None => current,
        },
        None => current,
    }
}

/// The first index in `lo..hi` whose song is downloaded.
pub open spec fn first_downloaded_in(downloaded: Seq<bool>, lo: int, hi: int, r: Option<usize>) -> bool {
    match r {
        Some(i) => lo <= i < hi && downloaded[i as int] && forall|j: int| lo <= j < i ==> !downloaded[j],
        None => forall|j: int| lo <= j < hi ==> !downloaded[j],
    }
}

fn first_downloaded(downloaded: &Vec<bool>, lo: usize, hi: usize) -> (r: Option<usize>)
    requires
        hi <= downloaded@.len(),
    ensures
        first_downloaded_in(downloaded@, lo as int, hi as int, r),
{
    let mut i = lo;
    while i < hi
        invariant
            lo <= i || hi <= i,
            hi <= downloaded@.len(),
            forall|j: int| lo <= j < i && j < hi ==> !downloaded@[j],
        decreases hi - i,
    {
        if downloaded[i] {
            return Some(i);
        }
        i += 1;
    }
    None
}

/// `found` is where the song sits in the queue (else the selection, kept
/// within the queue, stands for it); `after` is the first downloaded entry
/// after that position; the fallback is `after`, or else the first
/// downloaded entry up to and including that position.
pub open spec fn offline_fallback_spec(
    q: Seq<Song>,
    song: Song,
    queue_index: usize,
    downloaded: Seq<bool>,
    found: Option<usize>,
    after: Option<usize>,
    r: Option<usize>,
) -> bool {
    let current: int = match found {
        Some(i) => i as int,
        None => if queue_index < q.len() - 1 { queue_index as int } else { q.len() - 1 },
    };
    &&& first_index_where(q, track_pred(song), found)
    &&& first_downloaded_in(downloaded, current + 1, q.len() as int, after)
    &&& if after is Some {
        r == after
    } else {
        first_downloaded_in(downloaded, 0, current + 1, r)
    }
}

/// In offline mode, when the selected song cannot be played, the queue
/// skips to the next downloaded entry after it, or else to the first
/// downloaded entry up to and including it. `downloaded[i]` tells whether
/// entry `i` is stored locally.
pub fn offline_fallback_index(
    queue: &Vec<Song>,
    song: &Song,
    queue_index: usize,
    downloaded: &Vec<bool>,
) -> (r: Option<usize>)
    requires
        downloaded@.len() == queue@.len(),
    ensures
        queue@.len() == 0 ==> r is None,
        queue@.len() > 0 ==> exists|found: Option<usize>, after: Option<usize>|
            #[trigger] offline_fallback_spec(queue@, *song, queue_index, downloaded@, found, after, r),
{
    let len = queue.len();
    if len == 0 {
        return None;
    }
    let mut found: Option<usize> = None;
    let mut i: usize = 0;
    while i < len
        invariant_except_break
            found is None,
        invariant
            len == queue@.len(),
            i <= len,
            forall|j: int| 0 <= j < i ==> !same_track(queue@[j], *song),
        ensures
            first_index_where(queue@, track_pred(*song), found),
        decreases len - i,
    {
        if crate::model::is_same_track(&queue[i], song) {
            found = Some(i);
            break;
        }
        i += 1;
    }
    let current = match found {
        Some(i) => i,
        None => if queue_index < len - 1 { queue_index } else { len - 1 },
    };
    let after = first_downloaded(downloaded, current + 1, len);
    if after.is_some() {
        assert(offline_fallback_spec(queue@, *song, queue_index, downloaded@, found, after, after));
        return after;
    }
    let r = first_downloaded(downloaded, 0, current + 1);
    assert(offline_fallback_spec(queue@, *song, queue_index, downloaded@, found, after, r));
    r
}

/// Songs worth caching ahead: the song playing, then up to three queue
/// entries from the selection on, skipping tracks already listed.
pub open spec fn prefetch_spec(seeds: Seq<Song>, candidates: Seq<Song>) -> Seq<Song>
    decreases candidates.len(),
{
    if candidates.len() == 0 {
        seeds
    } else {
        let c = candidates[0];
        let next = if exists|j: int| 0 <= j < seeds.len() && same_track(seeds[j], c) {
            seeds
        } else {
            seeds.push(c)
        };
        prefetch_spec(next, candidates.drop_first())
    }
}

/// The queue entries from `start` on, at most `n` of them.
pub open spec fn window(q: Seq<Song>, start: int, n: int) -> Seq<Song> {
    let lo = if start < q.len() { start } else { q.len() as int };
    let hi = if lo + n < q.len() { lo + n } else { q.len() as int };
    q.subrange(lo, hi)
}

pub fn prefetch_seeds(now_playing: &Option<Song>, queue: &Vec<Song>, current_index: usize) -> (r: Vec<Song>)
    ensures
        r@ == prefetch_spec(
            match now_playing {
                Some(s) => seq![*s],
                None => Seq::<Song>::empty(),
            },
            window(queue@, current_index as int, 3),
        ),
{
    let mut seeds: Vec<Song> = Vec::new();
    if let Some(s) = now_playing {
        seeds.push(s.clone());
    }
    let len = queue.len();
    let lo = if current_index < len { current_index } else { len };
    let hi = if lo < len && len - lo > 3 { lo + 3 } else { len };
    let ghost target = prefetch_spec(seeds@, window(queue@, current_index as int, 3));
    let mut i = lo;
    proof {
        assert(window(queue@, current_index as int, 3) =~= queue@.subrange(lo as int, hi as int));
    }
    while i < hi
        invariant
            lo <= i <= hi <= len,
            len == queue@.len(),
            prefetch_spec(seeds@, queue@.subrange(i as int, hi as int)) == target,
        decreases hi - i,
    {
        let c = &queue[i];
        let mut seen = false;
        let mut j: usize = 0;
        while j < seeds.len()
            invariant_except_break
                !seen,
            invariant
                j <= seeds@.len(),
                forall|m: int| 0 <= m < j ==> !same_track(seeds@[m], *c),
            ensures
                seen == exists|m: int| 0 <= m < seeds@.len() && same_track(seeds@[m], *c),
            decreases seeds@.len() - j,
        {
            if crate::model::is_same_track(&seeds[j], c) {
                seen = true;
                break;
            }
            j += 1;
        }
        proof {
            let rest = queue@.subrange(i as int, hi as int);
            assert(rest[0] == *c);
            assert(rest.drop_first() =~= queue@.subrange(i + 1, hi as int));
        }
        if !seen {
            seeds.push(c.clone());
        }
        i += 1;
    }
    proof {
        assert(queue@.subrange(hi as int, hi as int).len() == 0);
    }
    seeds
}

/// What a change of the song playing sends to the player.
#[derive(Debug, Clone, Copy, PartialEq, Eq, Structural)]
pub enum SourceCommand {
    /// Load the new source.
    Load,
    /// The source is already loaded; only seek.
    Seek,
    /// The source is already loaded; only refresh the track's metadata.
    Metadata,
}

pub fn source_command(url: &String, last_src: &Option<String>, has_requested_seek: bool) -> (r: SourceCommand)
    ensures
        r == (if last_src.is_none() || last_src->0@ != url@ {
            SourceCommand::Load
        } else if has_requested_seek {
            SourceCommand::Seek
        } else {
            SourceCommand::Metadata
        }),
{
    let reload = match last_src {
        Some(s) => *s != *url,
        None => true,
    };
    if reload {
        SourceCommand::Load
    } else if has_requested_seek {
        SourceCommand::Seek
    } else {
        SourceCommand::Metadata
    }
}

/// A pending seek request applies to the song when it names that song.
pub fn requested_seek_applies(request_song_id: &Option<String>, song_id: &String) -> (r: bool)
    ensures
        r == (request_song_id.is_some() && request_song_id->0@ == song_id@),
{
    match request_song_id {
        Some(id) => *id == *song_id,
        None => false,
    }
}

} // verus!
verus! {

/// The name of an AVPlayer time-control status, as the diagnostics log
/// writes it.
pub fn time_control_status_name(status: i64) -> (r: &'static str)
    ensures
        r@ == (if status == 0 {
            "paused"@
        } else if status == 1 {
            "waiting"@
        } else if status == 2 {
            "playing"@
        } else {
            "unknown"@
        }),
{
    match status {
        0 => "paused",
        1 => "waiting",
        2 => "playing",
        _ => "unknown",
    }
}

/// The name of an AVPlayer item status, as the diagnostics log writes it.
pub fn item_status_name(status: i64) -> (r: &'static str)
    ensures
        r@ == (if status == 0 {
            "unknown"@
        } else if status == 1 {
            "ready"@
        } else if status == 2 {
            "failed"@
        } else {
            "n/a"@
        }),
{
    match status {
        0 => "unknown",
        1 => "ready",
        2 => "failed",
        _ => "n/a",
    }
}

} // verus!
