//! Changes that follow a server's answer: favourites and ratings copied to
//! every queued instance of a track, related songs gathered without
//! repeats, and freshly generated shuffle queues.
use vstd::prelude::*;

use crate::model::{is_same_track, same_track, Song};
use crate::queue::without_meta;

verus! {

/// Entry `s` is song `song_id` on server `server_id`.
pub open spec fn is_track(s: Song, song_id: Seq<char>, server_id: Seq<char>) -> bool {
    s.id@ == song_id && s.server_id@ == server_id
}

/// After the server confirmed a (un)favourite: the song playing and every
/// queued instance of the track carry the new mark ("local" when starred).
pub fn apply_favorite_update(
    now_playing: &mut Option<Song>,
    queue: &mut Vec<Song>,
    song_id: &String,
    server_id: &String,
    should_star: bool,
)
    ensures
        ({
            let starred = if should_star { Some("local"@) } else { None };
            &&& match *old(now_playing) {
                Some(s) => if is_track(s, song_id@, server_id@) {
                    (*final(now_playing)) matches Some(f) && f == (Song { starred: f.starred, ..s })
                        && crate::model::opt_view(f.starred) == starred
                } else {
                    *final(now_playing) == Some(s)
                },
                None => (*final(now_playing)) is None,
            }
            &&& final(queue)@.len() == old(queue)@.len()
            &&& forall|i: int| 0 <= i < old(queue)@.len() ==> if is_track(old(queue)@[i], song_id@, server_id@) {
                final(queue)@[i] == (Song { starred: final(queue)@[i].starred, ..old(queue)@[i] })
                    && crate::model::opt_view(final(queue)@[i].starred) == starred
            } else {
                final(queue)@[i] == old(queue)@[i]
            }
        }),
{
    if let Some(current) = now_playing {
        if current.id == *song_id && current.server_id == *server_id {
            current.starred = if should_star { Some(String::from_str("local")) } else { None };
        }
    }
    let mut i: usize = 0;
    while i < queue.len()
        invariant
            i <= queue@.len(),
            queue@.len() == old(queue)@.len(),
            forall|j: int| i <= j < queue@.len() ==> queue@[j] == old(queue)@[j],
            forall|j: int| 0 <= j < i ==> if is_track(old(queue)@[j], song_id@, server_id@) {
                queue@[j] == (Song { starred: queue@[j].starred, ..old(queue)@[j] })
                    && crate::model::opt_view(queue@[j].starred) == (if should_star { Some("local"@) } else { None::<Seq<char>> })
            } else {
                queue@[j] == old(queue)@[j]
            },
        decreases queue@.len() - i,
    {
        if queue[i].id == *song_id && queue[i].server_id == *server_id {
            let mut entry = queue[i].clone();
            entry.starred = if should_star { Some(String::from_str("local")) } else { None };
            queue.set(i, entry);
        }
        i += 1;
    }
}

/// A rating is at most five stars.
pub fn normalized_rating(rating: u32) -> (r: u32)
    ensures
        r == (if rating < 5 { rating } else { 5 }),
{
    if rating < 5 { rating } else { 5 }
}

/// The stored rating: none for zero stars.
pub open spec fn rating_value(rating: u32) -> Option<u32> {
    if rating == 0 { None } else { Some(rating) }
}

/// After the server confirmed a rating given from the song-details panel
/// (already normalised to 0..=5): the song playing and every queued
/// instance of the track (same id, same server) carry it.
pub fn apply_rating_update(
    now_playing: &mut Option<Song>,
    queue: &mut Vec<Song>,
    song_id: &String,
    server_id: &String,
    rating: u32,
)
    ensures
        match *old(now_playing) {
            Some(s) => if is_track(s, song_id@, server_id@) {
                *final(now_playing) == Some(Song { user_rating: rating_value(rating), ..s })
            } else {
                *final(now_playing) == Some(s)
            },
            None => (*final(now_playing)) is None,
        },
        final(queue)@.len() == old(queue)@.len(),
        forall|i: int| 0 <= i < old(queue)@.len() ==> final(queue)@[i] == if is_track(old(queue)@[i], song_id@, server_id@) {
            Song { user_rating: rating_value(rating), ..old(queue)@[i] }
        } else {
            old(queue)@[i]
        },
{
    let value = if rating == 0 { None } else { Some(rating) };
    if let Some(current) = now_playing {
        if current.id == *song_id && current.server_id == *server_id {
            current.user_rating = value;
        }
    }
    let mut i: usize = 0;
    while i < queue.len()
        invariant
            i <= queue@.len(),
            value == rating_value(rating),
            queue@.len() == old(queue)@.len(),
            forall|j: int| i <= j < queue@.len() ==> queue@[j] == old(queue)@[j],
            forall|j: int| 0 <= j < i ==> queue@[j] == if is_track(old(queue)@[j], song_id@, server_id@) {
                Song { user_rating: rating_value(rating), ..old(queue)@[j] }
            } else {
                old(queue)@[j]
            },
        decreases queue@.len() - i,
    {
        if queue[i].id == *song_id && queue[i].server_id == *server_id {
            let mut entry = queue[i].clone();
            entry.user_rating = value;
            queue.set(i, entry);
        }
        i += 1;
    }
}

/// After the server confirmed a rating given from the player bar (already
/// normalised to 0..=5): the song playing and every queued entry with the
/// song's id carry it, whatever their server.
pub fn apply_player_rating_update(now_playing: &mut Option<Song>, queue: &mut Vec<Song>, song_id: &String, rating: u32)
    ensures
        match *old(now_playing) {
            Some(s) => if s.id@ == song_id@ {
                *final(now_playing) == Some(Song { user_rating: rating_value(rating), ..s })
            } else {
                *final(now_playing) == Some(s)
            },
            None => (*final(now_playing)) is None,
        },
        final(queue)@.len() == old(queue)@.len(),
        forall|i: int| 0 <= i < old(queue)@.len() ==> final(queue)@[i] == if old(queue)@[i].id@ == song_id@ {
            Song { user_rating: rating_value(rating), ..old(queue)@[i] }
        } else {
            old(queue)@[i]
        },
{
    let value = if rating == 0 { None } else { Some(rating) };
    if let Some(current) = now_playing {
        if current.id == *song_id {
            current.user_rating = value;
        }
    }
    let mut i: usize = 0;
    while i < queue.len()
        invariant
            i <= queue@.len(),
            value == rating_value(rating),
            queue@.len() == old(queue)@.len(),
            forall|j: int| i <= j < queue@.len() ==> queue@[j] == old(queue)@[j],
            forall|j: int| 0 <= j < i ==> queue@[j] == if old(queue)@[j].id@ == song_id@ {
                Song { user_rating: rating_value(rating), ..old(queue)@[j] }
            } else {
                old(queue)@[j]
            },
        decreases queue@.len() - i,
    {
        if queue[i].id == *song_id {
            let mut entry = queue[i].clone();
            entry.user_rating = value;
            queue.set(i, entry);
        }
        i += 1;
    }
}

/// After the server confirmed a (un)favourite given from the player bar:
/// the song playing carries the new mark ("local" when starred) when it
/// has the song's id; the queue is left as it is.
pub fn apply_player_favorite_update(now_playing: &mut Option<Song>, song_id: &String, should_star: bool)
    ensures
        match *old(now_playing) {
            Some(s) => if s.id@ == song_id@ {
                (*final(now_playing)) matches Some(f) && f == (Song { starred: f.starred, ..s })
                    && crate::model::opt_view(f.starred) == (if should_star { Some("local"@) } else { None })
            } else {
                *final(now_playing) == Some(s)
            },
            None => (*final(now_playing)) is None,
        },
{
    if let Some(current) = now_playing {
        if current.id == *song_id {
            current.starred = if should_star { Some(String::from_str("local")) } else { None };
        }
    }
}

/// Takes candidates in order, skipping tracks already in `list` (and the
/// `excluded` track), until `list` holds `cap` songs.
pub open spec fn extend_tracks(list: Seq<Song>, cands: Seq<Song>, excluded: Option<Song>, cap: nat) -> Seq<Song>
    decreases cands.len(),
{
    if cands.len() == 0 {
        list
    } else {
        let c = cands[0];
        let skip = (excluded matches Some(e) && same_track(c, e)) || exists|j: int|
            0 <= j < list.len() && same_track(list[j], c);
        if skip {
            extend_tracks(list, cands.drop_first(), excluded, cap)
        } else if list.len() + 1 >= cap {
            list.push(c)
        } else {
            extend_tracks(list.push(c), cands.drop_first(), excluded, cap)
        }
    }
}

/// No two songs of `s` are the same track.
pub open spec fn tracks_distinct(s: Seq<Song>) -> bool {
    forall|i: int, j: int| 0 <= i < j < s.len() ==> !same_track(s[i], s[j])
}

/// Extending a list keeps it as a prefix, adds no track twice, and stops at
/// `cap` songs.
pub proof fn lemma_extend_tracks(list: Seq<Song>, cands: Seq<Song>, excluded: Option<Song>, cap: nat)
    ensures
        ({
            let r = extend_tracks(list, cands, excluded, cap);
            &&& r.len() >= list.len()
            &&& r.subrange(0, list.len() as int) == list
            &&& (tracks_distinct(list) ==> tracks_distinct(r))
            &&& (list.len() < cap ==> r.len() <= cap)
        }),
    decreases cands.len(),
{
    if cands.len() > 0 {
        let c = cands[0];
        let skip = (excluded matches Some(e) && same_track(c, e)) || exists|j: int|
            0 <= j < list.len() && same_track(list[j], c);
        let pushed = list.push(c);
        if !skip {
            assert(tracks_distinct(list) ==> tracks_distinct(pushed)) by {
                if tracks_distinct(list) {
                    assert forall|i: int, j: int| 0 <= i < j < pushed.len() implies !same_track(pushed[i], pushed[j]) by {
                        if j == list.len() {
                            assert(pushed[i] == list[i]);
                        }
                    }
                }
            }
        }
        if skip {
            lemma_extend_tracks(list, cands.drop_first(), excluded, cap);
        } else if list.len() + 1 >= cap {
            assert(pushed.subrange(0, list.len() as int) =~= list);
        } else {
            lemma_extend_tracks(pushed, cands.drop_first(), excluded, cap);
            let r = extend_tracks(pushed, cands.drop_first(), excluded, cap);
            assert(pushed.subrange(0, list.len() as int) =~= list);
            assert(r.subrange(0, list.len() as int) =~= r.subrange(0, pushed.len() as int).subrange(0, list.len() as int));
        }
    }
    let r = extend_tracks(list, cands, excluded, cap);
    if cands.len() == 0 {
        assert(r.subrange(0, list.len() as int) =~= list);
    }
}

fn contains_track(list: &Vec<Song>, c: &Song) -> (r: bool)
    ensures
        r == exists|j: int| 0 <= j < list@.len() && same_track(list@[j], *c),
{
    let mut j: usize = 0;
    while j < list.len()
        invariant
            j <= list@.len(),
            forall|m: int| 0 <= m < j ==> !same_track(list@[m], *c),
        decreases list@.len() - j,
    {
        if is_same_track(&list[j], c) {
            return true;
        }
        j += 1;
    }
    false
}

/// Appends the candidates that are new tracks (and not `excluded`), until
/// `list` holds `cap` songs.
pub fn extend_unique_tracks(list: &mut Vec<Song>, candidates: Vec<Song>, excluded: Option<&Song>, cap: usize)
    ensures
        final(list)@ == extend_tracks(old(list)@, candidates@, match excluded {
            Some(e) => Some(*e),
            None => None,
        }, cap as nat),
{
    let ghost ex = match excluded {
        Some(e) => Some(*e),
        None => None,
    };
    let ghost target = extend_tracks(list@, candidates@, ex, cap as nat);
    let n = candidates.len();
    let mut i: usize = 0;
    assert(candidates@.skip(0) =~= candidates@);
    while i < n
        invariant_except_break
            i <= n,
            n == candidates@.len(),
            ex == match excluded {
                Some(e) => Some(*e),
                None => None::<Song>,
            },
            extend_tracks(list@, candidates@.skip(i as int), ex, cap as nat) == target,
        ensures
            list@ == target,
        decreases n - i,
    {
        let c = &candidates[i];
        let ghost rest = candidates@.skip(i as int);
        assert(rest[0] == *c);
        assert(rest.drop_first() =~= candidates@.skip(i + 1));
        let is_excluded = match excluded {
            Some(e) => is_same_track(c, e),
            None => false,
        };
        if is_excluded || contains_track(list, c) {
            i += 1;
            continue;
        }
        list.push(c.clone());
        if list.len() >= cap {
            break;
        }
        i += 1;
    }
}

/// The related songs shown for `song`: other tracks, each once, at most 30.
pub fn unique_related_songs(song: &Song, related: Vec<Song>) -> (r: Vec<Song>)
    ensures
        r@ == extend_tracks(Seq::empty(), related@, Some(*song), 30),
{
    let mut unique: Vec<Song> = Vec::new();
    extend_unique_tracks(&mut unique, related, Some(song), 30);
    unique
}

/// A queue seeded from `seed_song`: the seed followed by related tracks
/// (each once, up to 60 songs); when none is found, by random tracks (up
/// to 40 songs).
pub open spec fn seed_queue_spec(seed: Song, related: Seq<Song>, random: Seq<Song>) -> Seq<Song> {
    let q = extend_tracks(seq![seed], related, None, 60);
    if q.len() <= 1 {
        extend_tracks(q, random, None, 40)
    } else {
        q
    }
}

pub fn queue_from_seed(seed_song: Song, related: Vec<Song>, random: Vec<Song>) -> (r: Vec<Song>)
    ensures
        r@ == seed_queue_spec(seed_song, related@, random@),
{
    let mut queue: Vec<Song> = Vec::new();
    queue.push(seed_song);
    extend_unique_tracks(&mut queue, related, None, 60);
    if queue.len() <= 1 {
        extend_unique_tracks(&mut queue, random, None, 40);
    }
    queue
}

/// A shuffle queue from songs already put in random order: the first 50,
/// without collection provenance.
pub fn finish_shuffle_queue(shuffled: Vec<Song>) -> (r: Vec<Song>)
    ensures
        r@.len() == (if shuffled@.len() < 50 { shuffled@.len() } else { 50 }),
        forall|i: int| 0 <= i < r@.len() ==> r@[i] == without_meta(shuffled@[i]),
{
    let mut songs = shuffled;
    songs.truncate(50);
    crate::queue::normalize_manual_queue_songs(songs)
}

/// A generated shuffle queue: the songs found, in random order, at most
/// 50, without collection provenance.
pub fn prepare_shuffle_queue(songs: Vec<Song>) -> (r: Vec<Song>)
    ensures
        r@.len() == (if songs@.len() < 50 { songs@.len() } else { 50 }),
        forall|i: int| 0 <= i < r@.len() ==> exists|j: int| 0 <= j < songs@.len() && #[trigger] r@[i] == without_meta(songs@[j]),
        exists|p: Seq<Song>|
            #[trigger] p.to_multiset() == songs@.to_multiset() && forall|i: int|
                0 <= i < r@.len() ==> r@[i] == without_meta(p[i]),
{
    let mut songs = songs;
    let ghost original = songs@;
    crate::random::shuffle_in_place(&mut songs);
    proof {
        vstd::seq_lib::to_multiset_len(original);
        vstd::seq_lib::to_multiset_len(songs@);
        assert forall|i: int| 0 <= i < songs@.len() implies original.contains(songs@[i]) by {
            vstd::seq_lib::to_multiset_contains(songs@, songs@[i]);
            vstd::seq_lib::to_multiset_contains(original, songs@[i]);
        }
    }
    let ghost shuffled = songs@;
    let r = finish_shuffle_queue(songs);
    proof {
        assert forall|i: int| 0 <= i < r@.len() implies exists|j: int| 0 <= j < original.len() && #[trigger] r@[i] == without_meta(original[j]) by {
            assert(original.contains(shuffled[i]));
            let j = choose|j: int| 0 <= j < original.len() && original[j] == shuffled[i];
            assert(r@[i] == without_meta(original[j]));
        }
    }
    r
}

} // verus!
