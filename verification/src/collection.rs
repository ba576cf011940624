//! Collections queued as a group (an album, a playlist, ...): tagging the
//! songs with their provenance, and switching such a group between its
//! original order and a shuffled one.
use vstd::prelude::*;

use crate::model::{QueueSongMeta, QueueSourceKind, Song};
use crate::queue::{find_song_instance_index, first_index_where, is_instance_index};
use crate::text::chars_of;

verus! {

/// Lexicographic order of character sequences by code point (the order of
/// `String`'s `Ord`, which compares UTF-8 bytes).
pub open spec fn lex_le(a: Seq<char>, b: Seq<char>) -> bool
    decreases a.len(),
{
    if a.len() == 0 {
        true
    } else if b.len() == 0 {
        false
    } else if a[0] != b[0] {
        a[0] < b[0]
    } else {
        lex_le(a.drop_first(), b.drop_first())
    }
}

pub proof fn lemma_lex_total(a: Seq<char>, b: Seq<char>)
    ensures
        lex_le(a, b) || lex_le(b, a),
    decreases a.len(),
{
    if a.len() > 0 && b.len() > 0 {
        if a[0] == b[0] {
            lemma_lex_total(a.drop_first(), b.drop_first());
        }
    }
}

pub proof fn lemma_lex_trans(a: Seq<char>, b: Seq<char>, c: Seq<char>)
    requires
        lex_le(a, b),
        lex_le(b, c),
    ensures
        lex_le(a, c),
    decreases a.len(),
{
    if a.len() > 0 && b.len() > 0 && c.len() > 0 && a[0] == b[0] && b[0] == c[0] {
        lemma_lex_trans(a.drop_first(), b.drop_first(), c.drop_first());
    }
}

/// `a <= b` in the order of `String`.
pub fn string_le(a: &String, b: &String) -> (r: bool)
    ensures
        r == lex_le(a@, b@),
{
    let ca = chars_of(a.as_str());
    let cb = chars_of(b.as_str());
    let mut i: usize = 0;
    proof {
        assert(a@.skip(0) =~= a@);
        assert(b@.skip(0) =~= b@);
    }
    while i < ca.len() && i < cb.len() && ca[i] == cb[i]
        invariant
            ca@ == a@,
            cb@ == b@,
            i <= ca.len(),
            i <= cb.len(),
            lex_le(a@, b@) == lex_le(a@.skip(i as int), b@.skip(i as int)),
        decreases ca.len() - i,
    {
        proof {
            let sa = a@.skip(i as int);
            let sb = b@.skip(i as int);
            assert(sa[0] == sb[0]);
            assert(sa.drop_first() =~= a@.skip(i + 1));
            assert(sb.drop_first() =~= b@.skip(i + 1));
        }
        i += 1;
    }
    if i == ca.len() {
        assert(a@.skip(i as int).len() == 0);
        true
    } else if i == cb.len() {
        assert(b@.skip(i as int).len() == 0);
        false
    } else {
        assert(a@.skip(i as int)[0] == ca@[i as int]);
        assert(b@.skip(i as int)[0] == cb@[i as int]);
        ca[i] < cb[i]
    }
}

/// The order in which a collection is played: by position in the
/// collection, then by source id. A song without provenance sorts last.
pub open spec fn sort_key_le(x: Song, y: Song) -> bool {
    let (xp, xs) = match x.queue_meta {
        Some(m) => (m.source_position as int, m.source_id@),
        None => (usize::MAX as int, Seq::<char>::empty()),
    };
    let (yp, ys) = match y.queue_meta {
        Some(m) => (m.source_position as int, m.source_id@),
        None => (usize::MAX as int, Seq::<char>::empty()),
    };
    xp < yp || (xp == yp && lex_le(xs, ys))
}

pub proof fn lemma_key_total(x: Song, y: Song)
    ensures
        sort_key_le(x, y) || sort_key_le(y, x),
{
    let xs = match x.queue_meta { Some(m) => m.source_id@, None => Seq::<char>::empty() };
    let ys = match y.queue_meta { Some(m) => m.source_id@, None => Seq::<char>::empty() };
    lemma_lex_total(xs, ys);
}

pub proof fn lemma_key_trans(x: Song, y: Song, z: Song)
    requires
        sort_key_le(x, y),
        sort_key_le(y, z),
    ensures
        sort_key_le(x, z),
{
    let xs = match x.queue_meta { Some(m) => m.source_id@, None => Seq::<char>::empty() };
    let ys = match y.queue_meta { Some(m) => m.source_id@, None => Seq::<char>::empty() };
    let zs = match z.queue_meta { Some(m) => m.source_id@, None => Seq::<char>::empty() };
    if lex_le(xs, ys) && lex_le(ys, zs) {
        lemma_lex_trans(xs, ys, zs);
    }
}

fn sort_key_le_exec(x: &Song, y: &Song) -> (r: bool)
    ensures
        r == sort_key_le(*x, *y),
{
    let empty = String::new();
    let (xp, xs) = match &x.queue_meta {
        Some(m) => (m.source_position, &m.source_id),
        None => (usize::MAX, &empty),
    };
    let (yp, ys) = match &y.queue_meta {
        Some(m) => (m.source_position, &m.source_id),
        None => (usize::MAX, &empty),
    };
    xp < yp || (xp == yp && string_le(xs, ys))
}

/// `order` lists each of `0..k` exactly once.
pub open spec fn is_slot_order(order: Seq<usize>, k: int) -> bool {
    &&& order.len() == k
    &&& forall|s: int| 0 <= s < k ==> order[s] < k
    &&& order.no_duplicates()
}

/// The slots of `order[lo..hi]` list their songs in collection order.
pub open spec fn sorted_slots(songs: Seq<Song>, order: Seq<usize>, lo: int, hi: int) -> bool {
    forall|s: int, t: int|
        lo <= s < t < hi ==> sort_key_le(songs[order[s] as int], songs[order[t] as int])
}

/// Slots whose songs tie in collection order keep their original order
/// (the sort is stable).
pub open spec fn keeps_ties(songs: Seq<Song>, order: Seq<usize>, lo: int, hi: int) -> bool {
    forall|s: int, t: int|
        lo <= s < t < hi && sort_key_le(songs[order[t] as int], songs[order[s] as int]) ==> order[s] < order[t]
}

fn identity_order(k: usize) -> (r: Vec<usize>)
    ensures
        is_slot_order(r@, k as int),
        forall|s: int| 0 <= s < k ==> r@[s] == s,
{
    let mut r: Vec<usize> = Vec::new();
    let mut i: usize = 0;
    while i < k
        invariant
            i <= k,
            r@.len() == i,
            forall|s: int| 0 <= s < i ==> r@[s] == s,
        decreases k - i,
    {
        r.push(i);
        i += 1;
    }
    r
}

/// A stable ordering of the slots of `songs` by collection order.
pub fn sorted_slot_order(songs: &Vec<Song>) -> (order: Vec<usize>)
    ensures
        is_slot_order(order@, songs@.len() as int),
        sorted_slots(songs@, order@, 0, songs@.len() as int),
        keeps_ties(songs@, order@, 0, songs@.len() as int),
{
    let k = songs.len();
    let mut order = identity_order(k);
    let mut i: usize = 1;
    if k == 0 {
        return order;
    }
    while i < k
        invariant
            1 <= i <= k,
            k == songs@.len(),
            is_slot_order(order@, k as int),
            sorted_slots(songs@, order@, 0, i as int),
            forall|s: int| i <= s < k ==> order@[s] == s,
            forall|s: int| 0 <= s < i ==> order@[s] < i,
            keeps_ties(songs@, order@, 0, i as int),
        decreases k - i,
    {
        let mut j: usize = i;
        while j > 0 && !sort_key_le_exec(&songs[order[j - 1]], &songs[order[j]])
            invariant
                0 <= j <= i < k,
                k == songs@.len(),
                is_slot_order(order@, k as int),
                sorted_slots(songs@, order@, 0, j as int),
                sorted_slots(songs@, order@, j + 1, i + 1),
                forall|a: int, b: int| 0 <= a < j && j < b <= i ==>
                    sort_key_le(songs@[order@[a] as int], songs@[order@[b] as int]),
                forall|b: int| j < b <= i ==>
                    sort_key_le(songs@[order@[j as int] as int], #[trigger] songs@[order@[b] as int]),
                order@[j as int] == i,
                forall|s: int| i < s < k ==> order@[s] == s,
                forall|s: int| 0 <= s <= i && s != j ==> order@[s] < i,
                keeps_ties(songs@, order@, 0, j as int),
                keeps_ties(songs@, order@, j + 1, i + 1),
                forall|a: int, b: int| 0 <= a < j && j < b <= i && sort_key_le(songs@[order@[b] as int], songs@[order@[a] as int])
                    ==> order@[a] < order@[b],
                forall|b: int| j < b <= i ==> !sort_key_le(#[trigger] songs@[order@[b] as int], songs@[order@[j as int] as int]),
            decreases j,
        {
            let ghost before = order@;
            let x = order[j];
            let y = order[j - 1];
            proof {
                lemma_key_total(songs@[y as int], songs@[x as int]);
            }
            order.set(j, y);
            order.set(j - 1, x);
            proof {
                assert(order@ =~= before.update(j as int, y).update(j - 1, x));
                assert forall|s: int, t: int| 0 <= s < k && 0 <= t < k && s != t implies order@[s] != order@[t] by {
                    assert(before.no_duplicates());
                }
                assert forall|a: int, b: int| 0 <= a < j - 1 && j - 1 < b <= i implies
                    sort_key_le(songs@[order@[a] as int], songs@[order@[b] as int]) by {
                    if b == j {
                        assert(order@[b] == before[j - 1]);
                        assert(order@[a] == before[a]);
                    } else {
                        assert(order@[b] == before[b]);
                        assert(order@[a] == before[a]);
                    }
                }
                assert forall|b: int| j - 1 < b <= i implies
                    sort_key_le(songs@[order@[j - 1] as int], #[trigger] songs@[order@[b] as int]) by {
                    if b > j {
                        assert(order@[b] == before[b]);
                    }
                }
                assert forall|s: int, t: int| j <= s < t < i + 1 implies
                    sort_key_le(songs@[order@[s] as int], songs@[order@[t] as int]) by {
                    if s == j {
                        assert(order@[s] == before[j - 1]);
                        assert(order@[t] == before[t]);
                    } else {
                        assert(order@[s] == before[s]);
                        assert(order@[t] == before[t]);
                    }
                }
                assert forall|s: int, t: int| 0 <= s < t < j - 1 implies
                    sort_key_le(songs@[order@[s] as int], songs@[order@[t] as int]) by {
                    assert(order@[s] == before[s]);
                    assert(order@[t] == before[t]);
                }
                assert forall|s: int| 0 <= s <= i && s != j - 1 implies order@[s] < i by {
                    if s == j {
                        assert(order@[s] == before[j - 1]);
                    } else {
                        assert(order@[s] == before[s]);
                    }
                }
                assert forall|s: int, t: int|
                    0 <= s < t < j - 1 && sort_key_le(songs@[order@[t] as int], songs@[order@[s] as int]) implies order@[s]
                        < order@[t] by {
                    assert(order@[s] == before[s]);
                    assert(order@[t] == before[t]);
                }
                assert forall|s: int, t: int|
                    j <= s < t < i + 1 && sort_key_le(songs@[order@[t] as int], songs@[order@[s] as int]) implies order@[s]
                        < order@[t] by {
                    assert(order@[t] == before[t]);
                    if s == j {
                        assert(order@[s] == before[j - 1]);
                    } else {
                        assert(order@[s] == before[s]);
                    }
                }
                assert forall|a: int, b: int|
                    0 <= a < j - 1 && j - 1 < b <= i && sort_key_le(songs@[order@[b] as int], songs@[order@[a] as int])
                        implies order@[a] < order@[b] by {
                    assert(order@[a] == before[a]);
                    if b == j {
                        assert(order@[b] == before[j - 1]);
                    } else {
                        assert(order@[b] == before[b]);
                    }
                }
                assert forall|b: int| j - 1 < b <= i implies !sort_key_le(
                    #[trigger] songs@[order@[b] as int],
                    songs@[order@[j - 1] as int],
                ) by {
                    if b > j {
                        assert(order@[b] == before[b]);
                    }
                }
            }
            j -= 1;
        }
        proof {
            assert forall|s: int, t: int| 0 <= s < t < i + 1 implies
                sort_key_le(songs@[order@[s] as int], songs@[order@[t] as int]) by {
                if t == j {
                    if s < j - 1 {
                        lemma_key_trans(songs@[order@[s] as int], songs@[order@[j - 1] as int], songs@[order@[j as int] as int]);
                    }
                } else if s == j {
                } else if s < j && t > j {
                } else if s > j {
                } else {
                }
            }
            assert forall|s: int, t: int|
                0 <= s < t < i + 1 && sort_key_le(songs@[order@[t] as int], songs@[order@[s] as int]) implies order@[s]
                    < order@[t] by {
                if t == j {
                    assert(order@[s] < i);
                } else if s == j {
                    assert(!sort_key_le(songs@[order@[t] as int], songs@[order@[j as int] as int]));
                }
            }
            assert forall|s: int| 0 <= s < i + 1 implies order@[s] < i + 1 by {
                if s != j {
                    assert(order@[s] < i);
                }
            }
        }
        i += 1;
    }
    order
}

} // verus!
verus! {

pub open spec fn opt_str_eqv(a: Option<String>, b: Option<String>) -> bool {
    match (a, b) {
        (Some(x), Some(y)) => x@ == y@,
        (None, None) => true,
        _ => false,
    }
}

pub open spec fn meta_eqv(a: Option<QueueSongMeta>, b: Option<QueueSongMeta>) -> bool {
    match (a, b) {
        (Some(x), Some(y)) => x.group_id@ == y.group_id@ && x.source_kind == y.source_kind && x.source_id@
            == y.source_id@ && x.source_position == y.source_position,
        (None, None) => true,
        _ => false,
    }
}

/// Two songs are equal field by field (text compared by its characters).
pub open spec fn song_eqv(a: Song, b: Song) -> bool {
    &&& a.id@ == b.id@
    &&& a.server_id@ == b.server_id@
    &&& a.server_name@ == b.server_name@
    &&& a.title@ == b.title@
    &&& opt_str_eqv(a.artist, b.artist)
    &&& opt_str_eqv(a.artist_id, b.artist_id)
    &&& opt_str_eqv(a.album, b.album)
    &&& opt_str_eqv(a.album_id, b.album_id)
    &&& opt_str_eqv(a.cover_art, b.cover_art)
    &&& opt_str_eqv(a.stream_url, b.stream_url)
    &&& opt_str_eqv(a.starred, b.starred)
    &&& a.user_rating == b.user_rating
    &&& a.year == b.year
    &&& a.duration == b.duration
    &&& meta_eqv(a.queue_meta, b.queue_meta)
}

fn opt_str_equal(a: &Option<String>, b: &Option<String>) -> (r: bool)
    ensures
        r == opt_str_eqv(*a, *b),
{
    match (a, b) {
        (Some(x), Some(y)) => *x == *y,
        (None, None) => true,
        _ => false,
    }
}

fn kind_equal(a: &QueueSourceKind, b: &QueueSourceKind) -> (r: bool)
    ensures
        r == (*a == *b),
{
    match (a, b) {
        (QueueSourceKind::Album, QueueSourceKind::Album) => true,
        (QueueSourceKind::Playlist, QueueSourceKind::Playlist) => true,
        (QueueSourceKind::Favorites, QueueSourceKind::Favorites) => true,
        (QueueSourceKind::RandomMix, QueueSourceKind::RandomMix) => true,
        (QueueSourceKind::Artist, QueueSourceKind::Artist) => true,
        _ => false,
    }
}

/// Field-by-field equality of two songs.
pub fn song_equal(a: &Song, b: &Song) -> (r: bool)
    ensures
        r == song_eqv(*a, *b),
{
    let metas = match (&a.queue_meta, &b.queue_meta) {
        (Some(x), Some(y)) => x.group_id == y.group_id && kind_equal(&x.source_kind, &y.source_kind)
            && x.source_id == y.source_id && x.source_position == y.source_position,
        (None, None) => true,
        _ => false,
    };
    a.id == b.id && a.server_id == b.server_id && a.server_name == b.server_name && a.title == b.title
        && opt_str_equal(&a.artist, &b.artist) && opt_str_equal(&a.artist_id, &b.artist_id)
        && opt_str_equal(&a.album, &b.album) && opt_str_equal(&a.album_id, &b.album_id)
        && opt_str_equal(&a.cover_art, &b.cover_art) && opt_str_equal(&a.stream_url, &b.stream_url)
        && opt_str_equal(&a.starred, &b.starred) && a.user_rating == b.user_rating && a.year == b.year
        && a.duration == b.duration && metas
}

/// The song belongs to the collection group `g`.
pub open spec fn in_group(s: Song, g: Seq<char>) -> bool {
    match s.queue_meta {
        Some(m) => m.group_id@ == g,
        None => false,
    }
}

/// The group of the first song in `q` that carries provenance.
pub open spec fn first_group_id(q: Seq<Song>) -> Option<Seq<char>>
    decreases q.len(),
{
    if q.len() == 0 {
        None
    } else {
        match q[0].queue_meta {
            Some(m) => Some(m.group_id@),
            None => first_group_id(q.drop_first()),
        }
    }
}

/// The group a reshuffle acts on: that of the song playing, or else that of
/// the first queued song with provenance.
pub open spec fn active_group(q: Seq<Song>, now: Option<Song>) -> Option<Seq<char>> {
    match now {
        Some(s) => match s.queue_meta {
            Some(m) => Some(m.group_id@),
            None => first_group_id(q),
        },
        None => first_group_id(q),
    }
}

/// `pos` lists, in increasing order, exactly the positions of `q` that
/// belong to group `g`.
pub open spec fn is_group_positions(q: Seq<Song>, g: Seq<char>, pos: Seq<usize>) -> bool {
    &&& forall|s: int, t: int| 0 <= s < t < pos.len() ==> pos[s] < pos[t]
    &&& forall|s: int| 0 <= s < pos.len() ==> pos[s] < q.len() && in_group(q[pos[s] as int], g)
    &&& forall|i: int| 0 <= i < q.len() && in_group(q[i], g) ==> exists|s: int| 0 <= s < pos.len() && pos[s] == i
}

/// The group entry is the instance playing: same track, same provenance.
pub open spec fn is_pinned_entry(entry: Song, now: Song) -> bool {
    &&& entry.id@ == now.id@
    &&& entry.server_id@ == now.server_id@
    &&& match (entry.queue_meta, now.queue_meta) {
        (Some(l), Some(r)) => l.group_id@ == r.group_id@ && l.source_position == r.source_position
            && l.source_id@ == r.source_id@,
        _ => false,
    }
}

pub open spec fn pin_pred(now: Song) -> spec_fn(Song) -> bool {
    |s: Song| is_pinned_entry(s, now)
}

/// The selection after a reshuffle: the instance playing, found again in
/// the rebuilt queue, or else the old selection kept within the queue.
pub open spec fn index_after_reshuffle(q: Seq<Song>, now: Option<Song>, prev: usize, r: usize) -> bool {
    let fallback = if prev < q.len() - 1 { prev as int } else { q.len() - 1 };
    match now {
        Some(n) => exists|o: Option<usize>|
            is_instance_index(q, n, o) && r == match o {
                Some(i) => i as int,
                None => fallback,
            },
        None => r == fallback,
    }
}

fn active_group_id(q: &Vec<Song>, now: &Option<Song>) -> (r: Option<String>)
    ensures
        match r {
            Some(x) => active_group(q@, *now) == Some(x@),
            None => active_group(q@, *now) is None,
        },
{
    match now {
        Some(s) => match &s.queue_meta {
            Some(m) => {
                let g = m.group_id.clone();
                assert(active_group(q@, *now) == Some(m.group_id@));
                return Some(g);
            },
            None => {},
        },
        None => {},
    }
    let mut i: usize = 0;
    proof {
        assert(q@.skip(0) =~= q@);
    }
    while i < q.len()
        invariant
            i <= q@.len(),
            first_group_id(q@) == first_group_id(q@.skip(i as int)),
            active_group(q@, *now) == first_group_id(q@),
        decreases q@.len() - i,
    {
        assert(q@.skip(i as int)[0] == q@[i as int]);
        assert(q@.skip(i as int).drop_first() =~= q@.skip(i + 1));
        if let Some(m) = &q[i].queue_meta {
            let g = m.group_id.clone();
            assert(first_group_id(q@.skip(i as int)) == Some(m.group_id@));
            return Some(g);
        }
        i += 1;
    }
    assert(q@.skip(i as int).len() == 0);
    None
}

fn is_in_group(s: &Song, g: &String) -> (r: bool)
    ensures
        r == in_group(*s, g@),
{
    match &s.queue_meta {
        Some(m) => m.group_id == *g,
        None => false,
    }
}

fn group_positions(q: &Vec<Song>, g: &String) -> (pos: Vec<usize>)
    ensures
        is_group_positions(q@, g@, pos@),
{
    let mut pos: Vec<usize> = Vec::new();
    let mut i: usize = 0;
    while i < q.len()
        invariant
            i <= q@.len(),
            forall|s: int, t: int| 0 <= s < t < pos@.len() ==> pos@[s] < pos@[t],
            forall|s: int| 0 <= s < pos@.len() ==> pos@[s] < i && in_group(q@[pos@[s] as int], g@),
            forall|j: int| 0 <= j < i && in_group(q@[j], g@) ==> exists|s: int| 0 <= s < pos@.len() && pos@[s] == j,
        decreases q@.len() - i,
    {
        if is_in_group(&q[i], g) {
            let ghost before = pos@;
            pos.push(i);
            proof {
                assert forall|j: int| 0 <= j < i + 1 && in_group(q@[j], g@) implies exists|s: int|
                    0 <= s < pos@.len() && pos@[s] == j by {
                    if j == i {
                        assert(pos@[pos@.len() - 1] == j);
                    } else {
                        let s = choose|s: int| 0 <= s < before.len() && before[s] == j;
                        assert(pos@[s] == j);
                    }
                }
            }
        }
        i += 1;
    }
    pos
}

fn is_pinned(entry: &Song, now: &Song) -> (r: bool)
    ensures
        r == is_pinned_entry(*entry, *now),
{
    entry.id == now.id && entry.server_id == now.server_id && match (&entry.queue_meta, &now.queue_meta) {
        (Some(l), Some(r)) => l.group_id == r.group_id && l.source_position == r.source_position
            && l.source_id == r.source_id,
        _ => false,
    }
}

proof fn lemma_permutation_keeps(a: Seq<usize>, b: Seq<usize>)
    requires
        a.to_multiset() == b.to_multiset(),
        a.no_duplicates(),
    ensures
        b.no_duplicates(),
        b.len() == a.len(),
        forall|x: usize| b.contains(x) <==> a.contains(x),
{
    vstd::seq_lib::to_multiset_len(a);
    vstd::seq_lib::to_multiset_len(b);
    assert forall|x: usize| b.contains(x) <==> a.contains(x) by {
        vstd::seq_lib::to_multiset_contains(a, x);
        vstd::seq_lib::to_multiset_contains(b, x);
    }
    a.lemma_multiset_has_no_duplicates();
    b.lemma_multiset_has_no_duplicates_conv();
}

/// A shuffled order of `0..k` that keeps `pinned` (if any) in its own slot.
fn shuffled_slot_order(k: usize, pinned: Option<usize>) -> (order: Vec<usize>)
    requires
        pinned matches Some(p) ==> p < k,
    ensures
        is_slot_order(order@, k as int),
        pinned matches Some(p) ==> order@[p as int] == p,
{
    let ghost pv: int = match pinned {
        Some(p) => p as int,
        None => -1,
    };
    let mut rest: Vec<usize> = Vec::new();
    let mut i: usize = 0;
    while i < k
        invariant
            i <= k,
            pv == match pinned {
                Some(p) => p as int,
                None => -1,
            },
            rest@.no_duplicates(),
            forall|s: int| 0 <= s < rest@.len() ==> rest@[s] < i,
            forall|s: int| 0 <= s < rest@.len() ==> rest@[s] != pv,
            forall|x: usize| x < i && x != pv ==> rest@.contains(x),
            rest@.len() == (if 0 <= pv < i { i - 1 } else { i as int }),
        decreases k - i,
    {
        let take = match pinned {
            Some(p) => p != i,
            None => true,
        };
        if take {
            let ghost before = rest@;
            rest.push(i);
            proof {
                assert forall|x: usize| x < i + 1 && x != pv implies rest@.contains(x) by {
                    if x == i {
                        assert(rest@[rest@.len() - 1] == x);
                    } else {
                        assert(before.contains(x));
                        let s = choose|s: int| 0 <= s < before.len() && before[s] == x;
                        assert(rest@[s] == x);
                    }
                }
            }
        }
        i += 1;
    }
    let ghost unshuffled = rest@;
    crate::random::shuffle_in_place(&mut rest);
    proof {
        lemma_permutation_keeps(unshuffled, rest@);
        assert forall|s: int| 0 <= s < rest@.len() implies rest@[s] < k && rest@[s] != pv by {
            assert(rest@.contains(rest@[s]));
            assert(unshuffled.contains(rest@[s]));
        }
    }
    match pinned {
        Some(p) => {
            let ghost before = rest@;
            rest.insert(p, p);
            proof {
                assert forall|s: int, t: int| 0 <= s < rest@.len() && 0 <= t < rest@.len() && s != t
                    implies rest@[s] != rest@[t] by {
                    if s != p && t != p {
                        let s0 = if s < p { s } else { s - 1 };
                        let t0 = if t < p { t } else { t - 1 };
                        assert(rest@[s] == before[s0]);
                        assert(rest@[t] == before[t0]);
                    } else if s == p {
                        let t0 = if t < p { t } else { t - 1 };
                        assert(rest@[t] == before[t0]);
                    } else {
                        let s0 = if s < p { s } else { s - 1 };
                        assert(rest@[s] == before[s0]);
                    }
                }
                assert forall|s: int| 0 <= s < k implies rest@[s] < k by {
                    if s < p {
                        assert(rest@[s] == before[s]);
                    } else if s > p {
                        assert(rest@[s] == before[s - 1]);
                    }
                }
            }
            rest
        },
        None => rest,
    }
}

} // verus!
verus! {

/// The songs of `q` at the positions `pos`, in that order.
pub open spec fn group_songs(q: Seq<Song>, pos: Seq<usize>) -> Seq<Song> {
    Seq::new(pos.len(), |s: int| q[pos[s] as int])
}

/// Position `i` is among the first `s` entries of `pos`.
pub open spec fn written(pos: Seq<usize>, s: int, i: int) -> bool {
    exists|t: int| 0 <= t < s && pos[t] == i
}

/// A reshuffle of group `g`, whose positions in `q` are `pos`, that puts
/// the group's songs in the slot order `order`: the order is the
/// collection order when shuffle is off (songs that tie keep their order),
/// and keeps the instance playing in place when shuffle is on. The queue
/// changes exactly when some slot gets a different song; the selection then
/// follows the instance playing.
pub open spec fn reshuffle_outcome(
    q: Seq<Song>,
    g: Seq<char>,
    now: Option<Song>,
    prev: usize,
    shuffle: bool,
    pos: Seq<usize>,
    order: Seq<usize>,
    changed: bool,
    fq: Seq<Song>,
    fi: usize,
) -> bool {
    let k = pos.len() as int;
    let gs = group_songs(q, pos);
    &&& is_slot_order(order, k)
    &&& (!shuffle ==> sorted_slots(gs, order, 0, k) && keeps_ties(gs, order, 0, k))
    &&& (shuffle ==> match now {
        Some(n) => forall|p: usize| #[trigger] first_index_where(gs, pin_pred(n), Some(p)) ==> order[p as int] == p,
        None => true,
    })
    &&& slot_order_applied(q, g, now, prev, pos, order, changed, fq, fi)
}

/// The queue after group `g`'s songs, at positions `pos`, are put in the
/// slot order `order`: it changes exactly when some slot gets a different
/// song; songs outside the group keep their positions, group slot `s`
/// receives the song of slot `order[s]`, and the selection follows the
/// instance playing. An unchanged queue keeps its selection.
pub open spec fn slot_order_applied(
    q: Seq<Song>,
    g: Seq<char>,
    now: Option<Song>,
    prev: usize,
    pos: Seq<usize>,
    order: Seq<usize>,
    changed: bool,
    fq: Seq<Song>,
    fi: usize,
) -> bool {
    let k = pos.len() as int;
    let gs = group_songs(q, pos);
    &&& changed == exists|s: int| 0 <= s < k && !song_eqv(gs[order[s] as int], #[trigger] gs[s])
    &&& if changed {
        &&& fq.len() == q.len()
        &&& forall|i: int| 0 <= i < q.len() && !in_group(q[i], g) ==> fq[i] == q[i]
        &&& forall|s: int| 0 <= s < k ==> fq[pos[s] as int] == gs[order[s] as int]
        &&& index_after_reshuffle(fq, now, prev, fi)
    } else {
        fq == q && fi == prev
    }
}

/// The whole effect of a reshuffle request on a queue whose active group
/// is `g` with positions `pos`: a group of fewer than two songs is left
/// alone; a larger one is reshuffled as `reshuffle_outcome` says.
pub open spec fn group_reshuffle(
    q: Seq<Song>,
    g: Seq<char>,
    now: Option<Song>,
    prev: usize,
    shuffle: bool,
    pos: Seq<usize>,
    order: Seq<usize>,
    changed: bool,
    fq: Seq<Song>,
    fi: usize,
) -> bool {
    &&& is_group_positions(q, g, pos)
    &&& if pos.len() < 2 {
        !changed && fq == q && fi == prev
    } else {
        reshuffle_outcome(q, g, now, prev, shuffle, pos, order, changed, fq, fi)
    }
}

/// The songs of `queue` at the positions `pos`, in that order.
fn collect_group_songs(queue: &Vec<Song>, pos: &Vec<usize>) -> (gs: Vec<Song>)
    requires
        forall|t: int| 0 <= t < pos@.len() ==> pos@[t] < queue@.len(),
    ensures
        gs@ == group_songs(queue@, pos@),
{
    let k = pos.len();
    let mut gs: Vec<Song> = Vec::new();
    let mut s: usize = 0;
    while s < k
        invariant
            k == pos@.len(),
            forall|t: int| 0 <= t < pos@.len() ==> pos@[t] < queue@.len(),
            s <= k,
            gs@.len() == s,
            forall|t: int| 0 <= t < s ==> gs@[t] == queue@[pos@[t] as int],
        decreases k - s,
    {
        gs.push(queue[pos[s]].clone());
        s += 1;
    }
    assert(gs@ =~= group_songs(queue@, pos@));
    gs
}

/// Puts the songs of collection group `group_id`, found at the positions
/// `pos`, in the slot order `order` (however it was drawn), and moves the
/// selection to the instance playing. Answers whether the queue changed.
pub fn apply_group_slot_order(
    queue: &mut Vec<Song>,
    queue_index: &mut usize,
    now_playing: &Option<Song>,
    group_id: &String,
    pos: &Vec<usize>,
    order: &Vec<usize>,
) -> (changed: bool)
    requires
        is_group_positions(old(queue)@, group_id@, pos@),
        is_slot_order(order@, pos@.len() as int),
    ensures
        slot_order_applied(
            old(queue)@,
            group_id@,
            *now_playing,
            *old(queue_index),
            pos@,
            order@,
            changed,
            final(queue)@,
            *final(queue_index),
        ),
{
    let ghost q0 = queue@;
    let g = group_id;
    let len = queue.len();
    let k = pos.len();
    let gs = collect_group_songs(queue, pos);
    let mut changed = false;
    let mut t: usize = 0;
    while t < k
        invariant_except_break
            !changed,
        invariant
            k == gs@.len(),
            is_slot_order(order@, k as int),
            t <= k,
            forall|j: int| 0 <= j < t ==> song_eqv(gs@[order@[j] as int], gs@[j]),
        ensures
            changed == exists|j: int| 0 <= j < k && !song_eqv(gs@[order@[j] as int], #[trigger] gs@[j]),
        decreases k - t,
    {
        if !song_equal(&gs[order[t]], &gs[t]) {
            changed = true;
            break;
        }
        t += 1;
    }
    if !changed {
        return false;
    }
    let mut s: usize = 0;
    while s < k
        invariant
            k == pos@.len(),
            k == gs@.len(),
            is_group_positions(q0, g@, pos@),
            is_slot_order(order@, k as int),
            gs@ == group_songs(q0, pos@),
            s <= k,
            queue@.len() == q0.len(),
            forall|t: int| 0 <= t < s ==> queue@[pos@[t] as int] == gs@[order@[t] as int],
            forall|i: int| 0 <= i < q0.len() && !written(pos@, s as int, i) ==> queue@[i] == q0[i],
        decreases k - s,
    {
        let song = gs[order[s]].clone();
        let ghost before = queue@;
        queue.set(pos[s], song);
        proof {
            assert forall|t: int| 0 <= t < s + 1 implies queue@[pos@[t] as int] == gs@[order@[t] as int] by {
                if t < s {
                    assert(pos@[t] < pos@[s as int]);
                }
            }
            assert forall|i: int| 0 <= i < q0.len() && !written(pos@, s + 1, i) implies queue@[i] == q0[i] by {
                assert(pos@[s as int] != i);
                assert(!written(pos@, s as int, i));
                assert(before[i] == q0[i]);
            }
        }
        s += 1;
    }
    proof {
        assert forall|i: int| 0 <= i < q0.len() && !in_group(q0[i], g@) implies queue@[i] == q0[i] by {
            if written(pos@, k as int, i) {
                let t = choose|t: int| 0 <= t < k && pos@[t] == i;
                assert(in_group(q0[pos@[t] as int], g@));
            }
        }
    }
    let prev = *queue_index;
    let last = len - 1;
    let fallback = if prev < last { prev } else { last };
    let next = match now_playing {
        Some(n) => match find_song_instance_index(queue, n) {
            Some(i) => i,
            None => fallback,
        },
        None => fallback,
    };
    *queue_index = next;
    proof {
        if now_playing is Some {
            let n = now_playing->0;
            let o = choose|o: Option<usize>| is_instance_index(queue@, n, o) && next == match o {
                Some(i) => i as int,
                None => fallback as int,
            };
        }
    }
    true
}

/// Switches the collection group of the song playing (or of the first
/// queued collection) between shuffled and original order, in place. Songs
/// outside the group keep their positions; the group's songs are
/// rearranged among the group's positions. Answers whether the queue
/// changed. What happens is `apply_group_slot_order` with the slot order
/// drawn: the collection order when shuffle is off, a random order that
/// keeps the instance playing in its slot when shuffle is on.
#[verifier::rlimit(40)]
pub fn apply_collection_shuffle_mode(
    queue: &mut Vec<Song>,
    queue_index: &mut usize,
    now_playing: &Option<Song>,
    shuffle_enabled: bool,
) -> (changed: bool)
    ensures
        (old(queue)@.len() < 2 || active_group(old(queue)@, *now_playing) is None) ==> {
            &&& !changed
            &&& final(queue)@ == old(queue)@
            &&& *final(queue_index) == *old(queue_index)
        },
        old(queue)@.len() >= 2 ==> forall|g: Seq<char>| active_group(old(queue)@, *now_playing) == Some(g)
            ==> exists|pos: Seq<usize>, order: Seq<usize>|
            #[trigger] group_reshuffle(
                old(queue)@,
                g,
                *now_playing,
                *old(queue_index),
                shuffle_enabled,
                pos,
                order,
                changed,
                final(queue)@,
                *final(queue_index),
            ),
{
    let ghost q0 = queue@;
    let len = queue.len();
    if len < 2 {
        return false;
    }
    let g = match active_group_id(queue, now_playing) {
        Some(g) => g,
        None => return false,
    };
    let pos = group_positions(queue, &g);
    let k = pos.len();
    if k < 2 {
        let ghost order = Seq::<usize>::empty().push(0usize).push(1usize).take(k as int);
        assert(is_slot_order(order, k as int)) by {
            assert(order.len() == k);
        }
        assert(group_reshuffle(q0, g@, *now_playing, *queue_index, shuffle_enabled, pos@, order, false, queue@, *queue_index));
        return false;
    }
    let gs = collect_group_songs(queue, &pos);
    let pinned: Option<usize> = match now_playing {
        Some(n) => {
            let mut found: Option<usize> = None;
            let mut t: usize = 0;
            while t < k
                invariant_except_break
                    found is None,
                invariant
                    k == gs@.len(),
                    t <= k,
                    forall|j: int| 0 <= j < t ==> !is_pinned_entry(gs@[j], *n),
                ensures
                    first_index_where(gs@, pin_pred(*n), found),
                decreases k - t,
            {
                if is_pinned(&gs[t], n) {
                    found = Some(t);
                    break;
                }
                t += 1;
            }
            found
        },
        None => None,
    };
    let order = if shuffle_enabled {
        shuffled_slot_order(k, pinned)
    } else {
        sorted_slot_order(&gs)
    };
    proof {
        if shuffle_enabled {
            if now_playing is Some {
                let n = now_playing->0;
                assert forall|p: usize| #[trigger] first_index_where(gs@, pin_pred(n), Some(p)) implies order@[p as int] == p by {
                    // the first matching slot is unique
                    match pinned {
                        Some(q) => {
                            if p < q {
                                assert(!is_pinned_entry(gs@[p as int], n));
                            } else if q < p {
                                assert(!is_pinned_entry(gs@[q as int], n));
                            }
                        },
                        None => {
                            assert(!is_pinned_entry(gs@[p as int], n));
                        },
                    }
                }
            }
        }
    }
    let ghost prev = *queue_index;
    let changed = apply_group_slot_order(queue, queue_index, now_playing, &g, &pos, &order);
    assert(group_reshuffle(q0, g@, *now_playing, prev, shuffle_enabled, pos@, order@, changed, queue@, *queue_index));
    changed
}

} // verus!
verus! {

/// The short name of a collection kind used in group ids.
pub open spec fn source_kind_tag(kind: QueueSourceKind) -> Seq<char> {
    match kind {
        QueueSourceKind::Album => "album"@,
        QueueSourceKind::Playlist => "playlist"@,
        QueueSourceKind::Favorites => "favorites"@,
        QueueSourceKind::RandomMix => "random_mix"@,
        QueueSourceKind::Artist => "artist"@,
    }
}

pub fn queue_source_kind_tag(source_kind: &QueueSourceKind) -> (r: &'static str)
    ensures
        r@ == source_kind_tag(*source_kind),
{
    match source_kind {
        QueueSourceKind::Album => "album",
        QueueSourceKind::Playlist => "playlist",
        QueueSourceKind::Favorites => "favorites",
        QueueSourceKind::RandomMix => "random_mix",
        QueueSourceKind::Artist => "artist",
    }
}

/// The group id of one queued collection: `source_id:kind:token`.
pub open spec fn group_id_text(source_id: Seq<char>, kind: QueueSourceKind, token: Seq<char>) -> Seq<char> {
    source_id + ":"@ + source_kind_tag(kind) + ":"@ + token
}

/// `r` is `song` tagged as entry `position` of the collection group whose
/// id is `group`.
pub open spec fn is_tagged(r: Song, song: Song, group: Seq<char>, kind: QueueSourceKind, source_id: String, position: usize) -> bool {
    match r.queue_meta {
        Some(m) => {
            &&& m.group_id@ == group
            &&& m.source_kind == kind
            &&& m.source_id == source_id
            &&& m.source_position == position
            &&& r == Song { queue_meta: r.queue_meta, ..song }
        },
        None => false,
    }
}

/// Tags every song as part of one collection group whose id ends with
/// `token`, recording each song's position in the collection.
pub fn assign_collection_queue_meta_with_token(
    songs: Vec<Song>,
    source_kind: QueueSourceKind,
    source_id: String,
    token: &str,
) -> (r: Vec<Song>)
    ensures
        r@.len() == songs@.len(),
        forall|i: int| 0 <= i < songs@.len() ==> is_tagged(#[trigger] r@[i], songs@[i], group_id_text(source_id@, source_kind, token@), source_kind, source_id, i as usize),
{
    let mut group_id = source_id.clone();
    group_id.append(":");
    group_id.append(queue_source_kind_tag(&source_kind));
    group_id.append(":");
    group_id.append(token);
    let mut out: Vec<Song> = Vec::new();
    let mut i: usize = 0;
    while i < songs.len()
        invariant
            i <= songs@.len(),
            out@.len() == i,
            group_id@ == group_id_text(source_id@, source_kind, token@),
            forall|j: int| 0 <= j < i ==> is_tagged(#[trigger] out@[j], songs@[j], group_id_text(source_id@, source_kind, token@), source_kind, source_id, j as usize),
        decreases songs@.len() - i,
    {
        let mut song = songs[i].clone();
        song.queue_meta = Some(QueueSongMeta {
            group_id: group_id.clone(),
            source_kind: source_kind.clone(),
            source_id: source_id.clone(),
            source_position: i,
        });
        out.push(song);
        i += 1;
    }
    out
}

/// Tags every song as part of a fresh collection group, whose id ends with
/// a random version-4 UUID.
pub fn assign_collection_queue_meta(
    songs: Vec<Song>,
    source_kind: QueueSourceKind,
    source_id: String,
) -> (r: Vec<Song>)
    ensures
        r@.len() == songs@.len(),
        exists|token: Seq<char>| crate::random::uuid_v4_text(token) && forall|i: int| 0 <= i < songs@.len() ==> is_tagged(#[trigger] r@[i], songs@[i], group_id_text(source_id@, source_kind, token), source_kind, source_id, i as usize),
{
    let token = crate::random::new_uuid_v4_text();
    assign_collection_queue_meta_with_token(songs, source_kind, source_id, token.as_str())
}

/// When the queue runs out with shuffle on, a fresh similar-songs queue is
/// generated only for a single hand-picked (non-collection) song that is not
/// a radio station.
pub open spec fn should_generate_similar(q: Seq<Song>, current: Option<Song>, shuffle: bool) -> bool {
    &&& shuffle
    &&& !(current matches Some(s) && crate::model::is_radio(s))
    &&& q.len() == 1
    &&& q[0].queue_meta is None
}

pub fn queue_should_generate_similar_on_end(
    queue_snapshot: &Vec<Song>,
    current_song: Option<&Song>,
    shuffle_enabled: bool,
) -> (r: bool)
    ensures
        r == should_generate_similar(queue_snapshot@, match current_song {
            Some(s) => Some(*s),
            None => None,
        }, shuffle_enabled),
{
    if !shuffle_enabled {
        return false;
    }
    let is_radio = match current_song {
        Some(song) => crate::model::song_is_radio(song),
        None => false,
    };
    if is_radio {
        return false;
    }
    if queue_snapshot.len() != 1 {
        return false;
    }
    queue_snapshot[0].queue_meta.is_none()
}

} // verus!
