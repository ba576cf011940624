//! Properties that hold across calls: what moving or removing a queue entry
//! keeps, how the repeat modes cycle, what the remote command queue never
//! holds, and how the navigation and playback state machines answer a
//! sequence of events.
use vstd::prelude::*;

use crate::model::{RepeatMode, Song};
use crate::remote::{
    is_seek_entry, is_transport_intent, queue_after_push, replaced_by, single_pending_intents,
    without_transport_entries,
};
use crate::queue::{adjusted_index_spec, index_after_removal, moved_entry, without_meta};
use crate::collection::{group_reshuffle, group_songs, in_group, is_group_positions, is_slot_order};
use crate::lyrics::{display_lyrics_spec, dom_id_spec, LyricsResult};
use crate::navigation::{navigated, resumed, should_refresh_spec, AppView, Navigation};
use crate::remote::{plan_target, transition_target, PlanStep, PlaybackPlan};
use crate::transport::{
    ended_action_spec, ended_step, next_button_spec, prev_button_spec, next_repeat_mode_spec, observed, remote_action_spec,
    repeat_mode_from_name_spec, repeat_mode_name_spec, EndedOutcome, PlayStateSync, RemoteCommand,
    TransportAction,
};

verus! {

/// Moving an entry keeps the selection on the entry that was selected.
pub proof fn lemma_reorder_keeps_selected_entry(q: Seq<Song>, current: usize, source: usize, target: usize)
    requires
        current < q.len(),
        source < q.len(),
        target < q.len(),
        source != target,
    ensures
        adjusted_index_spec(current, source, target) < q.len(),
        moved_entry(q, source as int, target as int)[adjusted_index_spec(current, source, target)] == q[current as int],
{
}

/// Moving an entry neither adds nor drops a song: the queue after is a
/// rearrangement of the queue before.
pub proof fn lemma_reorder_is_permutation(q: Seq<Song>, source: usize, target: usize)
    requires
        source < q.len(),
        target < q.len(),
    ensures
        moved_entry(q, source as int, target as int).to_multiset() == q.to_multiset(),
        moved_entry(q, source as int, target as int).len() == q.len(),
{
    broadcast use vstd::seq_lib::to_multiset_remove, vstd::seq_lib::to_multiset_insert;
    broadcast use vstd::multiset::group_multiset_axioms;

    let removed = q.remove(source as int);
    assert(removed.to_multiset() == q.to_multiset().remove(q[source as int]));
    assert(removed.insert(target as int, q[source as int]).to_multiset() == removed.to_multiset().insert(
        q[source as int],
    ));
    assert(q.to_multiset().count(q[source as int]) > 0) by {
        broadcast use vstd::seq_lib::to_multiset_contains;

        assert(q.contains(q[source as int]));
    }
    assert(q.to_multiset().remove(q[source as int]).insert(q[source as int]) =~= q.to_multiset());
}

/// Removing an entry other than the selected one keeps the selected song
/// selected.
pub proof fn lemma_remove_keeps_selected_song(q: Seq<Song>, current: usize, removed: usize)
    requires
        q.len() >= 2,
        current < q.len(),
        removed < q.len(),
        removed != current,
    ensures
        0 <= index_after_removal(current, removed, q.len() - 1) < q.len() - 1,
        q.remove(removed as int)[index_after_removal(current, removed, q.len() - 1)] == q[current as int],
{
}

/// Removing any entry from a queue of two or more keeps a valid selection
/// valid.
pub proof fn lemma_remove_keeps_selection_in_range(len: int, current: usize, removed: usize)
    requires
        len >= 2,
        current < len,
        removed < len,
    ensures
        0 <= index_after_removal(current, removed, len - 1) < len - 1,
{
}

/// Adding a song by hand twice is the same as adding it once.
pub proof fn lemma_manual_normalisation_idempotent(song: Song)
    ensures
        without_meta(without_meta(song)) == without_meta(song),
{
}

/// A repeat mode sent to a native player by name is read back as the same
/// mode.
pub proof fn lemma_repeat_mode_name_round_trip(mode: RepeatMode)
    ensures
        repeat_mode_from_name_spec(repeat_mode_name_spec(mode)) == mode,
{
    reveal_strlit("off");
    reveal_strlit("all");
    reveal_strlit("one");
    assert("off"@[0] == 'o');
    assert("all"@[0] == 'a');
    assert("one"@[0] == 'o');
    assert("off"@[1] == 'f');
    assert("one"@[1] == 'n');
}

/// The repeat button cycles off, all, one and back: three presses return
/// to the mode the player started in.
pub proof fn lemma_repeat_cycle(mode: RepeatMode)
    ensures
        next_repeat_mode_spec(next_repeat_mode_spec(next_repeat_mode_spec(mode))) == mode,
        next_repeat_mode_spec(mode) != mode,
{
}

} // verus!
verus! {

proof fn lemma_filter_twice_len(s: Seq<Seq<char>>, keep: spec_fn(Seq<char>) -> bool, p: spec_fn(Seq<char>) -> bool)
    ensures
        s.filter(keep).filter(p).len() <= s.filter(p).len(),
    decreases s.len(),
{
    if s.len() == 0 {
        reveal_with_fuel(Seq::<_>::filter, 1);
        assert(s.filter(keep) =~= Seq::<Seq<char>>::empty());
    } else {
        let t = s.drop_last();
        let x = s.last();
        assert(s =~= t.push(x));
        lemma_filter_twice_len(t, keep, p);
        t.lemma_filter_push(x, keep);
        t.lemma_filter_len_push(p, x);
        t.filter(keep).lemma_filter_len_push(p, x);
    }
}

proof fn lemma_filter_disjoint(s: Seq<Seq<char>>, keep: spec_fn(Seq<char>) -> bool, p: spec_fn(Seq<char>) -> bool)
    requires
        forall|x: Seq<char>| #[trigger] keep(x) ==> !p(x),
    ensures
        s.filter(keep).filter(p).len() == 0,
{
    broadcast use vstd::seq_lib::group_filter_ensures;

    let f = s.filter(keep);
    assert forall|i: int| 0 <= i < f.len() implies !p(f[i]) by {
        assert(keep(f[i]));
    }
    f.lemma_all_neg_filter_empty(p);
}

proof fn lemma_intents_are_not_seeks(a: Seq<char>)
    ensures
        is_transport_intent(a) ==> !is_seek_entry(a),
{
    reveal_strlit("play");
    reveal_strlit("pause");
    reveal_strlit("seek:");
    if a == "pause"@ && is_seek_entry(a) {
        assert(a.take(5)[0] == "seek:"@[0]);
    }
}

/// A queued command leaves at most one play/pause intent and at most one
/// seek waiting: a newer intent or seek replaces the older one.
pub proof fn lemma_push_keeps_single_pending(q: Seq<Seq<char>>, action: Seq<char>)
    requires
        single_pending_intents(q),
    ensures
        single_pending_intents(queue_after_push(q, action)),
{
    let keep = |e: Seq<char>| !replaced_by(action, e);
    let intent = |e: Seq<char>| is_transport_intent(e);
    let seek = |e: Seq<char>| is_seek_entry(e);
    let kept = q.filter(keep);
    lemma_intents_are_not_seeks(action);
    kept.lemma_filter_len_push(intent, action);
    kept.lemma_filter_len_push(seek, action);
    lemma_filter_twice_len(q, keep, intent);
    lemma_filter_twice_len(q, keep, seek);
    if is_transport_intent(action) {
        lemma_filter_disjoint(q, keep, intent);
    } else if is_seek_entry(action) {
        lemma_filter_disjoint(q, keep, seek);
    }
}

/// Once the transport state is settled, no play/pause intent or seek is
/// left waiting.
pub proof fn lemma_clear_leaves_no_intents(q: Seq<Seq<char>>)
    ensures
        without_transport_entries(q).filter(|e: Seq<char>| is_transport_intent(e)).len() == 0,
        without_transport_entries(q).filter(|e: Seq<char>| is_seek_entry(e)).len() == 0,
{
    let keep = |e: Seq<char>| !is_transport_intent(e) && !is_seek_entry(e);
    lemma_filter_disjoint(q, keep, |e: Seq<char>| is_transport_intent(e));
    lemma_filter_disjoint(q, keep, |e: Seq<char>| is_seek_entry(e));
}

/// Taking the oldest command keeps at most one intent and one seek waiting.
pub proof fn lemma_pop_keeps_single_pending(q: Seq<Seq<char>>)
    requires
        single_pending_intents(q),
        q.len() > 0,
    ensures
        single_pending_intents(q.drop_first()),
{
    assert(q =~= seq![q[0]] + q.drop_first());
    q.drop_first().lemma_filter_prepend(q[0], |e: Seq<char>| is_transport_intent(e));
    q.drop_first().lemma_filter_prepend(q[0], |e: Seq<char>| is_seek_entry(e));
}

} // verus!
verus! {

/// An end is handled once: reported again for the same song before any
/// poll saw it playing, it is ignored and nothing is remembered anew.
pub proof fn lemma_end_handled_once(
    last: Option<Seq<char>>,
    replayed: Option<Seq<char>>,
    current: Option<Seq<char>>,
    preview: bool,
    is_playing: bool,
    repeat: RepeatMode,
    shuffle: bool,
    index: usize,
    len: usize,
    is_playing2: bool,
    repeat2: RepeatMode,
    shuffle2: bool,
    index2: usize,
    len2: usize,
)
    ensures
        ({
            let (_, last1, replayed1) = ended_step(last, replayed, current, preview, is_playing, repeat, shuffle, index, len);
            ended_step(last1, replayed1, current, preview, is_playing2, repeat2, shuffle2, index2, len2)
                == (EndedOutcome { scrobble: false, action: TransportAction::Stay }, last1, replayed1)
        }),
{
}

/// Under repeat-one a track is replayed once when it ends, and playback
/// stops when it ends again.
pub proof fn lemma_repeat_one_replays_once(
    id: Seq<char>,
    replayed: Option<Seq<char>>,
    is_playing: bool,
    shuffle: bool,
    index: usize,
    len: usize,
)
    requires
        replayed != Some(id),
    ensures
        ({
            let (first, replayed1) = ended_action_spec(Some(id), replayed, is_playing, RepeatMode::One, shuffle, index, len);
            let (second, replayed2) = ended_action_spec(Some(id), replayed1, true, RepeatMode::One, shuffle, index, len);
            &&& first == TransportAction::Restart { playing: is_playing }
            &&& second == TransportAction::SetPlaying { playing: false }
            &&& replayed2 is None
        }),
{
}

/// A playing song is reported stopped only on the third paused poll in a
/// row (past the first moments of the track, and unless it ended); one or
/// two paused polls change nothing.
pub proof fn lemma_stop_after_three_paused_polls(s: PlayStateSync, ended: bool, past_startup: bool)
    requires
        s.paused_streak == 0,
    ensures
        ({
            let (s1, r1) = observed(s, true, true, ended, true, past_startup);
            let (s2, r2) = observed(s1, true, true, ended, true, past_startup);
            let (_, r3) = observed(s2, true, true, ended, true, past_startup);
            &&& r1 is None
            &&& r2 is None
            &&& r3 == (if !ended && past_startup { Some(false) } else { None })
        }),
{
}

/// A stopped song is reported playing on the second playing poll in a row,
/// not on the first.
pub proof fn lemma_play_after_two_playing_polls(s: PlayStateSync, ended: bool, past_startup: bool)
    requires
        s.playing_streak == 0,
    ensures
        ({
            let (s1, r1) = observed(s, true, false, ended, false, past_startup);
            let (_, r2) = observed(s1, true, false, ended, false, past_startup);
            &&& r1 is None
            &&& r2 == Some(true)
        }),
{
}

/// A detail view re-entered for another item is reached through the home
/// view: the home view hands the waiting target out once, and nothing
/// waits after.
pub proof fn lemma_refreshed_route_reaches_target(nav: Navigation, target: AppView)
    requires
        should_refresh_spec(nav.current_view, target),
    ensures
        ({
            let home = navigated(nav, target);
            let (handed, after) = resumed(home);
            &&& home.current_view == (AppView::HomeView {})
            &&& handed == Some(target)
            &&& after.pending_target is None
            &&& resumed(after).0 is None
        }),
{
}

/// Any other navigation shows its target at once and leaves the waiting
/// target as it was.
pub proof fn lemma_plain_route_shows_target(nav: Navigation, target: AppView)
    requires
        !should_refresh_spec(nav.current_view, target),
    ensures
        navigated(nav, target).current_view == target,
        navigated(nav, target).pending_target == nav.pending_target,
{
}

/// In a playback plan, a step forward and a step back return to the entry
/// the player started on, and so does a step back and a step forward.
pub proof fn lemma_plan_steps_undo(current: int, len: int, repeat: RepeatMode)
    requires
        0 <= current < len,
    ensures
        plan_target(PlanStep::Next, current, len, repeat) matches Some(n) ==> plan_target(
            PlanStep::Previous,
            n,
            len,
            repeat,
        ) == Some(current),
        plan_target(PlanStep::Previous, current, len, repeat) matches Some(p) ==> plan_target(
            PlanStep::Next,
            p,
            len,
            repeat,
        ) == Some(current),
{
}

/// A background skip forward followed by a skip back returns the plan to
/// the entry it started on, when that entry can be played.
pub proof fn lemma_plan_transition_back_and_forth(plan: PlaybackPlan)
    requires
        plan.index < plan.items@.len(),
        plan.items@[plan.index as int].src is Some,
    ensures
        transition_target(plan, PlanStep::Next) matches Some(t) ==> transition_target(
            PlaybackPlan { index: t as usize, ..plan },
            PlanStep::Previous,
        ) == Some(plan.index as int),
        transition_target(plan, PlanStep::Previous) matches Some(t) ==> transition_target(
            PlaybackPlan { index: t as usize, ..plan },
            PlanStep::Next,
        ) == Some(plan.index as int),
{
    vstd::std_specs::vec::axiom_spec_len(&plan.items);
}

} // verus!
verus! {

/// A DOM id is never empty and holds only lower-case ASCII letters, digits
/// and `-`; sanitizing it again changes nothing.
pub proof fn lemma_dom_id_clean(raw: Seq<char>)
    ensures
        dom_id_spec(raw).len() > 0,
        forall|i: int|
            0 <= i < dom_id_spec(raw).len() ==> {
                let c = #[trigger] dom_id_spec(raw)[i];
                ('a' <= c && c <= 'z') || ('0' <= c && c <= '9') || c == '-'
            },
        dom_id_spec(dom_id_spec(raw)) == dom_id_spec(raw),
{
    reveal_strlit("lyrics");
    let once = dom_id_spec(raw);
    assert(dom_id_spec(once) =~= once);
}

} // verus!
verus! {

/// `b` takes each entry of `a` at most once: `b[i] == a[f(i)]` for an
/// injective `f` into the indices of `a`.
pub open spec fn is_reindexing(a: Seq<Song>, b: Seq<Song>, f: spec_fn(int) -> int) -> bool {
    &&& a.len() == b.len()
    &&& forall|i: int| 0 <= i < b.len() ==> 0 <= #[trigger] f(i) < a.len() && b[i] == a[f(i)]
    &&& forall|i: int, j: int| 0 <= i < b.len() && 0 <= j < b.len() && i != j ==> #[trigger] f(i) != #[trigger] f(j)
}

proof fn lemma_reindexing_is_permutation(a: Seq<Song>, b: Seq<Song>, f: spec_fn(int) -> int)
    requires
        is_reindexing(a, b, f),
    ensures
        b.to_multiset() == a.to_multiset(),
    decreases b.len(),
{
    broadcast use vstd::multiset::group_multiset_axioms;

    if b.len() == 0 {
        assert(a =~= Seq::<Song>::empty());
        assert(b =~= Seq::<Song>::empty());
    } else {
        let n = b.len() - 1;
        let k = f(n);
        let a1 = a.remove(k);
        let b1 = b.drop_last();
        let f1 = |i: int| if f(i) < k { f(i) } else { f(i) - 1 };
        assert forall|i: int| 0 <= i < b1.len() implies 0 <= #[trigger] f1(i) < a1.len() && b1[i] == a1[f1(i)] by {
            assert(f(i) != f(n));
        }
        assert forall|i: int, j: int| 0 <= i < b1.len() && 0 <= j < b1.len() && i != j implies #[trigger] f1(i)
            != #[trigger] f1(j) by {
            assert(f(i) != f(j));
            assert(f(i) != f(n));
            assert(f(j) != f(n));
        }
        lemma_reindexing_is_permutation(a1, b1, f1);
        vstd::seq_lib::to_multiset_remove(a, k);
        assert(b =~= b1.push(b[n]));
        vstd::seq_lib::to_multiset_build(b1, b[n]);
        vstd::seq_lib::to_multiset_contains(a, a[k]);
        assert(a.to_multiset().remove(a[k]).insert(a[k]) =~= a.to_multiset());
    }
}

/// The index a reshuffle takes the song at `i` from: the group slot's new
/// source for a group position, `i` itself elsewhere.
pub open spec fn reshuffle_source(pos: Seq<usize>, order: Seq<usize>, i: int) -> int {
    if exists|s: int| 0 <= s < pos.len() && pos[s] == i {
        let s = choose|s: int| 0 <= s < pos.len() && pos[s] == i;
        pos[order[s] as int] as int
    } else {
        i
    }
}

/// What a reshuffle that changed the queue guarantees of its shape: `pos`
/// lists the group's positions, `order` is a slot order, songs outside the
/// group stay, and group slot `s` receives the song of slot `order[s]`.
pub open spec fn reshuffle_shape(q: Seq<Song>, g: Seq<char>, pos: Seq<usize>, order: Seq<usize>, fq: Seq<Song>) -> bool {
    let k = pos.len() as int;
    &&& is_group_positions(q, g, pos)
    &&& is_slot_order(order, k)
    &&& fq.len() == q.len()
    &&& forall|i: int| 0 <= i < q.len() && !in_group(q[i], g) ==> fq[i] == q[i]
    &&& forall|s: int| 0 <= s < k ==> fq[pos[s] as int] == group_songs(q, pos)[order[s] as int]
}

#[verifier::spinoff_prover]
proof fn lemma_reshuffle_source_entry(q: Seq<Song>, g: Seq<char>, pos: Seq<usize>, order: Seq<usize>, fq: Seq<Song>, i: int)
    requires
        reshuffle_shape(q, g, pos, order, fq),
        0 <= i < fq.len(),
    ensures
        0 <= reshuffle_source(pos, order, i) < q.len(),
        fq[i] == q[reshuffle_source(pos, order, i)],
{
    let k = pos.len() as int;
    if in_group(q[i], g) {
        let s = choose|s: int| 0 <= s < pos.len() && pos[s] == i;
        assert(0 <= s < k && pos[s] == i);
        assert(order[s] < k);
        assert(fq[pos[s] as int] == group_songs(q, pos)[order[s] as int]);
    } else if exists|s: int| 0 <= s < pos.len() && pos[s] == i {
        let s = choose|s: int| 0 <= s < pos.len() && pos[s] == i;
        assert(in_group(q[pos[s] as int], g));
    }
}

#[verifier::spinoff_prover]
proof fn lemma_reshuffle_source_injective(q: Seq<Song>, g: Seq<char>, pos: Seq<usize>, order: Seq<usize>, fq: Seq<Song>, i: int, j: int)
    requires
        reshuffle_shape(q, g, pos, order, fq),
        0 <= i < q.len(),
        0 <= j < q.len(),
        i != j,
    ensures
        reshuffle_source(pos, order, i) != reshuffle_source(pos, order, j),
{
    let ei = exists|s: int| 0 <= s < pos.len() && pos[s] == i;
    let ej = exists|s: int| 0 <= s < pos.len() && pos[s] == j;
    if ei && ej {
        let si = choose|s: int| 0 <= s < pos.len() && pos[s] == i;
        let sj = choose|s: int| 0 <= s < pos.len() && pos[s] == j;
        assert(si != sj);
        assert(order[si] != order[sj]);
        let (oi, oj) = (order[si] as int, order[sj] as int);
        if oi < oj {
            assert(pos[oi] < pos[oj]);
        } else {
            assert(pos[oj] < pos[oi]);
        }
    } else if ei {
        let si = choose|s: int| 0 <= s < pos.len() && pos[s] == i;
        let oi = order[si] as int;
        if pos[oi] == j {
            assert(0 <= oi < pos.len() && pos[oi] == j);
        }
    } else if ej {
        let sj = choose|s: int| 0 <= s < pos.len() && pos[s] == j;
        let oj = order[sj] as int;
        if pos[oj] == i {
            assert(0 <= oj < pos.len() && pos[oj] == i);
        }
    }
}

/// Switching a collection between shuffled and original order neither
/// loses nor duplicates a song: the queue after is a rearrangement of the
/// queue before.
pub proof fn lemma_reshuffle_is_permutation(
    q: Seq<Song>,
    g: Seq<char>,
    now: Option<Song>,
    prev: usize,
    shuffle: bool,
    pos: Seq<usize>,
    order: Seq<usize>,
    changed: bool,
    fq: Seq<Song>,
    fi: usize,
)
    requires
        group_reshuffle(q, g, now, prev, shuffle, pos, order, changed, fq, fi),
    ensures
        fq.len() == q.len(),
        fq.to_multiset() == q.to_multiset(),
{
    if changed {
        assert(reshuffle_shape(q, g, pos, order, fq));
        let f = |i: int| reshuffle_source(pos, order, i);
        assert forall|i: int| 0 <= i < fq.len() implies 0 <= #[trigger] f(i) < q.len() && fq[i] == q[f(i)] by {
            lemma_reshuffle_source_entry(q, g, pos, order, fq, i);
        }
        assert forall|i: int, j: int| 0 <= i < fq.len() && 0 <= j < fq.len() && i != j implies #[trigger] f(i)
            != #[trigger] f(j) by {
            lemma_reshuffle_source_injective(q, g, pos, order, fq, i, j);
        }
        lemma_reindexing_is_permutation(q, fq, f);
    }
}

} // verus!
verus! {

/// The next button of the player bar moves one entry forward whenever there
/// is a next entry, whatever the repeat and shuffle modes (repeat-one
/// restarts instead, a station does nothing); it only ever selects the next
/// entry or, from the last entry, the first.
pub proof fn lemma_next_button_advances(
    is_radio: bool,
    was_playing: bool,
    repeat: RepeatMode,
    shuffle: bool,
    index: usize,
    len: usize,
)
    ensures
        !is_radio && repeat != RepeatMode::One && index + 1 < len ==> next_button_spec(
            is_radio,
            was_playing,
            repeat,
            shuffle,
            index,
            len,
        ) == (TransportAction::Select { index: (index + 1) as usize, playing: was_playing }),
        next_button_spec(is_radio, was_playing, repeat, shuffle, index, len) matches TransportAction::Select {
            index: i,
            playing,
        } ==> playing == was_playing && (i == index + 1 || (i == 0 && index + 1 >= len && repeat
            == RepeatMode::All)),
        !is_radio && repeat == RepeatMode::One ==> next_button_spec(is_radio, was_playing, repeat, shuffle, index, len)
            == (TransportAction::Restart { playing: was_playing }),
        is_radio ==> next_button_spec(is_radio, was_playing, repeat, shuffle, index, len) == TransportAction::Stay,
        !is_radio && repeat == RepeatMode::All && index + 1 >= len && len > 0 ==> next_button_spec(
            is_radio,
            was_playing,
            repeat,
            shuffle,
            index,
            len,
        ) == (TransportAction::Select { index: 0, playing: was_playing }),
        !is_radio && repeat == RepeatMode::Off && shuffle && index + 1 >= len ==> next_button_spec(
            is_radio,
            was_playing,
            repeat,
            shuffle,
            index,
            len,
        ) == (TransportAction::GenerateQueue { playing: was_playing }),
        !is_radio && repeat == RepeatMode::Off && !shuffle && index + 1 >= len ==> next_button_spec(
            is_radio,
            was_playing,
            repeat,
            shuffle,
            index,
            len,
        ) == TransportAction::Stay,
        !is_radio && 0 < index < len ==> prev_button_spec(is_radio, was_playing, index, len) == (TransportAction::Select {
            index: (index - 1) as usize,
            playing: was_playing,
        }),
        (is_radio || index == 0 || index > len) ==> prev_button_spec(is_radio, was_playing, index, len)
            == TransportAction::Stay,
{
}

/// A remote "previous" on a station does nothing; otherwise, from any entry
/// but the first it goes back exactly one entry and plays; a remote "next"
/// goes forward exactly one entry and plays whenever there is a next entry.
pub proof fn lemma_remote_skips_move_one_entry(
    is_radio: bool,
    currently_playing: bool,
    repeat: RepeatMode,
    shuffle: bool,
    index: usize,
    len: usize,
)
    ensures
        !is_radio && 0 < index < len ==> remote_action_spec(
            RemoteCommand::Previous,
            is_radio,
            currently_playing,
            repeat,
            shuffle,
            index,
            len,
        ) == (TransportAction::Select { index: (index - 1) as usize, playing: true }),
        !is_radio && index + 1 < len ==> remote_action_spec(
            RemoteCommand::Next,
            is_radio,
            currently_playing,
            repeat,
            shuffle,
            index,
            len,
        ) == (TransportAction::Select { index: (index + 1) as usize, playing: true }),
        is_radio ==> remote_action_spec(RemoteCommand::Previous, is_radio, currently_playing, repeat, shuffle, index, len)
            == TransportAction::Stay,
        is_radio ==> remote_action_spec(RemoteCommand::Next, is_radio, currently_playing, repeat, shuffle, index, len)
            == TransportAction::Stay,
        remote_action_spec(RemoteCommand::Previous, is_radio, currently_playing, repeat, shuffle, index, len) matches TransportAction::Select {
            index: i,
            ..
        } ==> i + 1 == index || (index == 0 && i + 1 == len && repeat == RepeatMode::All),
        remote_action_spec(RemoteCommand::Next, is_radio, currently_playing, repeat, shuffle, index, len) matches TransportAction::Select {
            index: i,
            ..
        } ==> i == index + 1 || (i == 0 && index + 1 >= len && repeat == RepeatMode::All),
        !is_radio && index == 0 && len > 0 ==> remote_action_spec(
            RemoteCommand::Previous,
            is_radio,
            currently_playing,
            repeat,
            shuffle,
            index,
            len,
        ) == (if repeat == RepeatMode::All {
            TransportAction::Select { index: (len - 1) as usize, playing: true }
        } else {
            TransportAction::Restart { playing: true }
        }),
        remote_action_spec(RemoteCommand::Play, is_radio, currently_playing, repeat, shuffle, index, len)
            == (TransportAction::SetPlaying { playing: true }),
        remote_action_spec(RemoteCommand::Pause, is_radio, currently_playing, repeat, shuffle, index, len)
            == (TransportAction::SetPlaying { playing: false }),
        remote_action_spec(RemoteCommand::TogglePlay, is_radio, currently_playing, repeat, shuffle, index, len)
            == (TransportAction::SetPlaying { playing: !currently_playing }),
        !is_radio && len == 0 ==> remote_action_spec(
            RemoteCommand::Next,
            is_radio,
            currently_playing,
            repeat,
            shuffle,
            index,
            len,
        ) == (TransportAction::GenerateQueue { playing: true }),
{
}

/// When a track ends and repeat-one is off, the next entry plays whenever
/// there is one, whatever the shuffle mode; a new queue is generated, the
/// queue wraps or playback stops only at the last entry.
pub proof fn lemma_end_advances_to_next_entry(
    current: Option<Seq<char>>,
    replayed: Option<Seq<char>>,
    is_playing: bool,
    repeat: RepeatMode,
    shuffle: bool,
    index: usize,
    len: usize,
)
    requires
        repeat != RepeatMode::One,
    ensures
        index + 1 < len ==> ended_action_spec(current, replayed, is_playing, repeat, shuffle, index, len).0
            == (TransportAction::Select { index: (index + 1) as usize, playing: true }),
        ended_action_spec(current, replayed, is_playing, repeat, shuffle, index, len).0 is GenerateQueue ==> index
            + 1 >= len && len > 0 && shuffle && repeat == RepeatMode::Off,
        ended_action_spec(current, replayed, is_playing, repeat, shuffle, index, len).0 == (TransportAction::Select {
            index: 0,
            playing: true,
        }) && len > 1 ==> index + 1 >= len,
        ended_action_spec(current, replayed, is_playing, repeat, shuffle, index, len).1 == replayed,
{
}

/// An end accepted by the tracker (another song than the one whose end was
/// last handled, outside preview playback) scrobbles a selected song and,
/// with repeat-one off, plays the next entry whenever there is one.
pub proof fn lemma_accepted_end_plays_next(
    last: Option<Seq<char>>,
    replayed: Option<Seq<char>>,
    current: Option<Seq<char>>,
    is_playing: bool,
    repeat: RepeatMode,
    shuffle: bool,
    index: usize,
    len: usize,
)
    requires
        last != current,
        repeat != RepeatMode::One,
        index + 1 < len,
    ensures
        ended_step(last, replayed, current, false, is_playing, repeat, shuffle, index, len).0 == (EndedOutcome {
            scrobble: current is Some,
            action: TransportAction::Select { index: (index + 1) as usize, playing: true },
        }),
{
}

/// The lyrics shown with sync on: timed lyrics from an LRCLIB upgrade win;
/// without them, a cached copy with timed lines is shown, whatever became
/// of the primary lookup; only without either does the primary lookup
/// decide.
pub proof fn lemma_timed_lyrics_win_when_syncing(
    primary: Option<Result<LyricsResult, String>>,
    upgrade: Option<Result<Option<LyricsResult>, String>>,
    cached: Option<LyricsResult>,
)
    ensures
        upgrade matches Some(Ok(Some(u))) ==> (u.synced_lines.len() > 0 ==> display_lyrics_spec(
            true,
            primary,
            upgrade,
            cached,
        ) == Some(Ok::<LyricsResult, String>(u))),
        !(upgrade matches Some(Ok(Some(u))) && u.synced_lines.len() > 0) && (cached matches Some(c)
            && c.synced_lines.len() > 0) ==> display_lyrics_spec(true, primary, upgrade, cached) == Some(
            Ok::<LyricsResult, String>(cached->0),
        ),
        primary matches Some(Ok(l)) ==> display_lyrics_spec(false, primary, upgrade, cached) == Some(
            Ok::<LyricsResult, String>(l),
        ),
        display_lyrics_spec(false, primary, upgrade, cached) is None ==> primary is None,
        primary matches Some(Err(e)) ==> (upgrade matches Some(Ok(Some(u))) ==> display_lyrics_spec(
            false,
            primary,
            upgrade,
            cached,
        ) == Some(Ok::<LyricsResult, String>(u))),
        primary matches Some(Err(e)) ==> (!(upgrade matches Some(Ok(Some(_)))) ==> display_lyrics_spec(
            false,
            primary,
            upgrade,
            cached,
        ) == Some(Err::<LyricsResult, String>(e))),
{
}

/// Re-entering a detail view of the same kind needs the route rebuilt
/// exactly when the item or the server differs; moving between views of
/// different kinds never does.
pub proof fn lemma_detail_refresh_iff_other_item(a: String, s: String, b: String, t: String, other: AppView)
    ensures
        should_refresh_spec(
            AppView::AlbumDetailView { album_id: a, server_id: s },
            AppView::AlbumDetailView { album_id: b, server_id: t },
        ) <==> (a@ != b@ || s@ != t@),
        should_refresh_spec(
            AppView::ArtistDetailView { artist_id: a, server_id: s },
            AppView::ArtistDetailView { artist_id: b, server_id: t },
        ) <==> (a@ != b@ || s@ != t@),
        should_refresh_spec(
            AppView::PlaylistDetailView { playlist_id: a, server_id: s },
            AppView::PlaylistDetailView { playlist_id: b, server_id: t },
        ) <==> (a@ != b@ || s@ != t@),
        !(other is AlbumDetailView) ==> !should_refresh_spec(
            AppView::AlbumDetailView { album_id: a, server_id: s },
            other,
        ),
        !(other is ArtistDetailView) ==> !should_refresh_spec(
            AppView::ArtistDetailView { artist_id: a, server_id: s },
            other,
        ),
        !(other is PlaylistDetailView) ==> !should_refresh_spec(
            AppView::PlaylistDetailView { playlist_id: a, server_id: s },
            other,
        ),
        should_refresh_spec(other, AppView::HomeView {}) == false,
{
}

/// Going to another item's detail view passes through the home view with
/// the target waiting; going to the same item shows it at once.
pub proof fn lemma_navigate_to_other_artist(nav: Navigation, a: String, s: String, b: String)
    requires
        nav.current_view == (AppView::ArtistDetailView { artist_id: a, server_id: s }),
        a@ != b@,
    ensures
        navigated(nav, AppView::ArtistDetailView { artist_id: b, server_id: s }).current_view == (AppView::HomeView {}),
        navigated(nav, AppView::ArtistDetailView { artist_id: b, server_id: s }).pending_target == Some(
            AppView::ArtistDetailView { artist_id: b, server_id: s },
        ),
{
}

} // verus!
