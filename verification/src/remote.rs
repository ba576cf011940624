//! System media-control integration: the queue of pending remote commands,
//! the de-duplication of repeated skip commands, and the playback plan
//! that lets a native player move to the next track on its own.
use vstd::prelude::*;

use crate::model::RepeatMode;
use crate::stream::NativeTrackMetadata;
use crate::text::{str_eq, str_starts_with};

verus! {

/// A play or pause intent.
pub open spec fn is_transport_intent(a: Seq<char>) -> bool {
    a == "play"@ || a == "pause"@
}

/// A seek request (`seek:<seconds>`).
pub open spec fn is_seek_entry(a: Seq<char>) -> bool {
    a.len() >= 5 && a.take(5) == "seek:"@
}

/// Which queued entries a new action replaces: a new play/pause intent
/// replaces every older one, a new seek replaces every older seek.
pub open spec fn replaced_by(action: Seq<char>, entry: Seq<char>) -> bool {
    if is_transport_intent(action) {
        is_transport_intent(entry)
    } else if is_seek_entry(action) {
        is_seek_entry(entry)
    } else {
        false
    }
}

/// The queue after `action` arrives: the entries it replaces leave, and it
/// joins at the back.
pub open spec fn queue_after_push(q: Seq<Seq<char>>, action: Seq<char>) -> Seq<Seq<char>> {
    q.filter(|e: Seq<char>| !replaced_by(action, e)).push(action)
}

/// The queue without its play/pause intents and seeks.
pub open spec fn without_transport_entries(q: Seq<Seq<char>>) -> Seq<Seq<char>> {
    q.filter(|e: Seq<char>| !is_transport_intent(e) && !is_seek_entry(e))
}

/// At most one play/pause intent and at most one seek wait in the queue.
pub open spec fn single_pending_intents(q: Seq<Seq<char>>) -> bool {
    &&& q.filter(|e: Seq<char>| is_transport_intent(e)).len() <= 1
    &&& q.filter(|e: Seq<char>| is_seek_entry(e)).len() <= 1
}

/// Commands from the system's media controls, waiting for the player to
/// pick them up in order.
pub struct RemoteActionQueue {
    actions: Vec<String>,
}

impl View for RemoteActionQueue {
    type V = Seq<Seq<char>>;

    closed spec fn view(&self) -> Seq<Seq<char>> {
        self.actions@.map_values(|a: String| a@)
    }
}

fn is_intent_exec(a: &str) -> (r: bool)
    ensures
        r == is_transport_intent(a@),
{
    str_eq(a, "play") || str_eq(a, "pause")
}

fn is_seek_exec(a: &str) -> (r: bool)
    ensures
        r == is_seek_entry(a@),
{
    proof {
        reveal_strlit("seek:");
    }
    str_starts_with(a, "seek:")
}

impl RemoteActionQueue {
    pub fn new() -> (r: RemoteActionQueue)
        ensures
            r@ == Seq::<Seq<char>>::empty(),
    {
        let r = RemoteActionQueue { actions: Vec::new() };
        assert(r@ =~= Seq::<Seq<char>>::empty());
        r
    }

    pub fn len(&self) -> (r: usize)
        ensures
            r == self@.len(),
    {
        self.actions.len()
    }

    /// Keeps only the entries that `action` does not replace, then queues
    /// `action` at the back.
    pub fn push(&mut self, action: &str)
        ensures
            final(self)@ == queue_after_push(old(self)@, action@),
    {
        let intent = is_intent_exec(action);
        let seek = is_seek_exec(action);
        let ghost pred = |e: Seq<char>| !replaced_by(action@, e);
        let mut kept: Vec<String> = Vec::new();
        let mut i: usize = 0;
        while i < self.actions.len()
            invariant
                i <= self.actions@.len(),
                self.actions@ == old(self).actions@,
                intent == is_transport_intent(action@),
                seek == is_seek_entry(action@),
                pred == |e: Seq<char>| !replaced_by(action@, e),
                kept@.map_values(|a: String| a@) == self@.take(i as int).filter(pred),
            decreases self.actions@.len() - i,
        {
            proof {
                reveal_with_fuel(Seq::<_>::filter, 1);
                assert(self@.take(i + 1).drop_last() =~= self@.take(i as int));
                assert(self@.take(i + 1).last() == self.actions@[i as int]@);
            }
            let entry = self.actions[i].as_str();
            let drop = if intent {
                is_intent_exec(entry)
            } else if seek {
                is_seek_exec(entry)
            } else {
                false
            };
            if !drop {
                let ghost before = kept@;
                kept.push(self.actions[i].clone());
                assert(kept@.map_values(|a: String| a@) =~= before.map_values(|a: String| a@).push(self.actions@[i as int]@));
            }
            i += 1;
        }
        assert(self@.take(self.actions@.len() as int) =~= self@);
        let ghost before = kept@;
        kept.push(String::from_str(action));
        assert(kept@.map_values(|a: String| a@) =~= before.map_values(|a: String| a@).push(action@));
        self.actions = kept;
    }

    /// Drops every queued play/pause intent and seek (the transport state
    /// has been settled another way).
    pub fn clear_transport_intents(&mut self)
        ensures
            final(self)@ == without_transport_entries(old(self)@),
    {
        let ghost pred = |e: Seq<char>| !is_transport_intent(e) && !is_seek_entry(e);
        let mut kept: Vec<String> = Vec::new();
        let mut i: usize = 0;
        while i < self.actions.len()
            invariant
                i <= self.actions@.len(),
                self.actions@ == old(self).actions@,
                pred == |e: Seq<char>| !is_transport_intent(e) && !is_seek_entry(e),
                kept@.map_values(|a: String| a@) == self@.take(i as int).filter(pred),
            decreases self.actions@.len() - i,
        {
            proof {
                reveal_with_fuel(Seq::<_>::filter, 1);
                assert(self@.take(i + 1).drop_last() =~= self@.take(i as int));
                assert(self@.take(i + 1).last() == self.actions@[i as int]@);
            }
            let entry = self.actions[i].as_str();
            if !(is_intent_exec(entry) || is_seek_exec(entry)) {
                let ghost before = kept@;
                kept.push(self.actions[i].clone());
                assert(kept@.map_values(|a: String| a@) =~= before.map_values(|a: String| a@).push(self.actions@[i as int]@));
            }
            i += 1;
        }
        assert(self@.take(self.actions@.len() as int) =~= self@);
        self.actions = kept;
    }

    /// Takes the oldest queued command.
    pub fn pop(&mut self) -> (r: Option<String>)
        ensures
            old(self)@.len() == 0 ==> r is None && final(self)@ == old(self)@,
            old(self)@.len() > 0 ==> r is Some && r->0@ == old(self)@[0] && final(self)@ == old(self)@.drop_first(),
    {
        if self.actions.len() == 0 {
            return None;
        }
        let first = self.actions.remove(0);
        assert(self@ =~= old(self)@.drop_first());
        Some(first)
    }
}

/// Remembers the last skip command and when it came, to ignore a repeat of
/// it that follows within 650 ms (some lock screens deliver one press twice).
pub struct NavActionDebounce {
    pub last_action: String,
    pub last_ms: u128,
}

impl NavActionDebounce {
    pub fn new() -> (r: NavActionDebounce)
        ensures
            r.last_action@ == Seq::<char>::empty(),
            r.last_ms == 0,
    {
        NavActionDebounce { last_action: String::new(), last_ms: 0 }
    }

    /// Whether `action`, arriving at `now_ms`, repeats the last one too
    /// soon; an action that is not ignored becomes the last one.
    pub fn should_ignore(&mut self, action: &str, now_ms: u128) -> (r: bool)
        ensures
            r == (old(self).last_action@ == action@ && (if now_ms >= old(self).last_ms {
                now_ms - old(self).last_ms
            } else {
                0
            }) < 650),
            r ==> final(self).last_action@ == old(self).last_action@ && final(self).last_ms == old(self).last_ms,
            !r ==> final(self).last_action@ == action@ && final(self).last_ms == now_ms,
    {
        let elapsed = now_ms.saturating_sub(self.last_ms);
        if str_eq(self.last_action.as_str(), action) && elapsed < 650 {
            return true;
        }
        self.last_action = String::from_str(action);
        self.last_ms = now_ms;
        false
    }
}

/// One queue entry as a native player sees it: the song id, its resolved
/// source (none when it cannot be played) and its metadata.
pub struct PlanItem {
    pub song_id: String,
    pub src: Option<String>,
    pub meta: NativeTrackMetadata,
}

impl Clone for PlanItem {
    fn clone(&self) -> (r: Self)
        ensures
            r == *self,
    {
        PlanItem {
            song_id: self.song_id.clone(),
            src: crate::model::clone_opt_string(&self.src),
            meta: self.meta.clone(),
        }
    }
}

/// A step a native player may take by itself.
#[derive(Debug, Clone, Copy, PartialEq, Eq, Structural)]
pub enum PlanStep {
    /// The next track (the "next" command, or the end of a track).
    Next,
    Previous,
}

/// Reads an action name as a plan step ("next" and "ended" go forward).
pub fn plan_step_of(action: &str) -> (r: Option<PlanStep>)
    ensures
        r == (if action@ == "next"@ || action@ == "ended"@ {
            Some(PlanStep::Next)
        } else if action@ == "previous"@ {
            Some(PlanStep::Previous)
        } else {
            None
        }),
{
    if str_eq(action, "next") || str_eq(action, "ended") {
        Some(PlanStep::Next)
    } else if str_eq(action, "previous") {
        Some(PlanStep::Previous)
    } else {
        None
    }
}

/// The queue as last handed to a native player, so that it can move to a
/// neighbouring track while the app is in the background.
pub struct PlaybackPlan {
    pub items: Vec<PlanItem>,
    pub index: usize,
    pub repeat_mode: RepeatMode,
    pub shuffle: bool,
}

/// The entry a step leads to from `current`, if any: forward or back one
/// entry, wrapping around only under repeat-all.
pub open spec fn plan_target(step: PlanStep, current: int, len: int, repeat: RepeatMode) -> Option<int> {
    match step {
        PlanStep::Next => if current + 1 < len {
            Some(current + 1)
        } else if repeat == RepeatMode::All {
            Some(0)
        } else {
            None
        },
        PlanStep::Previous => if current > 0 {
            Some(current - 1)
        } else if repeat == RepeatMode::All {
            Some(len - 1)
        } else {
            None
        },
    }
}

/// The entry a plan moves to on `step`: the neighbouring entry (see
/// `plan_target`) from the plan's index kept within its items, when there
/// is one and it has a source.
pub open spec fn transition_target(plan: PlaybackPlan, step: PlanStep) -> Option<int> {
    let len = plan.items@.len() as int;
    let current = if plan.index < len - 1 { plan.index as int } else { len - 1 };
    let target = plan_target(step, current, len, plan.repeat_mode);
    if len > 0 && target is Some && plan.items@[target->0].src is Some {
        target
    } else {
        None
    }
}

impl PlaybackPlan {
    pub fn new() -> (r: PlaybackPlan)
        ensures
            r.items@.len() == 0,
            r.index == 0,
            r.repeat_mode == RepeatMode::Off,
            !r.shuffle,
    {
        PlaybackPlan { items: Vec::new(), index: 0, repeat_mode: RepeatMode::Off, shuffle: false }
    }

    /// Replaces the plan; the index is kept within the items.
    pub fn update(&mut self, items: Vec<PlanItem>, index: usize, repeat_mode: RepeatMode, shuffle: bool)
        ensures
            final(self).items@ == items@,
            final(self).index == (if items@.len() == 0 {
                0
            } else if index < items@.len() - 1 {
                index as int
            } else {
                items@.len() - 1
            }),
            final(self).repeat_mode == repeat_mode,
            final(self).shuffle == shuffle,
    {
        let len = items.len();
        let last = if len > 0 { len - 1 } else { 0 };
        self.items = items;
        self.index = if index < last { index } else { last };
        self.repeat_mode = repeat_mode;
        self.shuffle = shuffle;
    }

    /// The player now plays `song_id`: the plan moves to its first entry.
    pub fn sync_current_song(&mut self, song_id: Option<&String>)
        ensures
            final(self).items@ == old(self).items@,
            final(self).repeat_mode == old(self).repeat_mode,
            final(self).shuffle == old(self).shuffle,
            match song_id {
                Some(id) => if exists|i: int| 0 <= i < old(self).items@.len() && old(self).items@[i].song_id@ == id@ {
                    &&& final(self).index < old(self).items@.len()
                    &&& old(self).items@[final(self).index as int].song_id@ == id@
                    &&& forall|j: int| 0 <= j < final(self).index ==> old(self).items@[j].song_id@ != id@
                } else {
                    final(self).index == old(self).index
                },
                None => final(self).index == old(self).index,
            },
    {
        let Some(id) = song_id else {
            return;
        };
        let mut i: usize = 0;
        while i < self.items.len()
            invariant
                i <= self.items@.len(),
                self.items@ == old(self).items@,
                self.index == old(self).index,
                self.repeat_mode == old(self).repeat_mode,
                self.shuffle == old(self).shuffle,
                song_id == Some(id),
                forall|j: int| 0 <= j < i ==> self.items@[j].song_id@ != id@,
            decreases self.items@.len() - i,
        {
            if self.items[i].song_id == *id {
                self.index = i;
                return;
            }
            i += 1;
        }
    }

    /// Moves the plan one step and hands out the entry to play, when there
    /// is one and it has a source; otherwise nothing changes.
    pub fn take_transition(&mut self, step: PlanStep) -> (r: Option<PlanItem>)
        ensures
            final(self).items@ == old(self).items@,
            final(self).repeat_mode == old(self).repeat_mode,
            final(self).shuffle == old(self).shuffle,
            match transition_target(*old(self), step) {
                Some(t) => r == Some(old(self).items@[t]) && final(self).index == t,
                None => r is None && final(self).index == old(self).index,
            },
    {
        let len = self.items.len();
        if len == 0 {
            return None;
        }
        let current = if self.index < len - 1 { self.index } else { len - 1 };
        let target = match step {
            PlanStep::Next => if current + 1 < len {
                Some(current + 1)
            } else if self.repeat_mode == RepeatMode::All {
                Some(0)
            } else {
                None
            },
            PlanStep::Previous => if current > 0 {
                Some(current - 1)
            } else if self.repeat_mode == RepeatMode::All {
                Some(len - 1)
            } else {
                None
            },
        };
        let Some(target) = target else {
            return None;
        };
        if self.items[target].src.is_none() {
            return None;
        }
        let item = self.items[target].clone();
        self.index = target;
        Some(item)
    }
}

/// A skip from the system's media controls while the app may be in the
/// background: when the plan has a playable neighbour, the plan moves to it
/// and it is handed out to be loaded at once (older play/pause intents and
/// seeks are then void); otherwise `queue_action` waits for the app.
pub fn apply_immediate_transition(
    plan: &mut PlaybackPlan,
    actions: &mut RemoteActionQueue,
    step: PlanStep,
    queue_action: &str,
) -> (r: Option<PlanItem>)
    ensures
        final(plan).items@ == old(plan).items@,
        final(plan).repeat_mode == old(plan).repeat_mode,
        final(plan).shuffle == old(plan).shuffle,
        match transition_target(*old(plan), step) {
            Some(t) => {
                &&& r == Some(old(plan).items@[t])
                &&& final(plan).index == t
                &&& final(actions)@ == without_transport_entries(old(actions)@)
            },
            None => {
                &&& r is None
                &&& final(plan).index == old(plan).index
                &&& final(actions)@ == queue_after_push(old(actions)@, queue_action@)
            },
        },
{
    let item = plan.take_transition(step);
    if item.is_some() {
        actions.clear_transport_intents();
    } else {
        actions.push(queue_action);
    }
    item
}

/// A Windows media-button press: play, pause, next and previous are queued
/// as they come.
pub fn push_windows_remote_action(actions: &mut Vec<String>, action: &str)
    ensures
        final(actions)@.len() == old(actions)@.len() + 1,
        final(actions)@.take(old(actions)@.len() as int) == old(actions)@,
        final(actions)@.last()@ == action@,
{
    actions.push(String::from_str(action));
    assert(actions@.take(old(actions)@.len() as int) =~= old(actions)@);
}

} // verus!
