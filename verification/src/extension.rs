//! Growing a queue with songs that are not in it yet: the set of keys
//! already taken, the de-duplicating extension step, and the request plan
//! that fills a queue from similar and random songs.
use vstd::prelude::*;

use crate::model::Song;

verus! {

/// The key under which a song counts as already queued: `server_id::id`.
pub open spec fn song_key(song: Song) -> Seq<char> {
    song.server_id@ + "::"@ + song.id@
}

pub fn queue_extension_song_key(song: &Song) -> (r: String)
    ensures
        r@ == song_key(*song),
{
    let mut key = song.server_id.clone();
    key.append("::");
    key.append(song.id.as_str());
    key
}

/// A set of text keys, held in a hash set.
pub struct KeySet {
    keys: vstd::hash_set::StringHashSet,
}

impl View for KeySet {
    type V = Set<Seq<char>>;

    closed spec fn view(&self) -> Set<Seq<char>> {
        self.keys@
    }
}

impl KeySet {
    pub fn new() -> (r: KeySet)
        ensures
            r@ == Set::<Seq<char>>::empty(),
    {
        KeySet { keys: vstd::hash_set::StringHashSet::new() }
    }

    pub fn contains(&self, key: &String) -> (r: bool)
        ensures
            r == self@.contains(key@),
    {
        self.keys.contains(key.as_str())
    }

    /// Adds `key`; answers whether it was new (as `HashSet::insert` does).
    pub fn insert(&mut self, key: String) -> (r: bool)
        ensures
            r == !old(self)@.contains(key@),
            final(self)@ == old(self)@.insert(key@),
    {
        self.keys.insert(key)
    }
}

/// Takes candidates in order, skipping those whose key is excluded, adding
/// the key of each one taken, until `additions` holds `limit` songs.
pub open spec fn extend_unique(
    cands: Seq<Song>,
    excluded: Set<Seq<char>>,
    additions: Seq<Song>,
    limit: nat,
) -> (Set<Seq<char>>, Seq<Song>)
    decreases cands.len(),
{
    if cands.len() == 0 {
        (excluded, additions)
    } else {
        let c = cands[0];
        if excluded.contains(song_key(c)) {
            extend_unique(cands.drop_first(), excluded, additions, limit)
        } else {
            let ex = excluded.insert(song_key(c));
            let ad = additions.push(c);
            if ad.len() >= limit {
                (ex, ad)
            } else {
                extend_unique(cands.drop_first(), ex, ad, limit)
            }
        }
    }
}

/// The songs of `s` from position `from` on have pairwise different keys.
pub open spec fn keys_distinct_from(s: Seq<Song>, from: int) -> bool {
    forall|i: int, j: int| from <= i < j < s.len() ==> song_key(s[i]) != song_key(s[j])
}

pub proof fn lemma_extend_unique(cands: Seq<Song>, excluded: Set<Seq<char>>, additions: Seq<Song>, limit: nat)
    ensures
        ({
            let (ex, ad) = extend_unique(cands, excluded, additions, limit);
            &&& ad.len() >= additions.len()
            &&& ad.subrange(0, additions.len() as int) == additions
            &&& forall|i: int| additions.len() <= i < ad.len() ==> !excluded.contains(song_key(#[trigger] ad[i]))
            &&& forall|i: int| additions.len() <= i < ad.len() ==> cands.contains(#[trigger] ad[i])
            &&& keys_distinct_from(ad, additions.len() as int)
            &&& ex == excluded.union(Set::new(|k: Seq<char>| exists|i: int| additions.len() <= i < ad.len() && song_key(ad[i]) == k))
            &&& (additions.len() < limit ==> ad.len() <= limit)
        }),
    decreases cands.len(),
{
    let (ex, ad) = extend_unique(cands, excluded, additions, limit);
    if cands.len() == 0 {
        assert(ad.subrange(0, additions.len() as int) =~= additions);
        assert(ex =~= excluded.union(Set::new(|k: Seq<char>| exists|i: int| additions.len() <= i < ad.len() && song_key(ad[i]) == k)));
    } else {
        let c = cands[0];
        let rest = cands.drop_first();
        assert forall|x: Song| rest.contains(x) implies cands.contains(x) by {
            let j = choose|j: int| 0 <= j < rest.len() && rest[j] == x;
            assert(cands[j + 1] == x);
        }
        if excluded.contains(song_key(c)) {
            lemma_extend_unique(rest, excluded, additions, limit);
        } else {
            let ex1 = excluded.insert(song_key(c));
            let ad1 = additions.push(c);
            assert(cands.contains(c)) by { assert(cands[0] == c); }
            if ad1.len() >= limit {
                assert(ad1.subrange(0, additions.len() as int) =~= additions);
                assert(ex1 =~= excluded.union(Set::new(|k: Seq<char>| exists|i: int| additions.len() <= i < ad1.len() && song_key(ad1[i]) == k))) by {
                    assert(ad1[additions.len() as int] == c);
                }
            } else {
                lemma_extend_unique(rest, ex1, ad1, limit);
                assert(ad[additions.len() as int] == c) by {
                    assert(ad.subrange(0, ad1.len() as int) == ad1);
                    assert(ad.subrange(0, ad1.len() as int)[additions.len() as int] == ad[additions.len() as int]);
                }
                assert(ad.subrange(0, additions.len() as int) =~= additions) by {
                    assert(ad.subrange(0, ad1.len() as int) == ad1);
                    assert forall|i: int| 0 <= i < additions.len() implies ad.subrange(0, additions.len() as int)[i] == additions[i] by {
                        assert(ad.subrange(0, ad1.len() as int)[i] == ad[i]);
                        assert(ad1[i] == additions[i]);
                    }
                }
                assert forall|i: int| additions.len() <= i < ad.len() implies !excluded.contains(song_key(#[trigger] ad[i])) by {
                    if i > additions.len() {
                        assert(!ex1.contains(song_key(ad[i])));
                    }
                }
                assert(keys_distinct_from(ad, additions.len() as int)) by {
                    assert forall|i: int, j: int| additions.len() <= i < j < ad.len() implies song_key(ad[i]) != song_key(ad[j]) by {
                        if i == additions.len() {
                            assert(ex1.contains(song_key(c)));
                            assert(!ex1.contains(song_key(ad[j])));
                        }
                    }
                }
                let newkeys1 = Set::new(|k: Seq<char>| exists|i: int| ad1.len() <= i < ad.len() && song_key(ad[i]) == k);
                let newkeys = Set::new(|k: Seq<char>| exists|i: int| additions.len() <= i < ad.len() && song_key(ad[i]) == k);
                assert(ex =~= excluded.union(newkeys)) by {
                    assert forall|k: Seq<char>| ex.contains(k) implies excluded.union(newkeys).contains(k) by {
                        if k == song_key(c) {
                            assert(song_key(ad[additions.len() as int]) == k);
                        } else if !excluded.contains(k) {
                            assert(newkeys1.contains(k));
                            let i = choose|i: int| ad1.len() <= i < ad.len() && song_key(ad[i]) == k;
                            assert(newkeys.contains(k));
                        }
                    }
                    assert forall|k: Seq<char>| excluded.union(newkeys).contains(k) implies ex.contains(k) by {
                        if !excluded.contains(k) {
                            let i = choose|i: int| additions.len() <= i < ad.len() && song_key(ad[i]) == k;
                            if i == additions.len() {
                                assert(ex1.contains(k));
                            } else {
                                assert(newkeys1.contains(k));
                            }
                        }
                    }
                }
            }
        }
    }
}

/// Appends to `additions` the candidates whose key is not in `excluded`
/// (recording each key taken), stopping once `additions` holds `limit`
/// songs. No song taken repeats a key, nor has a key that was excluded.
pub fn extend_unique_queue_candidates(
    candidates: Vec<Song>,
    excluded: &mut KeySet,
    additions: &mut Vec<Song>,
    limit: usize,
)
    ensures
        (final(excluded)@, final(additions)@) == extend_unique(candidates@, old(excluded)@, old(additions)@, limit as nat),
        final(additions)@.len() >= old(additions)@.len(),
        final(additions)@.subrange(0, old(additions)@.len() as int) == old(additions)@,
        forall|i: int| old(additions)@.len() <= i < final(additions)@.len() ==>
            !old(excluded)@.contains(song_key(#[trigger] final(additions)@[i])),
        forall|i: int| old(additions)@.len() <= i < final(additions)@.len() ==>
            final(excluded)@.contains(song_key(#[trigger] final(additions)@[i])),
        forall|i: int| old(additions)@.len() <= i < final(additions)@.len() ==>
            candidates@.contains(#[trigger] final(additions)@[i]),
        keys_distinct_from(final(additions)@, old(additions)@.len() as int),
        old(excluded)@.subset_of(final(excluded)@),
        old(additions)@.len() < limit ==> final(additions)@.len() <= limit,
{
    let ghost target = extend_unique(candidates@, excluded@, additions@, limit as nat);
    proof {
        lemma_extend_unique(candidates@, old(excluded)@, old(additions)@, limit as nat);
    }
    let mut i: usize = 0;
    let n = candidates.len();
    assert(candidates@.skip(0) =~= candidates@);
    while i < n
        invariant_except_break
            n == candidates@.len(),
            i <= n,
            extend_unique(candidates@.skip(i as int), excluded@, additions@, limit as nat) == target,
        ensures
            (excluded@, additions@) == target,
        decreases n - i,
    {
        let candidate = candidates[i].clone();
        let key = queue_extension_song_key(&candidate);
        let ghost ex0 = excluded@;
        let ghost ad0 = additions@;
        let ghost rest = candidates@.skip(i as int);
        assert(rest[0] == candidates@[i as int]);
        assert(rest.drop_first() =~= candidates@.skip(i + 1));
        assert(extend_unique(rest, ex0, ad0, limit as nat) == (if ex0.contains(song_key(candidate)) {
            extend_unique(rest.drop_first(), ex0, ad0, limit as nat)
        } else if ad0.push(candidate).len() >= limit {
            (ex0.insert(song_key(candidate)), ad0.push(candidate))
        } else {
            extend_unique(rest.drop_first(), ex0.insert(song_key(candidate)), ad0.push(candidate), limit as nat)
        }));
        if !excluded.insert(key) {
            assert(excluded@ =~= ex0);
            i += 1;
            continue;
        }
        additions.push(candidate);
        if additions.len() >= limit {
            break;
        }
        i += 1;
    }
    assert(i == n ==> candidates@.skip(i as int).len() == 0);
    proof {
        let (ex, ad) = target;
        assert forall|i: int| old(additions)@.len() <= i < ad.len() implies ex.contains(song_key(#[trigger] ad[i])) by {
            let k = song_key(ad[i]);
            assert(Set::new(|k: Seq<char>| exists|j: int| old(additions)@.len() <= j < ad.len() && song_key(ad[j]) == k).contains(k));
        }
    }
}

} // verus!
verus! {

/// How many songs a queue extension adds: the wish, kept within 1..=80.
pub open spec fn extension_limit(desired: usize) -> usize {
    if desired < 1 {
        1
    } else if desired > 80 {
        80
    } else {
        desired
    }
}

/// How many similar songs are asked for: four per song wanted, within 24..=120.
pub open spec fn similar_lookup_count(limit: usize) -> u32 {
    let n = 4 * limit;
    if n < 24 {
        24
    } else if n > 120 {
        120
    } else {
        n as u32
    }
}

/// How many random songs are asked for per server: two per song wanted,
/// within 30..=120.
pub open spec fn random_batch_size(limit: usize) -> u32 {
    let n = 2 * limit;
    if n < 30 {
        30
    } else if n > 120 {
        120
    } else {
        n as u32
    }
}

/// The step a queue extension is at.
#[derive(Debug, Clone, Copy)]
pub enum ExtensionPhase {
    /// Songs similar to the seed, by the server's second similarity lookup.
    SimilarSongs2,
    /// Songs similar to the seed, by the server's first similarity lookup.
    SimilarSongs,
    /// Random songs from one server, in one of two passes over the servers.
    Random { pass: usize, server: usize },
    Done,
}

/// What to fetch next.
#[derive(Debug)]
pub enum ExtensionRequest {
    SimilarSongs2 { server_index: usize, song_id: String, count: u32 },
    SimilarSongs { server_index: usize, song_id: String, count: u32 },
    RandomSongs { server_index: usize, count: u32 },
}

/// The step that follows `phase` once `got` songs have been gathered.
pub open spec fn phase_after(phase: ExtensionPhase, got: nat, limit: nat, servers: nat) -> ExtensionPhase {
    match phase {
        ExtensionPhase::SimilarSongs2 => if got < limit {
            ExtensionPhase::SimilarSongs
        } else {
            ExtensionPhase::Done
        },
        ExtensionPhase::SimilarSongs => if got < limit {
            ExtensionPhase::Random { pass: 0, server: 0 }
        } else {
            ExtensionPhase::Done
        },
        ExtensionPhase::Random { pass, server } => if got >= limit {
            ExtensionPhase::Done
        } else if server + 1 < servers {
            ExtensionPhase::Random { pass, server: (server + 1) as usize }
        } else if pass + 1 < 2 {
            ExtensionPhase::Random { pass: (pass + 1) as usize, server: 0 }
        } else {
            ExtensionPhase::Done
        },
        ExtensionPhase::Done => ExtensionPhase::Done,
    }
}

/// The servers a queue extension draws from: the active ones, or all of
/// them when none is active.
pub open spec fn extension_servers(servers: Seq<crate::model::ServerConfig>) -> Seq<crate::model::ServerConfig> {
    let active = servers.filter(|s: crate::model::ServerConfig| s.active);
    if active.len() > 0 {
        active
    } else {
        servers
    }
}

/// The keys of the songs in `q`.
pub open spec fn keys_of(q: Seq<Song>) -> Set<Seq<char>> {
    Set::new(|k: Seq<char>| exists|i: int| 0 <= i < q.len() && song_key(q[i]) == k)
}

/// A queue extension in progress: which servers it asks, what it has
/// gathered, and which keys it must not add again.
pub struct QueueExtension {
    servers: Vec<crate::model::ServerConfig>,
    seed_id: String,
    seed_server: usize,
    limit: usize,
    excluded: KeySet,
    additions: Vec<Song>,
    phase: ExtensionPhase,
    initial: Ghost<Set<Seq<char>>>,
}

impl QueueExtension {
    pub closed spec fn servers(&self) -> Seq<crate::model::ServerConfig> {
        self.servers@
    }

    pub closed spec fn seed_id(&self) -> String {
        self.seed_id
    }

    pub closed spec fn seed_server(&self) -> usize {
        self.seed_server
    }

    pub closed spec fn limit(&self) -> usize {
        self.limit
    }

    pub closed spec fn excluded(&self) -> Set<Seq<char>> {
        self.excluded@
    }

    pub closed spec fn additions(&self) -> Seq<Song> {
        self.additions@
    }

    pub closed spec fn phase(&self) -> ExtensionPhase {
        self.phase
    }

    /// The keys excluded from the start: the existing queue and the seed.
    pub closed spec fn initial_keys(&self) -> Set<Seq<char>> {
        self.initial@
    }

    pub closed spec fn wf(&self) -> bool {
        &&& self.servers@.len() > 0
        &&& 1 <= self.limit <= 80
        &&& self.seed_server < self.servers@.len()
        &&& (match self.phase {
            ExtensionPhase::Random { pass, server } => pass < 2 && server < self.servers@.len(),
            _ => true,
        })
        &&& (!(self.phase is Done) ==> self.additions@.len() < self.limit)
        &&& self.additions@.len() <= self.limit
        &&& self.initial@.subset_of(self.excluded@)
        &&& forall|i: int| 0 <= i < self.additions@.len() ==> self.excluded@.contains(song_key(#[trigger] self.additions@[i]))
        &&& forall|i: int| 0 <= i < self.additions@.len() ==> !self.initial@.contains(song_key(#[trigger] self.additions@[i]))
        &&& keys_distinct_from(self.additions@, 0)
    }

    /// Starts extending a queue from `seed_song`. `None` when there is no
    /// server to ask (the extension is then empty).
    pub fn start(
        servers: Vec<crate::model::ServerConfig>,
        seed_song: &Song,
        existing_queue: &Vec<Song>,
        desired_additions: usize,
    ) -> (r: Option<QueueExtension>)
        ensures
            r is None <==> servers@.len() == 0,
            r matches Some(ext) ==> {
                &&& ext.wf()
                &&& ext.servers() == extension_servers(servers@)
                &&& ext.limit() == extension_limit(desired_additions)
                &&& ext.seed_id() == seed_song.id
                &&& ext.initial_keys() == keys_of(existing_queue@).insert(song_key(*seed_song))
                &&& ext.excluded() == ext.initial_keys()
                &&& ext.additions() == Seq::<Song>::empty()
                &&& (if exists|i: int| 0 <= i < ext.servers().len() && ext.servers()[i].id@ == seed_song.server_id@ {
                    &&& ext.phase() == ExtensionPhase::SimilarSongs2
                    &&& ext.servers()[ext.seed_server() as int].id@ == seed_song.server_id@
                    &&& forall|j: int| 0 <= j < ext.seed_server() ==> ext.servers()[j].id@ != seed_song.server_id@
                } else {
                    ext.phase() == (ExtensionPhase::Random { pass: 0, server: 0 })
                })
            },
    {
        let limit = if desired_additions < 1 {
            1
        } else if desired_additions > 80 {
            80
        } else {
            desired_additions
        };
        let ghost old_servers = servers@;
        let mut active: Vec<crate::model::ServerConfig> = Vec::new();
        let mut i: usize = 0;
        while i < servers.len()
            invariant
                i <= servers@.len(),
                active@ == servers@.take(i as int).filter(|s: crate::model::ServerConfig| s.active),
            decreases servers@.len() - i,
        {
            proof {
                reveal_with_fuel(Seq::<_>::filter, 1);
                assert(servers@.take(i + 1).drop_last() =~= servers@.take(i as int));
            }
            if servers[i].active {
                active.push(servers[i].clone());
            }
            i += 1;
        }
        assert(servers@.take(servers@.len() as int) =~= servers@);
        let servers = if active.len() > 0 {
            active
        } else {
            servers
        };
        if servers.len() == 0 {
            return None;
        }
        let mut excluded = KeySet::new();
        let mut j: usize = 0;
        while j < existing_queue.len()
            invariant
                j <= existing_queue@.len(),
                excluded@ == keys_of(existing_queue@.take(j as int)),
            decreases existing_queue@.len() - j,
        {
            let key = queue_extension_song_key(&existing_queue[j]);
            excluded.insert(key);
            proof {
                let t = existing_queue@.take(j + 1);
                assert(t[j as int] == existing_queue@[j as int]);
                assert forall|k: Seq<char>| keys_of(t).contains(k) implies excluded@.contains(k) by {
                    let m = choose|m: int| 0 <= m < t.len() && song_key(t[m]) == k;
                    if m < j {
                        assert(existing_queue@.take(j as int)[m] == t[m]);
                        assert(keys_of(existing_queue@.take(j as int)).contains(k));
                    }
                }
                assert forall|k: Seq<char>| excluded@.contains(k) implies keys_of(t).contains(k) by {
                    if keys_of(existing_queue@.take(j as int)).contains(k) {
                        let m = choose|m: int| 0 <= m < j && song_key(existing_queue@.take(j as int)[m]) == k;
                        assert(t[m] == existing_queue@.take(j as int)[m]);
                    }
                }
                assert(excluded@ =~= keys_of(t));
            }
            j += 1;
        }
        assert(existing_queue@.take(existing_queue@.len() as int) =~= existing_queue@);
        excluded.insert(queue_extension_song_key(seed_song));
        let seed = crate::model::find_server_index(&servers, &seed_song.server_id);
        let (seed_server, phase) = match seed {
            Some(s) => (s, ExtensionPhase::SimilarSongs2),
            None => (0, ExtensionPhase::Random { pass: 0, server: 0 }),
        };
        let ghost initial = excluded@;
        assert(servers@ == extension_servers(old_servers));
        assert(initial == keys_of(existing_queue@).insert(song_key(*seed_song)));
        let ext = QueueExtension {
            servers,
            seed_id: seed_song.id.clone(),
            seed_server,
            limit,
            excluded,
            additions: Vec::new(),
            phase,
            initial: Ghost(initial),
        };
        assert(ext.wf());
        assert(ext.servers() == extension_servers(old_servers));
        assert(ext.initial_keys() == keys_of(existing_queue@).insert(song_key(*seed_song)));
        Some(ext)
    }

    /// The server at `index` in the list this extension asks.
    pub fn server_at(&self, index: usize) -> (r: Option<crate::model::ServerConfig>)
        ensures
            r == (if index < self.servers().len() {
                Some(self.servers()[index as int])
            } else {
                None
            }),
    {
        if index < self.servers.len() {
            Some(self.servers[index].clone())
        } else {
            None
        }
    }

    /// The next fetch to make, or `None` once the extension is complete.
    pub fn request(&self) -> (r: Option<ExtensionRequest>)
        requires
            self.wf(),
        ensures
            match self.phase() {
                ExtensionPhase::SimilarSongs2 => r == Some(ExtensionRequest::SimilarSongs2 {
                    server_index: self.seed_server(),
                    song_id: self.seed_id(),
                    count: similar_lookup_count(self.limit()),
                }),
                ExtensionPhase::SimilarSongs => r == Some(ExtensionRequest::SimilarSongs {
                    server_index: self.seed_server(),
                    song_id: self.seed_id(),
                    count: similar_lookup_count(self.limit()),
                }),
                ExtensionPhase::Random { pass, server } => r == Some(ExtensionRequest::RandomSongs {
                    server_index: server,
                    count: random_batch_size(self.limit()),
                }),
                ExtensionPhase::Done => r is None,
            },
            r matches Some(req) ==> match req {
                ExtensionRequest::SimilarSongs2 { server_index, .. } => server_index < self.servers().len(),
                ExtensionRequest::SimilarSongs { server_index, .. } => server_index < self.servers().len(),
                ExtensionRequest::RandomSongs { server_index, .. } => server_index < self.servers().len(),
            },
    {
        let four = self.limit * 4;
        let lookup: u32 = if four < 24 {
            24
        } else if four > 120 {
            120
        } else {
            four as u32
        };
        let two = self.limit * 2;
        let batch: u32 = if two < 30 {
            30
        } else if two > 120 {
            120
        } else {
            two as u32
        };
        match self.phase {
            ExtensionPhase::SimilarSongs2 => Some(ExtensionRequest::SimilarSongs2 {
                server_index: self.seed_server,
                song_id: self.seed_id.clone(),
                count: lookup,
            }),
            ExtensionPhase::SimilarSongs => Some(ExtensionRequest::SimilarSongs {
                server_index: self.seed_server,
                song_id: self.seed_id.clone(),
                count: lookup,
            }),
            ExtensionPhase::Random { pass: _, server } => Some(ExtensionRequest::RandomSongs {
                server_index: server,
                count: batch,
            }),
            ExtensionPhase::Done => None,
        }
    }

    /// Takes in the answer to the last request (`None` when the fetch
    /// failed) and moves on to the next step.
    pub fn receive(&mut self, response: Option<Vec<Song>>)
        requires
            old(self).wf(),
        ensures
            final(self).wf(),
            final(self).servers() == old(self).servers(),
            final(self).seed_id() == old(self).seed_id(),
            final(self).seed_server() == old(self).seed_server(),
            final(self).limit() == old(self).limit(),
            final(self).initial_keys() == old(self).initial_keys(),
            if old(self).phase() is Done {
                &&& final(self).phase() == old(self).phase()
                &&& final(self).excluded() == old(self).excluded()
                &&& final(self).additions() == old(self).additions()
            } else {
                let (ex, ad) = match response {
                    Some(c) => extend_unique(c@, old(self).excluded(), old(self).additions(), old(self).limit() as nat),
                    None => (old(self).excluded(), old(self).additions()),
                };
                &&& final(self).excluded() == ex
                &&& final(self).additions() == ad
                &&& final(self).phase() == phase_after(old(self).phase(), ad.len(), old(self).limit() as nat, old(self).servers().len())
            },
    {
        if let ExtensionPhase::Done = self.phase {
            return;
        }
        let ghost ad0 = self.additions@;
        let ghost ex0 = self.excluded@;
        match response {
            Some(candidates) => {
                extend_unique_queue_candidates(candidates, &mut self.excluded, &mut self.additions, self.limit);
                proof {
                    let n = ad0.len() as int;
                    assert(self.additions@.subrange(0, n) == ad0);
                    assert forall|i: int| 0 <= i < n implies self.additions@[i] == ad0[i] by {
                        assert(self.additions@.subrange(0, n)[i] == ad0[i]);
                    }
                    assert forall|i: int| 0 <= i < self.additions@.len() implies !self.initial@.contains(song_key(#[trigger] self.additions@[i])) by {
                        if i < n {
                            assert(self.additions@[i] == ad0[i]);
                        }
                    }
                    assert forall|i: int| 0 <= i < self.additions@.len() implies self.excluded@.contains(song_key(#[trigger] self.additions@[i])) by {
                        if i < n {
                            assert(self.additions@[i] == ad0[i]);
                            assert(ex0.contains(song_key(ad0[i])));
                        }
                    }
                    assert forall|i: int, j: int| 0 <= i < j < self.additions@.len() implies song_key(self.additions@[i]) != song_key(self.additions@[j]) by {
                        if j < n {
                            assert(self.additions@[i] == ad0[i]);
                            assert(self.additions@[j] == ad0[j]);
                        } else if i < n {
                            assert(self.additions@[i] == ad0[i]);
                            assert(ex0.contains(song_key(ad0[i])));
                        }
                    }
                }
            },
            None => {},
        }
        let got = self.additions.len();
        let n = self.servers.len();
        self.phase = match self.phase {
            ExtensionPhase::SimilarSongs2 => if got < self.limit {
                ExtensionPhase::SimilarSongs
            } else {
                ExtensionPhase::Done
            },
            ExtensionPhase::SimilarSongs => if got < self.limit {
                ExtensionPhase::Random { pass: 0, server: 0 }
            } else {
                ExtensionPhase::Done
            },
            ExtensionPhase::Random { pass, server } => if got >= self.limit {
                ExtensionPhase::Done
            } else if server + 1 < n {
                ExtensionPhase::Random { pass, server: server + 1 }
            } else if pass + 1 < 2 {
                ExtensionPhase::Random { pass: pass + 1, server: 0 }
            } else {
                ExtensionPhase::Done
            },
            ExtensionPhase::Done => ExtensionPhase::Done,
        };
    }

    /// The songs gathered, without their collection provenance. None of
    /// them repeats a song of the existing queue or the seed, and no two
    /// share a key.
    pub fn finish(self) -> (r: Vec<Song>)
        requires
            self.wf(),
        ensures
            r@.len() == self.additions().len(),
            r@.len() <= self.limit(),
            forall|i: int| 0 <= i < r@.len() ==> r@[i] == crate::queue::without_meta(self.additions()[i]),
            forall|i: int| 0 <= i < r@.len() ==> !self.initial_keys().contains(song_key(#[trigger] r@[i])),
            keys_distinct_from(r@, 0),
    {
        let mut additions = self.additions;
        additions.truncate(self.limit);
        let r = crate::queue::normalize_manual_queue_songs(additions);
        proof {
            assert forall|i: int, j: int| 0 <= i < j < r@.len() implies song_key(r@[i]) != song_key(r@[j]) by {
                assert(song_key(r@[i]) == song_key(self.additions@[i]));
                assert(song_key(r@[j]) == song_key(self.additions@[j]));
            }
            assert forall|i: int| 0 <= i < r@.len() implies !self.initial@.contains(song_key(#[trigger] r@[i])) by {
                assert(song_key(r@[i]) == song_key(self.additions@[i]));
            }
        }
        r
    }
}

} // verus!
