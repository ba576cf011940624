//! Plans for gathering songs from the music servers: the lookups that find
//! songs related to a track, that build a queue from a seed song, and that
//! build a shuffle queue, and how a generated queue is installed.
//! Each plan says which fetch to make next and takes in its answer; the
//! fetches themselves are made by the caller.
use vstd::prelude::*;

use crate::library::{extend_tracks, extend_unique_tracks, lemma_extend_tracks, prepare_shuffle_queue, tracks_distinct};
use crate::model::{ServerConfig, Song};
use crate::queue::without_meta;
use crate::stream::has_text;

verus! {

/// The lookup a related-songs search is at.
#[derive(Debug, Clone, Copy, PartialEq, Eq, Structural)]
pub enum RelatedPhase {
    /// Songs similar to the track itself.
    SimilarToSong,
    /// Songs similar to the track's artist.
    SimilarToArtist,
    /// The artist's top songs.
    TopSongs,
    /// A text search for the artist and title.
    Search,
    Done,
}

/// A fetch a related-songs search asks for.
#[derive(Debug)]
pub enum RelatedRequest {
    SimilarSongs2 { song_id: String, count: u32 },
    SimilarSongs { artist_id: String, count: u32 },
    TopSongs { artist: String, count: u32 },
    Search { query: String, count: u32 },
}

/// The lookup after the artist lookups: the artist's top songs while fewer
/// than `count` songs were found and the artist is named, else a search
/// while fewer than `count` were found.
pub open spec fn after_artist_phase(found: nat, count: u32, named: bool) -> RelatedPhase {
    if found < count && named {
        RelatedPhase::TopSongs
    } else if found < count {
        RelatedPhase::Search
    } else {
        RelatedPhase::Done
    }
}

/// The lookup that follows `phase` once `found` songs were gathered.
pub open spec fn related_phase_after(phase: RelatedPhase, found: nat, count: u32, has_artist_id: bool, named: bool) -> RelatedPhase {
    match phase {
        RelatedPhase::SimilarToSong => if has_artist_id {
            RelatedPhase::SimilarToArtist
        } else {
            after_artist_phase(found, count, named)
        },
        RelatedPhase::SimilarToArtist => after_artist_phase(found, count, named),
        RelatedPhase::TopSongs => if found < count {
            RelatedPhase::Search
        } else {
            RelatedPhase::Done
        },
        _ => RelatedPhase::Done,
    }
}

/// The text searched for as a last resort: the artist (empty when there is
/// none), a space, and the title.
pub open spec fn related_search_query(song: Song) -> Seq<char> {
    let artist = match song.artist {
        Some(a) => a@,
        None => Seq::empty(),
    };
    artist + " "@ + song.title@
}

/// A search for songs related to one track, gathering the answers of its
/// lookups in order.
pub struct RelatedSearch {
    song: Song,
    count: u32,
    phase: RelatedPhase,
    found: Vec<Song>,
}

impl RelatedSearch {
    pub closed spec fn song(&self) -> Song {
        self.song
    }

    pub closed spec fn count(&self) -> u32 {
        self.count
    }

    pub closed spec fn phase(&self) -> RelatedPhase {
        self.phase
    }

    pub closed spec fn found(&self) -> Seq<Song> {
        self.found@
    }

    /// Starts a search for up to `count` songs related to `song`.
    pub fn start(song: Song, count: u32) -> (r: Self)
        ensures
            r.song() == song,
            r.count() == count,
            r.phase() == RelatedPhase::SimilarToSong,
            r.found() == Seq::<Song>::empty(),
    {
        RelatedSearch { song, count, phase: RelatedPhase::SimilarToSong, found: Vec::new() }
    }

    /// The next lookup, or `None` once the search is over.
    pub fn request(&self) -> (r: Option<RelatedRequest>)
        ensures
            match self.phase() {
                RelatedPhase::SimilarToSong => r matches Some(RelatedRequest::SimilarSongs2 { song_id, count })
                    && song_id == self.song().id && count == self.count(),
                RelatedPhase::SimilarToArtist => match self.song().artist_id {
                    Some(id) => r matches Some(RelatedRequest::SimilarSongs { artist_id, count }) && artist_id
                        == id && count == self.count(),
                    None => r is None,
                },
                RelatedPhase::TopSongs => match self.song().artist {
                    Some(a) => r matches Some(RelatedRequest::TopSongs { artist, count }) && artist == a
                        && count == self.count(),
                    None => r is None,
                },
                RelatedPhase::Search => r matches Some(RelatedRequest::Search { query, count })
                    && query@ == related_search_query(self.song()) && count == self.count(),
                RelatedPhase::Done => r is None,
            },
    {
        match self.phase {
            RelatedPhase::SimilarToSong => Some(
                RelatedRequest::SimilarSongs2 { song_id: self.song.id.clone(), count: self.count },
            ),
            RelatedPhase::SimilarToArtist => match &self.song.artist_id {
                Some(id) => Some(RelatedRequest::SimilarSongs { artist_id: id.clone(), count: self.count }),
                None => None,
            },
            RelatedPhase::TopSongs => match &self.song.artist {
                Some(a) => Some(RelatedRequest::TopSongs { artist: a.clone(), count: self.count }),
                None => None,
            },
            RelatedPhase::Search => {
                let mut query = match &self.song.artist {
                    Some(a) => a.clone(),
                    None => String::new(),
                };
                query.append(" ");
                query.append(self.song.title.as_str());
                Some(RelatedRequest::Search { query, count: self.count })
            },
            RelatedPhase::Done => None,
        }
    }

    /// Takes in the answer to the last lookup (`None` when it failed, which
    /// adds nothing) and moves on.
    pub fn receive(&mut self, response: Option<Vec<Song>>)
        ensures
            final(self).song() == old(self).song(),
            final(self).count() == old(self).count(),
            final(self).found() == match response {
                Some(songs) => if old(self).phase() is Done {
                    old(self).found()
                } else {
                    old(self).found() + songs@
                },
                None => old(self).found(),
            },
            final(self).phase() == related_phase_after(
                old(self).phase(),
                final(self).found().len(),
                old(self).count(),
                old(self).song().artist_id is Some,
                has_text(old(self).song().artist),
            ),
    {
        if let RelatedPhase::Done = self.phase {
            return;
        }
        if let Some(songs) = response {
            let mut songs = songs;
            self.found.append(&mut songs);
        }
        let found = self.found.len();
        let named = match &self.song.artist {
            Some(a) => !crate::text::is_blank(a.as_str()),
            None => false,
        };
        let short = found < self.count as usize;
        let after_artist = if short && named {
            RelatedPhase::TopSongs
        } else if short {
            RelatedPhase::Search
        } else {
            RelatedPhase::Done
        };
        self.phase = match self.phase {
            RelatedPhase::SimilarToSong => if self.song.artist_id.is_some() {
                RelatedPhase::SimilarToArtist
            } else {
                after_artist
            },
            RelatedPhase::SimilarToArtist => after_artist,
            RelatedPhase::TopSongs => if short {
                RelatedPhase::Search
            } else {
                RelatedPhase::Done
            },
            _ => RelatedPhase::Done,
        };
    }

    /// The songs gathered, in the order the lookups answered.
    pub fn finish(self) -> (r: Vec<Song>)
        ensures
            r@ == self.found(),
    {
        self.found
    }
}

/// The lookup a shuffle-queue build is at.
#[derive(Debug, Clone, Copy, PartialEq, Eq, Structural)]
pub enum ShufflePhase {
    /// Songs similar to the seed, from the seed's server.
    Similar,
    /// Random songs from one active server.
    Random { server: usize },
    Done,
}

/// A fetch a shuffle-queue build asks for.
#[derive(Debug)]
pub enum ShuffleRequest {
    SimilarSongs { server_index: usize, song_id: String, count: u32 },
    RandomSongs { server_index: usize, count: u32 },
}

/// The active servers.
pub open spec fn active_servers(servers: Seq<ServerConfig>) -> Seq<ServerConfig> {
    servers.filter(|s: ServerConfig| s.active)
}

/// A shuffle queue in the making: up to 50 songs similar to the seed, or,
/// when none is found, 25 random songs from each active server.
pub struct ShuffleQueueBuild {
    servers: Vec<ServerConfig>,
    seed_id: String,
    seed_server: usize,
    phase: ShufflePhase,
    songs: Vec<Song>,
}

impl ShuffleQueueBuild {
    pub closed spec fn servers(&self) -> Seq<ServerConfig> {
        self.servers@
    }

    pub closed spec fn seed_id(&self) -> String {
        self.seed_id
    }

    pub closed spec fn seed_server(&self) -> usize {
        self.seed_server
    }

    pub closed spec fn phase(&self) -> ShufflePhase {
        self.phase
    }

    pub closed spec fn songs(&self) -> Seq<Song> {
        self.songs@
    }

    pub closed spec fn wf(&self) -> bool {
        &&& self.servers@.len() > 0
        &&& self.seed_server < self.servers@.len()
        &&& (self.phase matches ShufflePhase::Random { server } ==> server < self.servers@.len())
    }

    /// Starts a build over the active servers; `None` when none is active
    /// (the queue is then left alone).
    pub fn start(servers: &Vec<ServerConfig>, seed_song: Option<&Song>) -> (r: Option<Self>)
        ensures
            r is None <==> active_servers(servers@).len() == 0,
            r matches Some(b) ==> {
                &&& b.wf()
                &&& b.servers() == active_servers(servers@)
                &&& b.songs() == Seq::<Song>::empty()
                &&& match seed_song {
                    Some(seed) => if exists|i: int| 0 <= i < b.servers().len() && b.servers()[i].id@ == seed.server_id@ {
                        &&& b.phase() == ShufflePhase::Similar
                        &&& b.seed_id() == seed.id
                        &&& b.servers()[b.seed_server() as int].id@ == seed.server_id@
                        &&& forall|j: int| 0 <= j < b.seed_server() ==> b.servers()[j].id@ != seed.server_id@
                    } else {
                        b.phase() == (ShufflePhase::Random { server: 0 })
                    },
                    None => b.phase() == (ShufflePhase::Random { server: 0 }),
                }
            },
    {
        let mut active: Vec<ServerConfig> = Vec::new();
        let mut i: usize = 0;
        while i < servers.len()
            invariant
                i <= servers@.len(),
                active@ == servers@.take(i as int).filter(|s: ServerConfig| s.active),
            decreases servers@.len() - i,
        {
            proof {
                reveal_with_fuel(Seq::<_>::filter, 1);
                assert(servers@.take(i + 1).drop_last() =~= servers@.take(i as int));
            }
            if servers[i].active {
                active.push(servers[i].clone());
            }
            i += 1;
        }
        assert(servers@.take(servers@.len() as int) =~= servers@);
        if active.len() == 0 {
            return None;
        }
        if let Some(seed) = seed_song {
            if let Some(s) = crate::model::find_server_index(&active, &seed.server_id) {
                let r = ShuffleQueueBuild {
                    servers: active,
                    seed_id: seed.id.clone(),
                    seed_server: s,
                    phase: ShufflePhase::Similar,
                    songs: Vec::new(),
                };
                assert(r.servers()[s as int].id@ == seed.server_id@);
                assert(forall|j: int| 0 <= j < r.seed_server() ==> r.servers()[j].id@ != seed.server_id@);
                return Some(r);
            }
        }
        Some(
            ShuffleQueueBuild {
                servers: active,
                seed_id: String::new(),
                seed_server: 0,
                phase: ShufflePhase::Random { server: 0 },
                songs: Vec::new(),
            },
        )
    }

    /// The next fetch, or `None` once the build has all it will ask for.
    pub fn request(&self) -> (r: Option<ShuffleRequest>)
        requires
            self.wf(),
        ensures
            match self.phase() {
                ShufflePhase::Similar => r matches Some(ShuffleRequest::SimilarSongs { server_index, song_id, count })
                    && server_index == self.seed_server() && song_id == self.seed_id() && count == 50,
                ShufflePhase::Random { server } => r matches Some(ShuffleRequest::RandomSongs { server_index, count })
                    && server_index == server && count == 25,
                ShufflePhase::Done => r is None,
            },
    {
        match self.phase {
            ShufflePhase::Similar => Some(
                ShuffleRequest::SimilarSongs {
                    server_index: self.seed_server,
                    song_id: self.seed_id.clone(),
                    count: 50,
                },
            ),
            ShufflePhase::Random { server } => Some(ShuffleRequest::RandomSongs { server_index: server, count: 25 }),
            ShufflePhase::Done => None,
        }
    }

    /// The server at `index` among the active servers.
    pub fn server_at(&self, index: usize) -> (r: Option<ServerConfig>)
        ensures
            r == (if index < self.servers().len() {
                Some(self.servers()[index as int])
            } else {
                None
            }),
    {
        if index < self.servers.len() {
            Some(self.servers[index].clone())
        } else {
            None
        }
    }

    /// Takes in the answer to the last fetch (`None` when it failed). After
    /// the similar songs, random songs are asked for only when none was
    /// found; every active server is asked once for random songs.
    pub fn receive(&mut self, response: Option<Vec<Song>>)
        requires
            old(self).wf(),
        ensures
            final(self).wf(),
            final(self).servers() == old(self).servers(),
            final(self).seed_id() == old(self).seed_id(),
            final(self).seed_server() == old(self).seed_server(),
            final(self).songs() == match response {
                Some(songs) => if old(self).phase() is Done {
                    old(self).songs()
                } else {
                    old(self).songs() + songs@
                },
                None => old(self).songs(),
            },
            final(self).phase() == match old(self).phase() {
                ShufflePhase::Similar => if final(self).songs().len() == 0 {
                    ShufflePhase::Random { server: 0 }
                } else {
                    ShufflePhase::Done
                },
                ShufflePhase::Random { server } => if server + 1 < old(self).servers().len() {
                    ShufflePhase::Random { server: (server + 1) as usize }
                } else {
                    ShufflePhase::Done
                },
                ShufflePhase::Done => ShufflePhase::Done,
            },
    {
        if let ShufflePhase::Done = self.phase {
            return;
        }
        let n = self.servers.len();
        if let Some(songs) = response {
            let mut songs = songs;
            self.songs.append(&mut songs);
        }
        self.phase = match self.phase {
            ShufflePhase::Similar => if self.songs.len() == 0 {
                ShufflePhase::Random { server: 0 }
            } else {
                ShufflePhase::Done
            },
            ShufflePhase::Random { server } => if server + 1 < n {
                ShufflePhase::Random { server: server + 1 }
            } else {
                ShufflePhase::Done
            },
            ShufflePhase::Done => ShufflePhase::Done,
        };
    }

    /// The new queue: `None` when no song was found (the queue is then left
    /// alone); otherwise the songs in random order, at most 50, without
    /// collection provenance.
    pub fn finish(self) -> (r: Option<Vec<Song>>)
        ensures
            self.songs().len() == 0 <==> r is None,
            r matches Some(q) ==> {
                &&& q@.len() == (if self.songs().len() < 50 { self.songs().len() } else { 50 })
                &&& exists|p: Seq<Song>|
                    #[trigger] p.to_multiset() == self.songs().to_multiset() && forall|i: int|
                        0 <= i < q@.len() ==> q@[i] == without_meta(p[i])
            },
    {
        if self.songs.len() == 0 {
            return None;
        }
        Some(prepare_shuffle_queue(self.songs))
    }
}

/// A generated queue arrives: it replaces the queue, its first song is
/// selected and playing, and the play state becomes the one asked for (or
/// stays when none was).
pub fn install_generated_queue(
    queue: &mut Vec<Song>,
    queue_index: &mut usize,
    now_playing: &mut Option<Song>,
    is_playing: &mut bool,
    songs: Vec<Song>,
    play_state: Option<bool>,
)
    ensures
        final(queue)@ == songs@,
        *final(queue_index) == 0,
        *final(now_playing) == (if songs@.len() > 0 { Some(songs@[0]) } else { None }),
        *final(is_playing) == match play_state {
            Some(p) => p,
            None => *old(is_playing),
        },
{
    let first = if songs.len() > 0 { Some(songs[0].clone()) } else { None };
    *queue = songs;
    *queue_index = 0;
    *now_playing = first;
    if let Some(p) = play_state {
        *is_playing = p;
    }
}

/// The step a seeded queue is at.
#[derive(Debug, Clone, Copy, PartialEq, Eq, Structural)]
pub enum SeedQueuePhase {
    /// Songs related to the seed (a related-songs search for 60 songs) from
    /// server `server_index`.
    Related { server_index: usize },
    /// 40 random songs from server `server_index`.
    Random { server_index: usize },
    Done,
}

/// A queue seeded from one song: the seed, then related tracks from the
/// seed's server (each once, up to 60 songs); when none is found, random
/// tracks (up to 40 songs). A seed whose server is not configured gives a
/// queue of the seed alone.
pub struct SeedQueueBuild {
    seed: Song,
    queue: Vec<Song>,
    phase: SeedQueuePhase,
}

impl SeedQueueBuild {
    pub closed spec fn seed(&self) -> Song {
        self.seed
    }

    pub closed spec fn queue(&self) -> Seq<Song> {
        self.queue@
    }

    pub closed spec fn phase(&self) -> SeedQueuePhase {
        self.phase
    }

    pub closed spec fn wf(&self) -> bool {
        &&& self.queue@.len() >= 1
        &&& self.queue@.len() <= 60
        &&& self.queue@[0] == self.seed
        &&& tracks_distinct(self.queue@)
        &&& (self.phase is Related ==> self.queue@ == seq![self.seed])
        &&& (self.phase is Random ==> self.queue@.len() <= 1)
    }

    pub fn start(seed: Song, servers: &Vec<ServerConfig>) -> (r: Self)
        ensures
            r.wf(),
            r.seed() == seed,
            r.queue() == seq![seed],
            r.phase() is Related || r.phase() is Done,
            r.phase() is Done <==> forall|j: int| 0 <= j < servers@.len() ==> servers@[j].id@ != seed.server_id@,
            r.phase() matches SeedQueuePhase::Related { server_index } ==> {
                &&& server_index < servers@.len()
                &&& servers@[server_index as int].id@ == seed.server_id@
                &&& forall|j: int| 0 <= j < server_index ==> servers@[j].id@ != seed.server_id@
            },
    {
        let phase = match crate::model::find_server_index(servers, &seed.server_id) {
            Some(i) => SeedQueuePhase::Related { server_index: i },
            None => SeedQueuePhase::Done,
        };
        let mut queue: Vec<Song> = Vec::new();
        queue.push(seed.clone());
        SeedQueueBuild { seed, queue, phase }
    }

    /// The step the build is at.
    pub fn next_step(&self) -> (r: SeedQueuePhase)
        ensures
            r == self.phase(),
    {
        self.phase
    }

    /// Takes in the related songs found (none when the search failed).
    pub fn take_related(&mut self, related: Vec<Song>)
        requires
            old(self).wf(),
        ensures
            final(self).wf(),
            final(self).seed() == old(self).seed(),
            match old(self).phase() {
                SeedQueuePhase::Related { server_index } => {
                    let q = extend_tracks(old(self).queue(), related@, None, 60);
                    &&& final(self).queue() == q
                    &&& final(self).phase() == (if q.len() <= 1 {
                        SeedQueuePhase::Random { server_index }
                    } else {
                        SeedQueuePhase::Done
                    })
                },
                _ => final(self).queue() == old(self).queue() && final(self).phase() == old(self).phase(),
            },
    {
        if let SeedQueuePhase::Related { server_index } = self.phase {
            proof {
                lemma_extend_tracks(self.queue@, related@, None, 60);
            }
            let ghost before = self.queue@;
            extend_unique_tracks(&mut self.queue, related, None, 60);
            proof {
                assert(self.queue@[0] == self.queue@.subrange(0, before.len() as int)[0]);
            }
            self.phase = if self.queue.len() <= 1 {
                SeedQueuePhase::Random { server_index }
            } else {
                SeedQueuePhase::Done
            };
        }
    }

    /// Takes in the random songs found (none when the fetch failed).
    pub fn take_random(&mut self, random: Vec<Song>)
        requires
            old(self).wf(),
        ensures
            final(self).wf(),
            final(self).seed() == old(self).seed(),
            match old(self).phase() {
                SeedQueuePhase::Random { .. } => {
                    &&& final(self).queue() == extend_tracks(old(self).queue(), random@, None, 40)
                    &&& final(self).phase() == SeedQueuePhase::Done
                },
                _ => final(self).queue() == old(self).queue() && final(self).phase() == old(self).phase(),
            },
    {
        if let SeedQueuePhase::Random { .. } = self.phase {
            proof {
                lemma_extend_tracks(self.queue@, random@, None, 40);
            }
            let ghost before = self.queue@;
            extend_unique_tracks(&mut self.queue, random, None, 40);
            proof {
                assert(self.queue@[0] == self.queue@.subrange(0, before.len() as int)[0]);
            }
            self.phase = SeedQueuePhase::Done;
        }
    }

    /// The queue: the seed first, no track twice, at most 60 songs.
    pub fn finish(self) -> (r: Vec<Song>)
        requires
            self.wf(),
        ensures
            r@ == self.queue(),
            r@.len() >= 1,
            r@.len() <= 60,
            r@[0] == self.seed(),
            tracks_distinct(r@),
    {
        self.queue
    }
}

} // verus!
