use rustysound::discovery::{
    install_generated_queue, RelatedRequest, RelatedSearch, SeedQueueBuild, SeedQueuePhase, ShuffleQueueBuild,
    ShuffleRequest,
};
use rustysound::library::unique_related_songs;
use rustysound::model::{ServerConfig, Song};

fn song(id: &str, server: &str) -> Song {
    Song {
        id: id.to_string(),
        server_id: server.to_string(),
        server_name: "Home".to_string(),
        title: format!("T{id}"),
        artist: None,
        artist_id: None,
        album: None,
        album_id: None,
        cover_art: None,
        stream_url: None,
        starred: None,
        user_rating: None,
        year: None,
        duration: 0,
        queue_meta: None,
    }
}

fn server(id: &str, active: bool) -> ServerConfig {
    ServerConfig { id: id.to_string(), name: id.to_string(), url: String::new(), active }
}

fn batch(prefix: &str, n: usize) -> Vec<Song> {
    (0..n).map(|i| song(&format!("{prefix}{i}"), "s")).collect()
}

#[test]
fn related_search_tries_every_lookup_while_short() {
    let mut seed = song("x", "s");
    seed.artist = Some("Band".to_string());
    seed.artist_id = Some("ar-1".to_string());
    let mut search = RelatedSearch::start(seed.clone(), 30);
    assert!(matches!(search.request(), Some(RelatedRequest::SimilarSongs2 { ref song_id, count: 30 }) if song_id == "x"));
    search.receive(Some(batch("a", 5)));
    assert!(matches!(search.request(), Some(RelatedRequest::SimilarSongs { ref artist_id, count: 30 }) if artist_id == "ar-1"));
    search.receive(None);
    assert!(matches!(search.request(), Some(RelatedRequest::TopSongs { ref artist, .. }) if artist == "Band"));
    search.receive(Some(batch("b", 5)));
    assert!(matches!(search.request(), Some(RelatedRequest::Search { ref query, .. }) if query == "Band Tx"));
    search.receive(Some(vec![seed.clone(), song("a0", "s")]));
    assert!(search.request().is_none());
    let found = search.finish();
    assert_eq!(found.len(), 12);
    let unique = unique_related_songs(&seed, found);
    assert_eq!(unique.len(), 10);
}

#[test]
fn related_search_stops_once_enough_were_found() {
    let mut seed = song("x", "s");
    seed.artist = Some("  ".to_string());
    let mut search = RelatedSearch::start(seed, 3);
    search.receive(Some(batch("a", 1)));
    assert!(matches!(search.request(), Some(RelatedRequest::Search { ref query, count: 3 }) if query == "   Tx"));
    let mut enough = RelatedSearch::start(song("y", "s"), 3);
    enough.receive(Some(batch("a", 3)));
    assert!(enough.request().is_none());
    assert_eq!(enough.finish().len(), 3);
}

#[test]
fn shuffle_build_needs_an_active_server() {
    assert!(ShuffleQueueBuild::start(&vec![server("s", false)], None).is_none());
}

#[test]
fn shuffle_build_prefers_similar_songs() {
    let servers = vec![server("off", false), server("s", true), server("t", true)];
    let seed = song("seed", "t");
    let mut build = ShuffleQueueBuild::start(&servers, Some(&seed)).unwrap();
    match build.request() {
        Some(ShuffleRequest::SimilarSongs { server_index, song_id, count }) => {
            assert_eq!(build.server_at(server_index).unwrap().id, "t");
            assert_eq!(song_id, "seed");
            assert_eq!(count, 50);
        },
        other => panic!("unexpected {:?}", other),
    }
    build.receive(Some(batch("m", 70)));
    assert!(build.request().is_none());
    let queue = build.finish().unwrap();
    assert_eq!(queue.len(), 50);
}

#[test]
fn shuffle_build_falls_back_to_random_songs_from_every_server() {
    let servers = vec![server("s", true), server("t", true)];
    let mut build = ShuffleQueueBuild::start(&servers, Some(&song("seed", "s"))).unwrap();
    build.receive(Some(vec![]));
    assert!(matches!(build.request(), Some(ShuffleRequest::RandomSongs { server_index: 0, count: 25 })));
    build.receive(Some(batch("r", 2)));
    assert!(matches!(build.request(), Some(ShuffleRequest::RandomSongs { server_index: 1, count: 25 })));
    build.receive(None);
    assert!(build.request().is_none());
    assert_eq!(build.finish().unwrap().len(), 2);
    let mut empty = ShuffleQueueBuild::start(&servers, None).unwrap();
    empty.receive(None);
    empty.receive(None);
    assert!(empty.finish().is_none());
}

#[test]
fn generated_queue_replaces_the_queue() {
    let mut queue = vec![song("old", "s")];
    let mut index = 0usize;
    let mut now = None;
    let mut playing = true;
    install_generated_queue(&mut queue, &mut index, &mut now, &mut playing, batch("g", 3), Some(false));
    assert_eq!(queue.len(), 3);
    assert_eq!(index, 0);
    assert_eq!(now.unwrap().id, "g0");
    assert!(!playing);
    let mut keep = true;
    let mut now2 = None;
    install_generated_queue(&mut queue, &mut index, &mut now2, &mut keep, vec![], None);
    assert!(queue.is_empty());
    assert!(now2.is_none());
    assert!(keep);
}

#[test]
fn seed_without_its_server_plays_alone() {
    let build = SeedQueueBuild::start(song("x", "zz"), &vec![server("s", true)]);
    assert_eq!(build.next_step(), SeedQueuePhase::Done);
    let q = build.finish();
    assert_eq!(q.len(), 1);
    assert_eq!(q[0].id, "x");
}

#[test]
fn seed_queue_from_related_then_random() {
    let servers = vec![server("t", true), server("s", true)];
    let mut build = SeedQueueBuild::start(song("x", "s"), &servers);
    assert_eq!(build.next_step(), SeedQueuePhase::Related { server_index: 1 });
    build.take_related(vec![song("x", "s")]);
    assert_eq!(build.next_step(), SeedQueuePhase::Random { server_index: 1 });
    build.take_random(vec![song("r1", "s"), song("r1", "s"), song("r2", "s")]);
    assert_eq!(build.next_step(), SeedQueuePhase::Done);
    let q = build.finish();
    let ids: Vec<&str> = q.iter().map(|s| s.id.as_str()).collect();
    assert_eq!(ids, vec!["x", "r1", "r2"]);
    let mut long = SeedQueueBuild::start(song("x", "s"), &servers);
    long.take_related(batch("b", 100));
    assert_eq!(long.next_step(), SeedQueuePhase::Done);
    assert_eq!(long.finish().len(), 60);
}
