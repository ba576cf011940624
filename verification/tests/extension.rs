use rustysound::extension::{
    extend_unique_queue_candidates, queue_extension_song_key, ExtensionRequest, KeySet, QueueExtension,
};
use rustysound::model::{QueueSongMeta, QueueSourceKind, ServerConfig, Song};

fn song(id: &str, server: &str) -> Song {
    Song {
        id: id.to_string(),
        server_id: server.to_string(),
        server_name: "Home".to_string(),
        title: id.to_string(),
        artist: None,
        artist_id: None,
        album: None,
        album_id: None,
        cover_art: None,
        stream_url: None,
        starred: None,
        user_rating: None,
        year: None,
        duration: 0,
        queue_meta: None,
    }
}

fn server(id: &str, active: bool) -> ServerConfig {
    ServerConfig { id: id.to_string(), name: id.to_string(), url: format!("http://{id}"), active }
}

#[test]
fn keys_join_server_and_song() {
    assert_eq!(queue_extension_song_key(&song("42", "home")), "home::42");
}

#[test]
fn key_set_reads_back_what_was_written() {
    let mut keys = KeySet::new();
    assert!(!keys.contains(&"a".to_string()));
    assert!(keys.insert("a".to_string()));
    assert!(keys.contains(&"a".to_string()));
    assert!(!keys.insert("a".to_string()));
}

#[test]
fn extension_skips_known_songs_and_stops_at_the_limit() {
    let mut excluded = KeySet::new();
    excluded.insert("s::1".to_string());
    let mut additions = Vec::new();
    let candidates = vec![song("1", "s"), song("2", "s"), song("2", "s"), song("3", "s"), song("4", "s")];
    extend_unique_queue_candidates(candidates, &mut excluded, &mut additions, 2);
    let ids: Vec<&str> = additions.iter().map(|s| s.id.as_str()).collect();
    assert_eq!(ids, vec!["2", "3"]);
    assert!(excluded.contains(&"s::3".to_string()));
    assert!(!excluded.contains(&"s::4".to_string()));
}

#[test]
fn no_server_no_extension() {
    assert!(QueueExtension::start(vec![], &song("1", "s"), &vec![], 5).is_none());
}

#[test]
fn extension_asks_similar_then_random_songs() {
    let servers = vec![server("s", true), server("t", true), server("off", false)];
    let seed = song("seed", "t");
    let existing = vec![song("q1", "s")];
    let mut ext = QueueExtension::start(servers, &seed, &existing, 3).unwrap();
    match ext.request() {
        Some(ExtensionRequest::SimilarSongs2 { server_index, song_id, count }) => {
            assert_eq!(server_index, 1);
            assert_eq!(song_id, "seed");
            assert_eq!(count, 24);
        },
        other => panic!("unexpected {:?}", other),
    }
    ext.receive(Some(vec![song("seed", "t"), song("q1", "s"), song("n1", "t")]));
    assert!(matches!(ext.request(), Some(ExtensionRequest::SimilarSongs { server_index: 1, .. })));
    ext.receive(None);
    match ext.request() {
        Some(ExtensionRequest::RandomSongs { server_index, count }) => {
            assert_eq!(server_index, 0);
            assert_eq!(count, 30);
        },
        other => panic!("unexpected {:?}", other),
    }
    let mut tagged = song("n2", "s");
    tagged.queue_meta = Some(QueueSongMeta {
        group_id: "g".to_string(),
        source_kind: QueueSourceKind::RandomMix,
        source_id: "r".to_string(),
        source_position: 0,
    });
    ext.receive(Some(vec![song("n1", "t"), tagged, song("n3", "s"), song("n4", "s")]));
    assert!(ext.request().is_none());
    let added = ext.finish();
    let ids: Vec<&str> = added.iter().map(|s| s.id.as_str()).collect();
    assert_eq!(ids, vec!["n1", "n2", "n3"]);
    assert!(added.iter().all(|s| s.queue_meta.is_none()));
}

#[test]
fn seed_on_unknown_server_goes_straight_to_random_songs() {
    let mut ext = QueueExtension::start(vec![server("s", false)], &song("x", "zz"), &vec![], 500).unwrap();
    match ext.request() {
        Some(ExtensionRequest::RandomSongs { server_index, count }) => {
            assert_eq!(server_index, 0);
            assert_eq!(count, 120);
        },
        other => panic!("unexpected {:?}", other),
    }
    ext.receive(None);
    assert!(matches!(ext.request(), Some(ExtensionRequest::RandomSongs { server_index: 0, .. })));
    ext.receive(None);
    assert!(ext.request().is_none());
    assert!(ext.finish().is_empty());
}
