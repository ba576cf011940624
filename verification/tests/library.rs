use rustysound::library::{
    apply_favorite_update, apply_player_favorite_update, apply_player_rating_update, apply_rating_update,
    finish_shuffle_queue, normalized_rating, prepare_shuffle_queue, queue_from_seed,
    unique_related_songs,
};
use rustysound::model::{QueueSongMeta, QueueSourceKind, Song};

fn song(id: &str, server: &str) -> Song {
    Song {
        id: id.to_string(),
        server_id: server.to_string(),
        server_name: "Home".to_string(),
        title: id.to_string(),
        artist: None,
        artist_id: None,
        album: None,
        album_id: None,
        cover_art: None,
        stream_url: None,
        starred: None,
        user_rating: None,
        year: None,
        duration: 0,
        queue_meta: None,
    }
}

fn ids(q: &[Song]) -> Vec<&str> {
    q.iter().map(|s| s.id.as_str()).collect()
}

#[test]
fn favourite_reaches_every_queued_instance() {
    let mut now = Some(song("a", "s"));
    let mut queue = vec![song("a", "s"), song("b", "s"), song("a", "t"), song("a", "s")];
    apply_favorite_update(&mut now, &mut queue, &"a".to_string(), &"s".to_string(), true);
    assert_eq!(now.as_ref().unwrap().starred.as_deref(), Some("local"));
    assert_eq!(queue[0].starred.as_deref(), Some("local"));
    assert_eq!(queue[1].starred, None);
    assert_eq!(queue[2].starred, None);
    assert_eq!(queue[3].starred.as_deref(), Some("local"));
    apply_favorite_update(&mut now, &mut queue, &"a".to_string(), &"s".to_string(), false);
    assert_eq!(now.unwrap().starred, None);
    assert_eq!(queue[0].starred, None);
}

#[test]
fn ratings_are_capped_and_zero_clears() {
    assert_eq!(normalized_rating(3), 3);
    assert_eq!(normalized_rating(9), 5);
    let mut now = Some(song("a", "s"));
    let mut queue = vec![song("a", "s"), song("b", "s")];
    apply_rating_update(&mut now, &mut queue, &"a".to_string(), &"s".to_string(), 4);
    assert_eq!(now.as_ref().unwrap().user_rating, Some(4));
    assert_eq!(queue[0].user_rating, Some(4));
    assert_eq!(queue[1].user_rating, None);
    apply_rating_update(&mut now, &mut queue, &"a".to_string(), &"s".to_string(), 0);
    assert_eq!(queue[0].user_rating, None);
    let mut other = Some(song("z", "s"));
    apply_rating_update(&mut other, &mut queue, &"a".to_string(), &"s".to_string(), 2);
    assert_eq!(other.unwrap().user_rating, None);
}

#[test]
fn related_songs_are_unique_other_tracks() {
    let seed = song("a", "s");
    let related = vec![song("a", "s"), song("b", "s"), song("b", "s"), song("c", "t")];
    assert_eq!(ids(&unique_related_songs(&seed, related)), vec!["b", "c"]);
    let many: Vec<Song> = (0..40).map(|i| song(&format!("r{i}"), "s")).collect();
    assert_eq!(unique_related_songs(&seed, many).len(), 30);
}

#[test]
fn seeded_queue_uses_related_then_random() {
    let q = queue_from_seed(song("a", "s"), vec![song("b", "s"), song("a", "s")], vec![song("r", "s")]);
    assert_eq!(ids(&q), vec!["a", "b"]);
    let fallback = queue_from_seed(song("a", "s"), vec![song("a", "s")], vec![song("r1", "s"), song("r1", "s"), song("r2", "s")]);
    assert_eq!(ids(&fallback), vec!["a", "r1", "r2"]);
    let long: Vec<Song> = (0..100).map(|i| song(&format!("x{i}"), "s")).collect();
    assert_eq!(queue_from_seed(song("a", "s"), long, vec![]).len(), 60);
}

#[test]
fn shuffle_queue_is_a_rearrangement_of_at_most_fifty() {
    let mut input: Vec<Song> = (0..10).map(|i| song(&format!("s{i}"), "srv")).collect();
    input[0].queue_meta = Some(QueueSongMeta {
        group_id: "g".to_string(),
        source_kind: QueueSourceKind::Album,
        source_id: "al".to_string(),
        source_position: 0,
    });
    let out = prepare_shuffle_queue(input);
    let mut got: Vec<String> = out.iter().map(|s| s.id.clone()).collect();
    got.sort();
    let mut want: Vec<String> = (0..10).map(|i| format!("s{i}")).collect();
    want.sort();
    assert_eq!(got, want);
    assert!(out.iter().all(|s| s.queue_meta.is_none()));
    let big: Vec<Song> = (0..80).map(|i| song(&format!("b{i}"), "srv")).collect();
    assert_eq!(prepare_shuffle_queue(big).len(), 50);
}

#[test]
fn player_rating_reaches_every_server() {
    let mut now = Some(song("a", "s"));
    let mut queue = vec![song("a", "s"), song("a", "t"), song("b", "s")];
    apply_player_rating_update(&mut now, &mut queue, &"a".to_string(), 3);
    assert_eq!(now.as_ref().unwrap().user_rating, Some(3));
    assert_eq!(queue[0].user_rating, Some(3));
    assert_eq!(queue[1].user_rating, Some(3));
    assert_eq!(queue[2].user_rating, None);
    let mut details_queue = vec![song("a", "s"), song("a", "t")];
    let mut details_now = None;
    apply_rating_update(&mut details_now, &mut details_queue, &"a".to_string(), &"s".to_string(), 2);
    assert_eq!(details_queue[1].user_rating, None);
}

#[test]
fn player_favourite_marks_the_song_playing() {
    let mut now = Some(song("a", "t"));
    apply_player_favorite_update(&mut now, &"a".to_string(), true);
    assert_eq!(now.as_ref().unwrap().starred.as_deref(), Some("local"));
    apply_player_favorite_update(&mut now, &"z".to_string(), false);
    assert_eq!(now.unwrap().starred.as_deref(), Some("local"));
}

#[test]
fn shuffled_songs_are_cut_and_stripped() {
    let mut list: Vec<Song> = (0..60).map(|i| song(&format!("s{i}"), "srv")).collect();
    list[1].queue_meta = Some(QueueSongMeta {
        group_id: "g".to_string(),
        source_kind: QueueSourceKind::Album,
        source_id: "al".to_string(),
        source_position: 0,
    });
    let out = finish_shuffle_queue(list);
    assert_eq!(out.len(), 50);
    assert_eq!(out[1].id, "s1");
    assert!(out[1].queue_meta.is_none());
    assert_eq!(out[49].id, "s49");
    assert_eq!(finish_shuffle_queue(vec![song("x", "s")]).len(), 1);
}
