use rustysound::collection::{
    apply_collection_shuffle_mode, apply_group_slot_order, assign_collection_queue_meta, assign_collection_queue_meta_with_token,
    queue_should_generate_similar_on_end, queue_source_kind_tag,
};
use rustysound::model::{QueueSourceKind, Song};

fn song(id: &str) -> Song {
    Song {
        id: id.to_string(),
        server_id: "srv".to_string(),
        server_name: "Home".to_string(),
        title: id.to_uppercase(),
        artist: None,
        artist_id: None,
        album: None,
        album_id: None,
        cover_art: None,
        stream_url: None,
        starred: None,
        user_rating: None,
        year: None,
        duration: 100,
        queue_meta: None,
    }
}

fn album(ids: &[&str]) -> Vec<Song> {
    assign_collection_queue_meta_with_token(
        ids.iter().map(|id| song(id)).collect(),
        QueueSourceKind::Album,
        "al-1".to_string(),
        "tok",
    )
}

fn ids(q: &[Song]) -> Vec<String> {
    q.iter().map(|s| s.id.clone()).collect()
}

#[test]
fn kind_tags() {
    assert_eq!(queue_source_kind_tag(&QueueSourceKind::Album), "album");
    assert_eq!(queue_source_kind_tag(&QueueSourceKind::Playlist), "playlist");
    assert_eq!(queue_source_kind_tag(&QueueSourceKind::Favorites), "favorites");
    assert_eq!(queue_source_kind_tag(&QueueSourceKind::RandomMix), "random_mix");
    assert_eq!(queue_source_kind_tag(&QueueSourceKind::Artist), "artist");
}

#[test]
fn collection_songs_are_tagged_with_group_and_position() {
    let tagged = album(&["a", "b", "c"]);
    for (i, s) in tagged.iter().enumerate() {
        let m = s.queue_meta.as_ref().unwrap();
        assert_eq!(m.group_id, "al-1:album:tok");
        assert_eq!(m.source_id, "al-1");
        assert_eq!(m.source_position, i);
        assert!(matches!(m.source_kind, QueueSourceKind::Album));
    }
    assert_eq!(ids(&tagged), vec!["a", "b", "c"]);
}

#[test]
fn fresh_groups_get_a_uuid_token() {
    let first = assign_collection_queue_meta(vec![song("a")], QueueSourceKind::Playlist, "pl".to_string());
    let second = assign_collection_queue_meta(vec![song("a")], QueueSourceKind::Playlist, "pl".to_string());
    let g1 = first[0].queue_meta.as_ref().unwrap().group_id.clone();
    let g2 = second[0].queue_meta.as_ref().unwrap().group_id.clone();
    assert!(g1.starts_with("pl:playlist:"));
    let token = &g1["pl:playlist:".len()..];
    assert_eq!(token.len(), 36);
    assert_eq!(&token[14..15], "4");
    assert_ne!(g1, g2);
}

#[test]
fn shuffle_keeps_every_song_and_pins_the_playing_one() {
    let ids_in: Vec<String> = (0..12).map(|i| format!("s{i}")).collect();
    let refs: Vec<&str> = ids_in.iter().map(|s| s.as_str()).collect();
    let mut queue = album(&refs);
    let playing = queue[4].clone();
    let mut index = 4usize;
    apply_collection_shuffle_mode(&mut queue, &mut index, &Some(playing.clone()), true);
    let mut after = ids(&queue);
    after.sort();
    let mut before = ids_in.clone();
    before.sort();
    assert_eq!(after, before);
    assert_eq!(queue[4].id, "s4");
    assert_eq!(index, 4);
}

#[test]
fn unshuffle_restores_collection_order() {
    let mut queue = album(&["a", "b", "c", "d"]);
    queue.swap(0, 3);
    queue.swap(1, 2);
    let playing = queue[0].clone();
    let mut index = 0usize;
    let changed = apply_collection_shuffle_mode(&mut queue, &mut index, &Some(playing), false);
    assert!(changed);
    assert_eq!(ids(&queue), vec!["a", "b", "c", "d"]);
    assert_eq!(index, 3);
    let again = apply_collection_shuffle_mode(&mut queue, &mut index, &None, false);
    assert!(!again);
}

#[test]
fn only_the_active_group_moves() {
    let mut queue = vec![song("x")];
    queue.extend(album(&["b", "a"]));
    queue.swap(1, 2);
    queue.push(song("y"));
    let mut index = 0usize;
    let changed = apply_collection_shuffle_mode(&mut queue, &mut index, &Some(song("x")), false);
    assert!(changed);
    assert_eq!(ids(&queue), vec!["x", "b", "a", "y"]);
    assert_eq!(index, 0);
}

#[test]
fn no_group_nothing_changes() {
    let mut queue = vec![song("a"), song("b")];
    let mut index = 1usize;
    assert!(!apply_collection_shuffle_mode(&mut queue, &mut index, &None, true));
    assert_eq!(ids(&queue), vec!["a", "b"]);
    assert_eq!(index, 1);
}

#[test]
fn similar_queue_only_for_a_single_hand_picked_song() {
    let single = vec![song("a")];
    assert!(queue_should_generate_similar_on_end(&single, Some(&single[0]), true));
    assert!(!queue_should_generate_similar_on_end(&single, Some(&single[0]), false));
    assert!(!queue_should_generate_similar_on_end(&album(&["a"]), None, true));
    assert!(!queue_should_generate_similar_on_end(&vec![song("a"), song("b")], None, true));
    let mut station = song("r");
    station.server_name = "Radio".to_string();
    assert!(!queue_should_generate_similar_on_end(&single, Some(&station), true));
}

#[test]
fn a_drawn_order_is_applied_to_the_group() {
    let mut queue = vec![song("x")];
    queue.extend(album(&["a", "b", "c"]));
    let group = queue[1].queue_meta.as_ref().unwrap().group_id.clone();
    let mut index = 2usize;
    let now = Some(queue[2].clone());
    let changed = apply_group_slot_order(&mut queue, &mut index, &now, &group, &vec![1, 2, 3], &vec![2, 0, 1]);
    assert!(changed);
    assert_eq!(ids(&queue), vec!["x", "c", "a", "b"]);
    assert_eq!(index, 3);
    let same = apply_group_slot_order(&mut queue, &mut index, &now, &group, &vec![1, 2, 3], &vec![0, 1, 2]);
    assert!(!same);
    assert_eq!(index, 3);
}
