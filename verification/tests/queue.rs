use rustysound::model::{QueueSongMeta, QueueSourceKind, Song};
use rustysound::queue::{
    adjusted_queue_index_after_reorder, find_song_instance_index, normalize_manual_queue_songs,
    normalize_song_for_manual_queue, play_song, position_of_id, remove_queue_entry, reorder_queue_entry,
    selected_song_favorited, toggle_selected_playback,
};

fn song(id: &str) -> Song {
    Song {
        id: id.to_string(),
        server_id: "srv".to_string(),
        server_name: "Home".to_string(),
        title: format!("Title {id}"),
        artist: None,
        artist_id: None,
        album: None,
        album_id: None,
        cover_art: None,
        stream_url: None,
        starred: None,
        user_rating: None,
        year: None,
        duration: 180,
        queue_meta: None,
    }
}

fn with_meta(id: &str, group: &str, position: usize) -> Song {
    let mut s = song(id);
    s.queue_meta = Some(QueueSongMeta {
        group_id: group.to_string(),
        source_kind: QueueSourceKind::Album,
        source_id: "album-1".to_string(),
        source_position: position,
    });
    s
}

fn ids(q: &[Song]) -> Vec<&str> {
    q.iter().map(|s| s.id.as_str()).collect()
}

#[test]
fn manual_normalisation_drops_provenance() {
    let s = normalize_song_for_manual_queue(with_meta("a", "g", 0));
    assert!(s.queue_meta.is_none());
    assert_eq!(s.id, "a");
    let again = normalize_song_for_manual_queue(s.clone());
    assert!(again.queue_meta.is_none());
    let list = normalize_manual_queue_songs(vec![with_meta("a", "g", 0), song("b")]);
    assert_eq!(ids(&list), vec!["a", "b"]);
    assert!(list.iter().all(|s| s.queue_meta.is_none()));
}

#[test]
fn instance_found_by_provenance_before_track() {
    let queue = vec![with_meta("a", "g1", 0), with_meta("b", "g1", 1), with_meta("a", "g2", 0)];
    assert_eq!(find_song_instance_index(&queue, &with_meta("a", "g2", 0)), Some(2));
    assert_eq!(find_song_instance_index(&queue, &with_meta("a", "g9", 0)), Some(0));
    assert_eq!(find_song_instance_index(&queue, &song("b")), Some(1));
    assert_eq!(find_song_instance_index(&queue, &song("c")), None);
    assert_eq!(position_of_id(&queue, &"b".to_string()), Some(1));
    assert_eq!(position_of_id(&queue, &"x".to_string()), None);
}

#[test]
fn play_song_selects_a_queued_song() {
    let mut now = None;
    let mut queue = vec![song("a"), song("b"), song("c")];
    let mut index = 0usize;
    let mut playing = false;
    play_song(song("b"), &mut now, &mut queue, &mut index, &mut playing);
    assert_eq!(index, 1);
    assert_eq!(ids(&queue), vec!["a", "b", "c"]);
    assert_eq!(now.as_ref().map(|s| s.id.as_str()), Some("b"));
    assert!(playing);
}

#[test]
fn play_song_replaces_the_queue_with_an_unqueued_song() {
    let mut now = Some(song("a"));
    let mut queue = vec![song("a"), song("b")];
    let mut index = 1usize;
    let mut playing = false;
    play_song(song("z"), &mut now, &mut queue, &mut index, &mut playing);
    assert_eq!(index, 0);
    assert_eq!(ids(&queue), vec!["z"]);
    assert_eq!(queue[index].id, "z");
    assert!(playing);
}

#[test]
fn reorder_index_adjustment() {
    assert_eq!(adjusted_queue_index_after_reorder(2, 2, 0), 0);
    assert_eq!(adjusted_queue_index_after_reorder(2, 0, 3), 1);
    assert_eq!(adjusted_queue_index_after_reorder(2, 4, 1), 3);
    assert_eq!(adjusted_queue_index_after_reorder(2, 0, 1), 2);
    assert_eq!(adjusted_queue_index_after_reorder(0, 0, 0), 0);
    assert_eq!(adjusted_queue_index_after_reorder(usize::MAX, usize::MAX - 1, 0), usize::MAX);
}

#[test]
fn reorder_keeps_the_selected_entry() {
    let mut queue = vec![song("a"), song("b"), song("c"), song("d")];
    let mut index = 2usize;
    let mut now = Some(song("c"));
    reorder_queue_entry(&mut queue, &mut index, &mut now, 0, 3);
    assert_eq!(ids(&queue), vec!["b", "c", "d", "a"]);
    assert_eq!(index, 1);
    assert_eq!(queue[index].id, "c");
    assert_eq!(now.unwrap().id, "c");
}

#[test]
fn reorder_moving_the_selected_entry() {
    let mut queue = vec![song("a"), song("b"), song("c")];
    let mut index = 0usize;
    let mut now = None;
    reorder_queue_entry(&mut queue, &mut index, &mut now, 0, 2);
    assert_eq!(ids(&queue), vec!["b", "c", "a"]);
    assert_eq!(index, 2);
    assert!(now.is_none());
}

#[test]
fn reorder_ignores_invalid_moves() {
    let mut queue = vec![song("a"), song("b")];
    let mut index = 1usize;
    let mut now = Some(song("b"));
    reorder_queue_entry(&mut queue, &mut index, &mut now, 1, 1);
    reorder_queue_entry(&mut queue, &mut index, &mut now, 0, 5);
    assert_eq!(ids(&queue), vec!["a", "b"]);
    assert_eq!(index, 1);
    let mut single = vec![song("a")];
    let mut i = 0usize;
    reorder_queue_entry(&mut single, &mut i, &mut now, 0, 0);
    assert_eq!(ids(&single), vec!["a"]);
}

#[test]
fn removing_another_entry_keeps_the_song() {
    let mut queue = vec![song("a"), song("b"), song("c")];
    let mut index = 2usize;
    let mut now = Some(song("c"));
    let mut playing = true;
    remove_queue_entry(&mut queue, &mut index, &mut now, &mut playing, 0);
    assert_eq!(ids(&queue), vec!["b", "c"]);
    assert_eq!(index, 1);
    assert_eq!(now.as_ref().unwrap().id, "c");
    assert!(playing);
}

#[test]
fn removing_the_selected_entry_moves_to_its_successor() {
    let mut queue = vec![song("a"), song("b"), song("c")];
    let mut index = 1usize;
    let mut now = Some(song("b"));
    let mut playing = true;
    remove_queue_entry(&mut queue, &mut index, &mut now, &mut playing, 1);
    assert_eq!(ids(&queue), vec!["a", "c"]);
    assert_eq!(index, 1);
    assert_eq!(now.as_ref().unwrap().id, "c");
    let mut index = 1usize;
    remove_queue_entry(&mut queue, &mut index, &mut now, &mut playing, 1);
    assert_eq!(ids(&queue), vec!["a"]);
    assert_eq!(index, 0);
    assert_eq!(now.as_ref().unwrap().id, "a");
}

#[test]
fn removing_the_last_entry_stops_playback() {
    let mut queue = vec![song("a")];
    let mut index = 0usize;
    let mut now = Some(song("a"));
    let mut playing = true;
    remove_queue_entry(&mut queue, &mut index, &mut now, &mut playing, 0);
    assert!(queue.is_empty());
    assert_eq!(index, 0);
    assert!(now.is_none());
    assert!(!playing);
}

#[test]
fn removing_out_of_range_changes_nothing() {
    let mut queue = vec![song("a"), song("b")];
    let mut index = 1usize;
    let mut now = Some(song("b"));
    let mut playing = true;
    remove_queue_entry(&mut queue, &mut index, &mut now, &mut playing, 7);
    assert_eq!(ids(&queue), vec!["a", "b"]);
    assert_eq!(index, 1);
    assert!(playing);
}

#[test]
fn play_song_keeps_the_selection_on_the_same_server() {
    let mut other = song("a");
    other.server_id = "other".to_string();
    let mut now = None;
    let mut queue = vec![other.clone(), song("a")];
    let mut index = 0usize;
    let mut playing = false;
    play_song(song("a"), &mut now, &mut queue, &mut index, &mut playing);
    assert_eq!(index, 1);
    assert_eq!(queue[index].server_id, "srv");
    let mut only_other = vec![other];
    let mut i = 0usize;
    play_song(song("a"), &mut now, &mut only_other, &mut i, &mut playing);
    assert_eq!(only_other.len(), 1);
    assert_eq!(only_other[0].server_id, "srv");
}

#[test]
fn play_song_takes_the_first_entry_of_the_track() {
    let mut queue = vec![song("b"), song("a"), with_meta("a", "g2", 3)];
    let mut now = None;
    let mut index = 0usize;
    let mut playing = false;
    play_song(with_meta("a", "g2", 3), &mut now, &mut queue, &mut index, &mut playing);
    assert_eq!(index, 1);
    assert_eq!(queue.len(), 3);
}

#[test]
fn details_play_button_toggles_or_selects() {
    let mut queue = vec![song("a"), song("b")];
    let mut index = 0usize;
    let mut now = Some(song("a"));
    let mut playing = true;
    toggle_selected_playback(&song("a"), &mut queue, &mut index, &mut now, &mut playing);
    assert!(!playing);
    toggle_selected_playback(&song("b"), &mut queue, &mut index, &mut now, &mut playing);
    assert_eq!(index, 1);
    assert!(playing);
    assert_eq!(now.as_ref().unwrap().id, "b");
    toggle_selected_playback(&song("c"), &mut queue, &mut index, &mut now, &mut playing);
    assert_eq!(ids(&queue), vec!["a", "b", "c"]);
    assert_eq!(index, 2);
}

#[test]
fn favourite_mark_shown_in_the_details_panel() {
    let mut starred = song("a");
    starred.starred = Some("x".to_string());
    assert!(selected_song_favorited(&song("a"), &vec![starred.clone()], &None));
    assert!(!selected_song_favorited(&starred, &vec![song("a")], &None));
    assert!(selected_song_favorited(&song("a"), &vec![], &Some(starred.clone())));
    assert!(selected_song_favorited(&starred, &vec![], &None));
}
