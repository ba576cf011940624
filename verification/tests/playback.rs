use rustysound::model::Song;
use rustysound::playback::{
    aligned_queue_index, item_status_name, offline_fallback_index, prefetch_seeds, requested_seek_applies,
    source_command, time_control_status_name, SourceCommand,
};

fn song(id: &str) -> Song {
    Song {
        id: id.to_string(),
        server_id: "s".to_string(),
        server_name: "Home".to_string(),
        title: id.to_string(),
        artist: None,
        artist_id: None,
        album: None,
        album_id: None,
        cover_art: None,
        stream_url: None,
        starred: None,
        user_rating: None,
        year: None,
        duration: 0,
        queue_meta: None,
    }
}

fn ids(q: &[Song]) -> Vec<&str> {
    q.iter().map(|s| s.id.as_str()).collect()
}

#[test]
fn selection_follows_the_song_playing() {
    let queue = vec![song("a"), song("b"), song("b")];
    assert_eq!(aligned_queue_index(&queue, &Some(song("b")), 0), 1);
    assert_eq!(aligned_queue_index(&queue, &Some(song("z")), 2), 2);
    assert_eq!(aligned_queue_index(&queue, &None, 2), 2);
}

#[test]
fn offline_skips_to_the_next_downloaded_entry() {
    let queue = vec![song("a"), song("b"), song("c"), song("d")];
    let downloaded = vec![true, false, false, true];
    assert_eq!(offline_fallback_index(&queue, &song("b"), 1, &downloaded), Some(3));
    let only_first = vec![true, false, false, false];
    assert_eq!(offline_fallback_index(&queue, &song("c"), 2, &only_first), Some(0));
    assert_eq!(offline_fallback_index(&queue, &song("c"), 2, &vec![false; 4]), None);
    assert_eq!(offline_fallback_index(&queue, &song("zz"), 9, &only_first), Some(0));
    assert_eq!(offline_fallback_index(&vec![], &song("a"), 0, &vec![]), None);
}

#[test]
fn prefetch_lists_the_song_and_the_next_entries_once() {
    let queue = vec![song("a"), song("b"), song("a"), song("c"), song("d")];
    assert_eq!(ids(&prefetch_seeds(&Some(song("a")), &queue, 0)), vec!["a", "b"]);
    assert_eq!(ids(&prefetch_seeds(&None, &queue, 2)), vec!["a", "c", "d"]);
    assert_eq!(ids(&prefetch_seeds(&Some(song("x")), &queue, 10)), vec!["x"]);
}

#[test]
fn source_commands() {
    let url = "http://a".to_string();
    assert_eq!(source_command(&url, &None, false), SourceCommand::Load);
    assert_eq!(source_command(&url, &Some("http://b".to_string()), true), SourceCommand::Load);
    assert_eq!(source_command(&url, &Some(url.clone()), true), SourceCommand::Seek);
    assert_eq!(source_command(&url, &Some(url.clone()), false), SourceCommand::Metadata);
    assert!(requested_seek_applies(&Some("a".to_string()), &"a".to_string()));
    assert!(!requested_seek_applies(&Some("a".to_string()), &"b".to_string()));
    assert!(!requested_seek_applies(&None, &"a".to_string()));
}

#[test]
fn player_status_names() {
    assert_eq!(time_control_status_name(0), "paused");
    assert_eq!(time_control_status_name(1), "waiting");
    assert_eq!(time_control_status_name(2), "playing");
    assert_eq!(time_control_status_name(-3), "unknown");
    assert_eq!(item_status_name(0), "unknown");
    assert_eq!(item_status_name(1), "ready");
    assert_eq!(item_status_name(2), "failed");
    assert_eq!(item_status_name(9), "n/a");
}
