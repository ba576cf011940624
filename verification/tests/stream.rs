use rustysound::model::{ServerConfig, Song};
use rustysound::stream::{
    can_save_server_bookmark, ios_file_path_from_url, is_live_song, playback_error_message,
    resolve_stream_url, song_cover_url, song_metadata, unresolved_source_message, StreamSource,
};

fn song(id: &str, server_id: &str) -> Song {
    Song {
        id: id.to_string(),
        server_id: server_id.to_string(),
        server_name: "Home".to_string(),
        title: "Track".to_string(),
        artist: Some("Artist".to_string()),
        artist_id: None,
        album: Some("Record".to_string()),
        album_id: None,
        cover_art: Some("cover-1".to_string()),
        stream_url: None,
        starred: None,
        user_rating: None,
        year: Some(1999),
        duration: 215,
        queue_meta: None,
    }
}

fn radio(title: &str, artist: Option<&str>, url: Option<&str>) -> Song {
    let mut s = song("st-1", "radio");
    s.server_name = "Radio".to_string();
    s.title = title.to_string();
    s.artist = artist.map(|a| a.to_string());
    s.album = None;
    s.year = None;
    s.stream_url = url.map(|u| u.to_string());
    s
}

fn servers() -> Vec<ServerConfig> {
    vec![
        ServerConfig { id: "a".to_string(), name: "A".to_string(), url: "http://a".to_string(), active: true },
        ServerConfig { id: "b".to_string(), name: "B".to_string(), url: "http://b".to_string(), active: true },
    ]
}

#[test]
fn cached_copy_wins() {
    let r = resolve_stream_url(&song("1", "b"), &servers(), true, Some("file:///x.mp3".to_string()));
    assert!(matches!(r, Some(StreamSource::Cached { url }) if url == "file:///x.mp3"));
}

#[test]
fn offline_without_copy_has_no_source() {
    assert!(resolve_stream_url(&song("1", "b"), &servers(), true, None).is_none());
}

#[test]
fn server_song_streams_from_its_server() {
    let r = resolve_stream_url(&song(" 42 ", "b"), &servers(), false, None);
    assert!(matches!(r, Some(StreamSource::Server { server_index: 1, song_id }) if song_id == "42"));
    assert!(resolve_stream_url(&song("42", "zzz"), &servers(), false, None).is_none());
    assert!(resolve_stream_url(&song("  ", "a"), &servers(), false, None).is_none());
}

#[test]
fn radio_streams_from_its_own_address() {
    let r = resolve_stream_url(&radio("Jazz", None, Some("http://st/x")), &servers(), false, None);
    assert!(matches!(r, Some(StreamSource::Direct { url }) if url == "http://st/x"));
    assert!(resolve_stream_url(&radio("Jazz", None, Some("  ")), &servers(), false, None).is_none());
    assert!(resolve_stream_url(&radio("Jazz", None, None), &servers(), false, None).is_none());
}

#[test]
fn bookmarks_only_for_server_songs() {
    assert!(can_save_server_bookmark(&song("1", "a")));
    assert!(!can_save_server_bookmark(&song(" ", "a")));
    assert!(!can_save_server_bookmark(&song("1", "")));
    assert!(!can_save_server_bookmark(&radio("x", None, Some("u"))));
    assert!(is_live_song(&radio("x", None, None)));
    assert!(!is_live_song(&song("1", "a")));
}

#[test]
fn cover_art_comes_from_the_songs_server() {
    let req = song_cover_url(&song("1", "b"), &servers(), 300).unwrap();
    assert_eq!(req.server_index, 1);
    assert_eq!(req.cover_art, "cover-1");
    assert_eq!(req.size, 300);
    assert!(song_cover_url(&song("1", "c"), &servers(), 300).is_none());
    let mut bare = song("1", "a");
    bare.cover_art = None;
    assert!(song_cover_url(&bare, &servers(), 300).is_none());
}

#[test]
fn metadata_of_a_server_song() {
    let m = song_metadata(&song("1", "a"), Some("http://art".to_string()));
    assert_eq!(m.title, "Track");
    assert_eq!(m.artist, "Artist");
    assert_eq!(m.album, "Record (1999)");
    assert_eq!(m.artwork.as_deref(), Some("http://art"));
    assert_eq!(m.duration, 215);
    assert!(!m.is_live);
    let mut bare = song("1", "a");
    bare.artist = None;
    bare.album = Some(String::new());
    bare.year = None;
    let m = song_metadata(&bare, None);
    assert_eq!(m.artist, "Unknown Artist");
    assert_eq!(m.album, "Unknown Album");
}

#[test]
fn metadata_of_a_station() {
    let m = song_metadata(&radio(" unknown SONG ", Some("Now: Tune"), None), None);
    assert_eq!(m.title, "Now: Tune");
    assert_eq!(m.album, "LIVE");
    assert!(m.is_live);
    let m = song_metadata(&radio("Unknown Song", None, None), None);
    assert_eq!(m.title, "Unknown Song");
    assert_eq!(m.artist, "Internet Radio");
    let m = song_metadata(&radio("Jazz FM", None, None), None);
    assert_eq!(m.title, "Jazz FM");
}

#[test]
fn messages_for_unplayable_sources() {
    assert_eq!(unresolved_source_message(&song("1", "a")), "Unable to load this audio source.");
    assert_eq!(
        unresolved_source_message(&radio("x", None, None)),
        "No station found: this station has no stream URL."
    );
}

#[test]
fn messages_for_media_errors() {
    let s = song("1", "a");
    assert_eq!(playback_error_message(1, Some(&s)), "Playback was aborted before the stream loaded.");
    assert_eq!(playback_error_message(2, Some(&s)), "Network error while loading this track.");
    assert_eq!(playback_error_message(3, None), "Audio playback failed due to a decode error.");
    assert_eq!(
        playback_error_message(4, Some(&s)),
        "Failed to load audio because no supported source was found."
    );
    assert_eq!(playback_error_message(9, Some(&s)), "Unable to load this audio source.");
    let mut st = radio("Jazz", Some("Jazz FM"), Some("u"));
    assert_eq!(
        playback_error_message(2, Some(&st)),
        "No station found: \"Jazz FM\" is unreachable right now."
    );
    st.album = Some("Smooth".to_string());
    assert_eq!(
        playback_error_message(4, Some(&st)),
        "No station found: \"Smooth\" has no supported stream source."
    );
    st.album = Some("  ".to_string());
    assert_eq!(playback_error_message(7, Some(&st)), "No station found: \"this station\" could not be loaded.");
}

#[test]
fn file_urls_become_paths() {
    assert_eq!(ios_file_path_from_url("file:///var/My%20Song.mp3").as_deref(), Some("/var/My Song.mp3"));
    assert_eq!(ios_file_path_from_url("file://tmp/a.mp3").as_deref(), Some("/tmp/a.mp3"));
    assert_eq!(ios_file_path_from_url("file://").as_deref(), Some("/"));
    assert_eq!(ios_file_path_from_url("https://host/a.mp3"), None);
}
