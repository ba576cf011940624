use rustysound::details::{overlay_should_follow, overlay_song_key, OverlayLyricsState, SongDetailsState, SongDetailsTab};
use rustysound::lyrics::{
    active_theme, theme_from_setting, theme_uses_dark_text, LyricLine, LyricsResult, ScreenshotTheme,
};
use rustysound::model::Song;

fn song(id: &str) -> Song {
    Song {
        id: id.to_string(),
        server_id: "s".to_string(),
        server_name: "Home".to_string(),
        title: id.to_string(),
        artist: None,
        artist_id: None,
        album: None,
        album_id: None,
        cover_art: None,
        stream_url: None,
        starred: None,
        user_rating: None,
        year: None,
        duration: 0,
        queue_meta: None,
    }
}

fn timed() -> LyricsResult {
    LyricsResult {
        plain_lyrics: "a".to_string(),
        synced_lines: vec![LyricLine { timestamp_ms: 0, text: "a".to_string() }],
    }
}

#[test]
fn open_overlay_follows_the_song_playing() {
    let mut state = SongDetailsState { is_open: true, song: Some(song("a")), active_tab: SongDetailsTab::Lyrics };
    assert!(!overlay_should_follow(&state, &Some(song("a"))));
    assert!(overlay_should_follow(&state, &Some(song("b"))));
    assert!(!overlay_should_follow(&state, &None));
    state.is_open = false;
    assert!(!overlay_should_follow(&state, &Some(song("b"))));
    assert_eq!(overlay_song_key(&song("7")), "s:7");
}

#[test]
fn lyrics_are_retried_once_per_song() {
    let mut st = OverlayLyricsState::new();
    assert!(!st.retry_lyrics(true));
    assert!(st.select_song(Some("s:1".to_string())));
    assert!(!st.retry_lyrics(false));
    assert!(st.retry_lyrics(true));
    assert!(!st.retry_lyrics(true));
    assert!(!st.retry_upgrade(true, true));
    assert!(st.retry_upgrade(true, false));
    assert!(!st.retry_upgrade(true, false));
    assert!(!st.select_song(Some("s:1".to_string())));
    assert!(st.select_song(Some("s:2".to_string())));
    assert!(st.retry_lyrics(true));
}

#[test]
fn timed_upgrades_are_cached_for_the_song_shown() {
    let mut st = OverlayLyricsState::new();
    st.remember_upgrade(timed());
    assert!(st.cached_synced().is_none());
    st.select_song(Some("s:1".to_string()));
    st.remember_upgrade(LyricsResult { plain_lyrics: "p".to_string(), synced_lines: vec![] });
    assert!(st.cached_synced().is_none());
    st.remember_upgrade(timed());
    assert_eq!(st.cached_synced().unwrap().synced_lines.len(), 1);
    st.select_song(Some("s:2".to_string()));
    assert!(st.cached_synced().is_none());
}

#[test]
fn card_themes() {
    assert_eq!(theme_from_setting("lagoon"), ScreenshotTheme::Lagoon);
    assert_eq!(theme_from_setting("ember"), ScreenshotTheme::Ember);
    assert_eq!(theme_from_setting("midnight"), ScreenshotTheme::Midnight);
    assert_eq!(theme_from_setting("anything"), ScreenshotTheme::Cover);
    assert_eq!(active_theme(ScreenshotTheme::Cover, false), ScreenshotTheme::Lagoon);
    assert_eq!(active_theme(ScreenshotTheme::Cover, true), ScreenshotTheme::Cover);
    assert_eq!(active_theme(ScreenshotTheme::Midnight, false), ScreenshotTheme::Midnight);
    assert!(theme_uses_dark_text(ScreenshotTheme::Ember));
    assert!(!theme_uses_dark_text(ScreenshotTheme::Midnight));
}
