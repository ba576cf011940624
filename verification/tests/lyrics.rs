use rustysound::lyrics::{
    active_lyric_index, build_mini_lyrics_preview, initial_lyrics_selection, lyrics_selection_step, shown_range,
    LyricsSelectionEvent, format_timestamp, pick_display_lyrics,
    plain_lyrics_lines, sanitize_dom_id, screenshot_bar_label, screenshot_lyrics_bars, LyricLine,
    LyricsProviderRun, LyricsResult, ScreenshotLyricBar,
};

fn line(ms: i64, text: &str) -> LyricLine {
    LyricLine { timestamp_ms: ms, text: text.to_string() }
}

fn timed() -> LyricsResult {
    LyricsResult {
        plain_lyrics: "one\ntwo\nthree".to_string(),
        synced_lines: vec![line(0, " one "), line(5_000, "two"), line(9_000, "three")],
    }
}

fn plain(text: &str) -> LyricsResult {
    LyricsResult { plain_lyrics: text.to_string(), synced_lines: vec![] }
}

#[test]
fn active_line_is_the_last_started_one() {
    let lines = timed().synced_lines;
    assert_eq!(active_lyric_index(&lines, -1), None);
    assert_eq!(active_lyric_index(&lines, 0), Some(0));
    assert_eq!(active_lyric_index(&lines, 4_999), Some(0));
    assert_eq!(active_lyric_index(&lines, 5_000), Some(1));
    assert_eq!(active_lyric_index(&lines, 60_000), Some(2));
    assert_eq!(active_lyric_index(&vec![], 10), None);
}

#[test]
fn active_line_stops_at_the_first_line_not_yet_started() {
    let lines = vec![line(0, "a"), line(8_000, "b"), line(3_000, "c")];
    assert_eq!(active_lyric_index(&lines, 5_000), Some(0));
}

#[test]
fn plain_lines_are_trimmed_and_blank_ones_dropped() {
    let lines = plain_lyrics_lines(&plain("  first \n\n second\n   \nthird"));
    assert_eq!(lines, vec!["first", "second", "third"]);
    assert!(plain_lyrics_lines(&plain("")).is_empty());
    assert!(plain_lyrics_lines(&plain("\n \n")).is_empty());
}

#[test]
fn display_prefers_timed_upgrade_when_syncing() {
    let primary = Some(Ok(plain("words")));
    let upgrade = Some(Ok(Some(timed())));
    let shown = pick_display_lyrics(true, primary, upgrade, None).unwrap().unwrap();
    assert_eq!(shown.synced_lines.len(), 3);
}

#[test]
fn display_uses_cached_timed_copy_when_syncing() {
    let shown = pick_display_lyrics(true, Some(Ok(plain("words"))), None, Some(timed())).unwrap().unwrap();
    assert_eq!(shown.synced_lines.len(), 3);
    let unsynced = pick_display_lyrics(false, Some(Ok(plain("words"))), None, Some(timed())).unwrap().unwrap();
    assert_eq!(unsynced.plain_lyrics, "words");
}

#[test]
fn display_falls_back_to_upgrade_when_primary_failed() {
    let shown = pick_display_lyrics(false, Some(Err("down".to_string())), Some(Ok(Some(plain("up")))), None);
    assert_eq!(shown.unwrap().unwrap().plain_lyrics, "up");
    let failed = pick_display_lyrics(false, Some(Err("down".to_string())), Some(Ok(None)), None);
    assert_eq!(failed.unwrap().unwrap_err(), "down");
    assert!(pick_display_lyrics(false, None, Some(Err("x".to_string())), None).is_none());
    let only_upgrade = pick_display_lyrics(false, None, Some(Ok(Some(plain("u")))), None);
    assert_eq!(only_upgrade.unwrap().unwrap().plain_lyrics, "u");
}

#[test]
fn mini_preview_around_the_current_line() {
    let p = build_mini_lyrics_preview(Some(Ok(timed())), true, 6_000).unwrap();
    assert_eq!(p.previous.as_deref(), Some("one"));
    assert_eq!(p.current, "two");
    assert_eq!(p.next.as_deref(), Some("three"));
    let start = build_mini_lyrics_preview(Some(Ok(timed())), true, -500).unwrap();
    assert_eq!(start.previous, None);
    assert_eq!(start.current, "one");
    let end = build_mini_lyrics_preview(Some(Ok(timed())), true, 99_000).unwrap();
    assert_eq!(end.current, "three");
    assert_eq!(end.next, None);
}

#[test]
fn mini_preview_of_plain_lyrics() {
    let p = build_mini_lyrics_preview(Some(Ok(plain("\n a \nb\nc"))), false, 0).unwrap();
    assert_eq!(p.previous, None);
    assert_eq!(p.current, "a");
    assert_eq!(p.next.as_deref(), Some("b"));
    let single = build_mini_lyrics_preview(Some(Ok(plain("only"))), true, 0).unwrap();
    assert_eq!(single.next, None);
    assert!(build_mini_lyrics_preview(Some(Ok(plain("  "))), false, 0).is_none());
    assert!(build_mini_lyrics_preview(Some(Err("e".to_string())), false, 0).is_none());
    assert!(build_mini_lyrics_preview(None, true, 0).is_none());
}

#[test]
fn screenshot_bars_from_timed_or_plain_lyrics() {
    let mut lyrics = timed();
    lyrics.synced_lines.push(line(12_000, "   "));
    let bars = screenshot_lyrics_bars(&lyrics, true);
    assert_eq!(bars.len(), 3);
    assert_eq!(bars[0].text, "one");
    assert_eq!(bars[1].timestamp_ms, Some(5_000));
    let plain_bars = screenshot_lyrics_bars(&lyrics, false);
    assert_eq!(plain_bars.len(), 3);
    assert_eq!(plain_bars[2].text, "three");
    assert_eq!(plain_bars[2].timestamp_ms, None);
}

#[test]
fn timestamps_round_to_the_nearest_second() {
    assert_eq!(format_timestamp(0), "00:00");
    assert_eq!(format_timestamp(-2_000), "00:00");
    assert_eq!(format_timestamp(1_499), "00:01");
    assert_eq!(format_timestamp(1_500), "00:02");
    assert_eq!(format_timestamp(65_000), "01:05");
    assert_eq!(format_timestamp(6_000_000), "100:00");
}

#[test]
fn bar_labels() {
    let bar = ScreenshotLyricBar { text: "hello".to_string(), timestamp_ms: Some(61_000) };
    assert_eq!(screenshot_bar_label(&bar, true), "01:01 hello");
    assert_eq!(screenshot_bar_label(&bar, false), "hello");
    let untimed = ScreenshotLyricBar { text: "hi".to_string(), timestamp_ms: None };
    assert_eq!(screenshot_bar_label(&untimed, true), "hi");
}

#[test]
fn dom_ids_are_clean_and_stable() {
    assert_eq!(sanitize_dom_id("Song Title #1"), "song-title--1");
    assert_eq!(sanitize_dom_id(""), "lyrics");
    assert_eq!(sanitize_dom_id("Ünïcode"), "-n-code");
    let once = sanitize_dom_id("Mixed CASE_42!");
    assert_eq!(sanitize_dom_id(&once), once);
    assert!(once.chars().all(|c| c.is_ascii_lowercase() || c.is_ascii_digit() || c == '-'));
}

#[test]
fn providers_are_tried_in_order_and_failures_joined() {
    let mut run = LyricsProviderRun::new(vec!["lrclib".to_string(), "netease".to_string()]);
    assert_eq!(run.current_provider().as_deref(), Some("lrclib"));
    run.record_failure("timeout");
    assert_eq!(run.current_provider().as_deref(), Some("netease"));
    run.record_failure("not found");
    assert_eq!(run.current_provider(), None);
    run.record_failure("ignored");
    assert_eq!(run.failure_message(), "lrclib failed: timeout | netease failed: not found");
}

#[test]
fn no_providers_configured() {
    let run = LyricsProviderRun::new(vec![]);
    assert_eq!(run.current_provider(), None);
    assert_eq!(run.failure_message(), "No lyrics providers configured.");
}

#[test]
fn shown_lines_stay_on_the_card() {
    assert_eq!(shown_range(0, 1, 0), (0, 0));
    assert_eq!(shown_range(9, 3, 4), (3, 1));
    assert_eq!(shown_range(1, 0, 4), (1, 1));
    assert_eq!(shown_range(0, 9, 10), (0, 5));
}

#[test]
fn lyric_card_selection_extends_and_resets() {
    let mut st = initial_lyrics_selection();
    st = lyrics_selection_step(st, LyricsSelectionEvent::Open { active: Some(2) }, 10);
    assert!(st.view_open);
    assert_eq!((st.start, st.count, st.manual), (2, 1, false));
    st = lyrics_selection_step(st, LyricsSelectionEvent::ClickLine { index: 5, active: Some(2) }, 10);
    assert_eq!((st.start, st.count, st.manual), (2, 4, true));
    st = lyrics_selection_step(st, LyricsSelectionEvent::Follow { active: Some(7), sync_lyrics: true, live: false }, 10);
    assert_eq!(st.start, 2);
    st = lyrics_selection_step(st, LyricsSelectionEvent::ClickLine { index: 9, active: Some(2) }, 10);
    assert_eq!((st.start, st.count), (9, 1));
    st = lyrics_selection_step(st, LyricsSelectionEvent::ClickLine { index: 9, active: Some(7) }, 10);
    assert_eq!((st.start, st.count, st.manual), (7, 1, false));
    st = lyrics_selection_step(st, LyricsSelectionEvent::Follow { active: Some(8), sync_lyrics: true, live: false }, 10);
    assert_eq!(st.start, 8);
    st = lyrics_selection_step(st, LyricsSelectionEvent::Open { active: Some(40) }, 10);
    assert_eq!(st.start, 9);
}

#[test]
fn lyric_card_backdrop_and_font_scale() {
    let mut st = lyrics_selection_step(initial_lyrics_selection(), LyricsSelectionEvent::Open { active: None }, 3);
    st = lyrics_selection_step(st, LyricsSelectionEvent::EnterShotMode, 3);
    assert!(st.shot_mode);
    st.theme_picker_open = true;
    st = lyrics_selection_step(st, LyricsSelectionEvent::Backdrop, 3);
    assert!(!st.theme_picker_open && st.shot_mode);
    st = lyrics_selection_step(st, LyricsSelectionEvent::Backdrop, 3);
    assert!(!st.shot_mode && st.view_open);
    st = lyrics_selection_step(st, LyricsSelectionEvent::SetFontScale { percent: 200 }, 3);
    assert_eq!(st.font_scale, 130);
    st = lyrics_selection_step(st, LyricsSelectionEvent::ResetFontScale, 3);
    assert_eq!(st.font_scale, 100);
    st = lyrics_selection_step(st, LyricsSelectionEvent::Backdrop, 3);
    assert!(!st.view_open);
    st = lyrics_selection_step(st, LyricsSelectionEvent::Close, 3);
    assert!(!st.view_open);
}
