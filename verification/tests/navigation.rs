use rustysound::details::{SongDetailsController, SongDetailsState, SongDetailsTab};
use rustysound::model::Song;
use rustysound::navigation::{should_refresh_detail_route, AppView, Navigation, RouteChange};

fn album(id: &str, server: &str) -> AppView {
    AppView::AlbumDetailView { album_id: id.to_string(), server_id: server.to_string() }
}

#[test]
fn only_another_item_of_the_same_detail_kind_needs_a_refresh() {
    assert!(should_refresh_detail_route(&album("1", "s"), &album("2", "s")));
    assert!(should_refresh_detail_route(&album("1", "s"), &album("1", "t")));
    assert!(!should_refresh_detail_route(&album("1", "s"), &album("1", "s")));
    assert!(!should_refresh_detail_route(&AppView::HomeView {}, &album("1", "s")));
    let artist = AppView::ArtistDetailView { artist_id: "1".to_string(), server_id: "s".to_string() };
    assert!(!should_refresh_detail_route(&album("1", "s"), &artist));
}

#[test]
fn refreshed_route_passes_through_home() {
    let mut nav = Navigation::new(album("1", "s"), None);
    match nav.navigate_to(album("2", "s")) {
        RouteChange::Replace(AppView::HomeView {}) => {},
        other => panic!("unexpected {:?}", other),
    }
    let target = nav.resume_pending_navigation();
    assert!(matches!(target, Some(AppView::AlbumDetailView { ref album_id, .. }) if album_id == "2"));
    assert!(nav.pending_target.is_none());
    assert!(nav.resume_pending_navigation().is_none());
    nav.arrived(album("2", "s"));
    assert!(matches!(nav.current_view, AppView::AlbumDetailView { .. }));
}

#[test]
fn plain_navigation_pushes() {
    let mut nav = Navigation::new(AppView::HomeView {}, None);
    assert!(matches!(nav.navigate_to(album("1", "s")), RouteChange::Push(_)));
    assert!(nav.resume_pending_navigation().is_none());
}

fn song(id: &str) -> Song {
    Song {
        id: id.to_string(),
        server_id: "s".to_string(),
        server_name: "Home".to_string(),
        title: id.to_string(),
        artist: None,
        artist_id: None,
        album: None,
        album_id: None,
        cover_art: None,
        stream_url: None,
        starred: None,
        user_rating: None,
        year: None,
        duration: 0,
        queue_meta: None,
    }
}

#[test]
fn details_overlay_keeps_its_tab() {
    assert_eq!(SongDetailsTab::Details.label(), "Details");
    assert_eq!(SongDetailsTab::Queue.label(), "Up Next");
    assert_eq!(SongDetailsTab::Related.label(), "Related");
    assert_eq!(SongDetailsTab::Lyrics.label(), "Lyrics");
    let initial = SongDetailsState::default();
    assert!(!initial.is_open);
    let mut c = SongDetailsController::new(initial);
    c.set_tab(SongDetailsTab::Lyrics);
    c.open(song("a"));
    let s = c.current();
    assert!(s.is_open);
    assert_eq!(s.active_tab, SongDetailsTab::Lyrics);
    assert_eq!(s.song.unwrap().id, "a");
    c.close();
    let s = c.current();
    assert!(!s.is_open);
    assert_eq!(s.song.unwrap().id, "a");
}
