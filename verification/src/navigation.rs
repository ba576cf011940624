//! Moving between the app's views, including re-entering a detail view
//! with other ids.
use vstd::prelude::*;

verus! {

/// The app's views. Detail views carry the ids of what they show.
#[derive(Debug)]
pub enum AppView {
    HomeView {},
    SearchView {},
    Albums {},
    ArtistsView {},
    PlaylistsView {},
    SongsView {},
    RandomView {},
    RadioView {},
    FavoritesView {},
    BookmarksView {},
    QueueView {},
    SettingsView {},
    AlbumDetailView { album_id: String, server_id: String },
    ArtistDetailView { artist_id: String, server_id: String },
    PlaylistDetailView { playlist_id: String, server_id: String },
}

impl Clone for AppView {
    fn clone(&self) -> (r: Self)
        ensures
            r == *self,
    {
        match self {
            AppView::HomeView {} => AppView::HomeView {},
            AppView::SearchView {} => AppView::SearchView {},
            AppView::Albums {} => AppView::Albums {},
            AppView::ArtistsView {} => AppView::ArtistsView {},
            AppView::PlaylistsView {} => AppView::PlaylistsView {},
            AppView::SongsView {} => AppView::SongsView {},
            AppView::RandomView {} => AppView::RandomView {},
            AppView::RadioView {} => AppView::RadioView {},
            AppView::FavoritesView {} => AppView::FavoritesView {},
            AppView::BookmarksView {} => AppView::BookmarksView {},
            AppView::QueueView {} => AppView::QueueView {},
            AppView::SettingsView {} => AppView::SettingsView {},
            AppView::AlbumDetailView { album_id, server_id } => AppView::AlbumDetailView {
                album_id: album_id.clone(),
                server_id: server_id.clone(),
            },
            AppView::ArtistDetailView { artist_id, server_id } => AppView::ArtistDetailView {
                artist_id: artist_id.clone(),
                server_id: server_id.clone(),
            },
            AppView::PlaylistDetailView { playlist_id, server_id } => AppView::PlaylistDetailView {
                playlist_id: playlist_id.clone(),
                server_id: server_id.clone(),
            },
        }
    }
}

/// Going from `current` to `target` needs the route to be rebuilt: both are
/// detail views of the same kind but for another item or server (the
/// router would otherwise keep the old page).
pub open spec fn should_refresh_spec(current: AppView, target: AppView) -> bool {
    match (current, target) {
        (AppView::AlbumDetailView { album_id: a, server_id: s }, AppView::AlbumDetailView { album_id: b, server_id: t }) =>
            a@ != b@ || s@ != t@,
        (AppView::ArtistDetailView { artist_id: a, server_id: s }, AppView::ArtistDetailView { artist_id: b, server_id: t }) =>
            a@ != b@ || s@ != t@,
        (AppView::PlaylistDetailView { playlist_id: a, server_id: s }, AppView::PlaylistDetailView { playlist_id: b, server_id: t }) =>
            a@ != b@ || s@ != t@,
        _ => false,
    }
}

pub fn should_refresh_detail_route(current: &AppView, target: &AppView) -> (r: bool)
    ensures
        r == should_refresh_spec(*current, *target),
{
    match (current, target) {
        (AppView::AlbumDetailView { album_id: a, server_id: s }, AppView::AlbumDetailView { album_id: b, server_id: t }) =>
            *a != *b || *s != *t,
        (AppView::ArtistDetailView { artist_id: a, server_id: s }, AppView::ArtistDetailView { artist_id: b, server_id: t }) =>
            *a != *b || *s != *t,
        (AppView::PlaylistDetailView { playlist_id: a, server_id: s }, AppView::PlaylistDetailView { playlist_id: b, server_id: t }) =>
            *a != *b || *s != *t,
        _ => false,
    }
}

/// What the router is asked to do.
#[derive(Debug)]
pub enum RouteChange {
    /// Push the view on the history.
    Push(AppView),
    /// Replace the current history entry with the view.
    Replace(AppView),
}

/// The view shown and the view waiting to be entered once the home view
/// has been passed through.
#[derive(Debug)]
pub struct Navigation {
    pub current_view: AppView,
    pub pending_target: Option<AppView>,
}

/// The navigation state after going to `target`: a detail view re-entered
/// for another item waits while the home view is shown; any other target
/// is shown at once.
pub open spec fn navigated(nav: Navigation, target: AppView) -> Navigation {
    if should_refresh_spec(nav.current_view, target) {
        Navigation { current_view: AppView::HomeView {}, pending_target: Some(target) }
    } else {
        Navigation { current_view: target, pending_target: nav.pending_target }
    }
}

/// The target handed out on the home view, and the state after: the
/// waiting target is taken; elsewhere nothing happens.
pub open spec fn resumed(nav: Navigation) -> (Option<AppView>, Navigation) {
    if nav.current_view is HomeView && nav.pending_target is Some {
        (nav.pending_target, Navigation { current_view: nav.current_view, pending_target: None })
    } else {
        (None, nav)
    }
}

impl Navigation {
    pub fn new(current_view: AppView, pending_target: Option<AppView>) -> (r: Self)
        ensures
            r.current_view == current_view,
            r.pending_target == pending_target,
    {
        Navigation { current_view, pending_target }
    }

    /// Goes to `target`. A detail view re-entered for another item goes
    /// through the home view: the target waits, and home replaces the
    /// current entry. Any other target is pushed.
    pub fn navigate_to(&mut self, target: AppView) -> (r: RouteChange)
        ensures
            *final(self) == navigated(*old(self), target),
            r == (if should_refresh_spec(old(self).current_view, target) {
                RouteChange::Replace(AppView::HomeView {})
            } else {
                RouteChange::Push(target)
            }),
    {
        if should_refresh_detail_route(&self.current_view, &target) {
            self.pending_target = Some(target);
            self.current_view = AppView::HomeView {};
            return RouteChange::Replace(AppView::HomeView {});
        }
        self.current_view = target.clone();
        RouteChange::Push(target)
    }

    /// On the home view with a target waiting: hands the target out (to be
    /// entered by replacing the home entry after a short pause) and clears
    /// it. Otherwise nothing happens.
    pub fn resume_pending_navigation(&mut self) -> (r: Option<AppView>)
        ensures
            (r, *final(self)) == resumed(*old(self)),
    {
        match self.current_view {
            AppView::HomeView {} => {},
            _ => return None,
        }
        let target = self.pending_target.take();
        target
    }

    /// The router has entered `view`.
    pub fn arrived(&mut self, view: AppView)
        ensures
            final(self).current_view == view,
            final(self).pending_target == old(self).pending_target,
    {
        self.current_view = view;
    }
}

} // verus!
