//! What the client knows of the player, and keeps for the user interface.
use crate::cache::ContextCache;
use crate::model::{
    Album, AlbumView, Artist, ArtistView, CurrentlyPlaybackContext, Device, FullAlbum,
    FullAlbumView, FullArtist, FullArtistView, FullPlaylist, FullPlaylistView, SimplifiedPlaylist,
    Track, TrackView,
};
use vstd::prelude::*;

verus! {

/// A context from which tracks are played, with all that is shown of it.
#[derive(Debug, PartialEq, Eq)]
pub enum Context {
    /// A playlist and its tracks.
    Playlist(FullPlaylist, Vec<Track>),
    /// An album and its tracks.
    Album(FullAlbum, Vec<Track>),
    /// An artist with their top tracks, albums and related artists.
    Artist(FullArtist, Vec<Track>, Vec<Album>, Vec<Artist>),
    /// A context of another kind.
    Unknown(String),
}

/// The contents of a `Context`.
pub enum ContextView {
    Playlist(FullPlaylistView, Seq<TrackView>),
    Album(FullAlbumView, Seq<TrackView>),
    Artist(FullArtistView, Seq<TrackView>, Seq<AlbumView>, Seq<ArtistView>),
    Unknown(Seq<char>),
}

impl DeepView for Context {
    type V = ContextView;

    open spec fn deep_view(&self) -> ContextView {
        match self {
            Context::Playlist(playlist, tracks) => ContextView::Playlist(
                playlist.deep_view(),
                tracks.deep_view(),
            ),
            Context::Album(album, tracks) => ContextView::Album(
                album.deep_view(),
                tracks.deep_view(),
            ),
            Context::Artist(artist, top_tracks, albums, related_artists) => ContextView::Artist(
                artist.deep_view(),
                top_tracks.deep_view(),
                albums.deep_view(),
                related_artists.deep_view(),
            ),
            Context::Unknown(uri) => ContextView::Unknown(uri@),
        }
    }
}

/// A token that authorises requests, with the time at which it expires.
#[derive(Debug, Clone, PartialEq, Eq)]
pub struct Token {
    pub access_token: String,
    /// In nanoseconds on the clock that `now` is read from.
    pub expires_at: u64,
}

/// What the user interface shows.
#[derive(Debug, Clone, PartialEq, Eq)]
pub enum PageState {
    /// The context that is being played.
    CurrentPlaying,
    /// A context that the user has opened.
    Browsing(String),
}

/// What is known of the player and of the user's library.
pub struct PlayerState {
    pub token: Token,
    pub playback: Option<CurrentlyPlaybackContext>,
    /// When `playback` was fetched.
    pub playback_last_updated: Option<u64>,
    pub devices: Vec<Device>,
    pub user_playlists: Vec<SimplifiedPlaylist>,
    pub user_followed_artists: Vec<Artist>,
    pub user_saved_albums: Vec<Album>,
    /// The context that the user interface shows.
    pub context_uri: String,
    /// The contexts that were fetched of late, by their addresses.
    pub context_cache: ContextCache,
}

/// The view of a context holds each of its parts.
pub proof fn view_of_context_is_faithful(context: Context)
    ensures
        match context {
            Context::Playlist(playlist, tracks) => {
                &&& context.deep_view() matches ContextView::Playlist(view, track_views)
                &&& view == playlist.deep_view()
                &&& track_views == tracks.deep_view()
            },
            Context::Album(album, tracks) => {
                &&& context.deep_view() matches ContextView::Album(view, track_views)
                &&& view == album.deep_view()
                &&& track_views == tracks.deep_view()
            },
            Context::Artist(artist, tracks, albums, artists) => {
                &&& context.deep_view() matches ContextView::Artist(
                    view,
                    track_views,
                    album_views,
                    artist_views,
                )
                &&& view == artist.deep_view()
                &&& track_views == tracks.deep_view()
                &&& album_views == albums.deep_view()
                &&& artist_views == artists.deep_view()
            },
            Context::Unknown(uri) => {
                &&& context.deep_view() matches ContextView::Unknown(view)
                &&& view == uri@
            },
        },
{
}

} // verus!
