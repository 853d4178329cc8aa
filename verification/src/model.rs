//! What Spotify's answers hold, as far as the client reads it or hands it on.
use vstd::prelude::*;

verus! {

/// One page of a listing, with the address of the next page unless it is the last.
#[derive(Debug, PartialEq, Eq)]
pub struct Page<T> {
    pub items: Vec<T>,
    pub next: Option<String>,
}

/// The contents of a `Page`.
pub struct PageView<V> {
    pub items: Seq<V>,
    pub next: Option<Seq<char>>,
}

impl<T: DeepView> DeepView for Page<T> {
    type V = PageView<T::V>;

    open spec fn deep_view(&self) -> PageView<T::V> {
        PageView { items: self.items.deep_view(), next: self.next.deep_view() }
    }
}

impl<T: Clone> Clone for Page<T> {
    fn clone(&self) -> (copy: Self)
        ensures
            copy.next == self.next,
            copy.items@.len() == self.items@.len(),
            forall|i: int|
                0 <= i < self.items@.len() ==> cloned::<T>(
                    #[trigger] self.items@[i],
                    copy.items@[i],
                ),
    {
        Page { items: self.items.clone(), next: self.next.clone() }
    }
}

/// An artist, as tracks and albums name it.
#[derive(Debug, PartialEq, Eq)]
pub struct Artist {
    pub id: Option<String>,
    pub uri: Option<String>,
    pub name: String,
}

/// The contents of an `Artist`.
pub struct ArtistView {
    pub id: Option<Seq<char>>,
    pub uri: Option<Seq<char>>,
    pub name: Seq<char>,
}

impl DeepView for Artist {
    type V = ArtistView;

    open spec fn deep_view(&self) -> ArtistView {
        ArtistView {
            id: self.id.deep_view(),
            uri: self.uri.deep_view(),
            name: self.name.deep_view(),
        }
    }
}

impl Clone for Artist {
    fn clone(&self) -> (copy: Self)
        ensures
            copy.deep_view() == self.deep_view(),
    {
        Artist {
            id: self.id.clone(),
            uri: self.uri.clone(),
            name: self.name.clone(),
        }
    }
}

/// An artist with all that Spotify tells of it.
#[derive(Debug, PartialEq, Eq)]
pub struct FullArtist {
    pub id: String,
    pub uri: String,
    pub name: String,
}

/// The contents of a `FullArtist`.
pub struct FullArtistView {
    pub id: Seq<char>,
    pub uri: Seq<char>,
    pub name: Seq<char>,
}

impl DeepView for FullArtist {
    type V = FullArtistView;

    open spec fn deep_view(&self) -> FullArtistView {
        FullArtistView {
            id: self.id.deep_view(),
            uri: self.uri.deep_view(),
            name: self.name.deep_view(),
        }
    }
}

impl Clone for FullArtist {
    fn clone(&self) -> (copy: Self)
        ensures
            copy.deep_view() == self.deep_view(),
    {
        FullArtist {
            id: self.id.clone(),
            uri: self.uri.clone(),
            name: self.name.clone(),
        }
    }
}

/// An album, as the user interface shows it.
#[derive(Debug, PartialEq, Eq)]
pub struct Album {
    pub id: Option<String>,
    pub uri: Option<String>,
    pub name: String,
    pub artists: Vec<Artist>,
}

/// The contents of an `Album`.
pub struct AlbumView {
    pub id: Option<Seq<char>>,
    pub uri: Option<Seq<char>>,
    pub name: Seq<char>,
    pub artists: Seq<ArtistView>,
}

impl DeepView for Album {
    type V = AlbumView;

    open spec fn deep_view(&self) -> AlbumView {
        AlbumView {
            id: self.id.deep_view(),
            uri: self.uri.deep_view(),
            name: self.name.deep_view(),
            artists: self.artists.deep_view(),
        }
    }
}

impl Clone for Album {
    fn clone(&self) -> (copy: Self)
        ensures
            copy.deep_view() == self.deep_view(),
    {
        Album {
            id: self.id.clone(),
            uri: self.uri.clone(),
            name: self.name.clone(),
            artists: self.artists.clone(),
        }
    }
}

/// An album, as a listing of albums names it.
#[derive(Debug, PartialEq, Eq)]
pub struct SimplifiedAlbum {
    pub id: Option<String>,
    pub uri: Option<String>,
    pub name: String,
    pub artists: Vec<Artist>,
    pub release_date: Option<String>,
}

/// The contents of a `SimplifiedAlbum`.
pub struct SimplifiedAlbumView {
    pub id: Option<Seq<char>>,
    pub uri: Option<Seq<char>>,
    pub name: Seq<char>,
    pub artists: Seq<ArtistView>,
    pub release_date: Option<Seq<char>>,
}

impl DeepView for SimplifiedAlbum {
    type V = SimplifiedAlbumView;

    open spec fn deep_view(&self) -> SimplifiedAlbumView {
        SimplifiedAlbumView {
            id: self.id.deep_view(),
            uri: self.uri.deep_view(),
            name: self.name.deep_view(),
            artists: self.artists.deep_view(),
            release_date: self.release_date.deep_view(),
        }
    }
}

impl Clone for SimplifiedAlbum {
    fn clone(&self) -> (copy: Self)
        ensures
            copy.deep_view() == self.deep_view(),
    {
        SimplifiedAlbum {
            id: self.id.clone(),
            uri: self.uri.clone(),
            name: self.name.clone(),
            artists: self.artists.clone(),
            release_date: self.release_date.clone(),
        }
    }
}

/// A track, as the user interface shows it.
#[derive(Debug, PartialEq, Eq)]
pub struct Track {
    pub id: Option<String>,
    pub uri: String,
    pub name: String,
    pub artists: Vec<Artist>,
    pub album: Album,
    pub duration_ms: u32,
}

/// The contents of a `Track`.
pub struct TrackView {
    pub id: Option<Seq<char>>,
    pub uri: Seq<char>,
    pub name: Seq<char>,
    pub artists: Seq<ArtistView>,
    pub album: AlbumView,
    pub duration_ms: u32,
}

impl DeepView for Track {
    type V = TrackView;

    open spec fn deep_view(&self) -> TrackView {
        TrackView {
            id: self.id.deep_view(),
            uri: self.uri.deep_view(),
            name: self.name.deep_view(),
            artists: self.artists.deep_view(),
            album: self.album.deep_view(),
            duration_ms: self.duration_ms,
        }
    }
}

impl Clone for Track {
    fn clone(&self) -> (copy: Self)
        ensures
            copy.deep_view() == self.deep_view(),
    {
        Track {
            id: self.id.clone(),
            uri: self.uri.clone(),
            name: self.name.clone(),
            artists: self.artists.clone(),
            album: self.album.clone(),
            duration_ms: self.duration_ms,
        }
    }
}

/// A track with the album that it is on.
#[derive(Debug, PartialEq, Eq)]
pub struct FullTrack {
    pub id: Option<String>,
    pub uri: String,
    pub name: String,
    pub artists: Vec<Artist>,
    pub album: SimplifiedAlbum,
    pub duration_ms: u32,
}

/// The contents of a `FullTrack`.
pub struct FullTrackView {
    pub id: Option<Seq<char>>,
    pub uri: Seq<char>,
    pub name: Seq<char>,
    pub artists: Seq<ArtistView>,
    pub album: SimplifiedAlbumView,
    pub duration_ms: u32,
}

impl DeepView for FullTrack {
    type V = FullTrackView;

    open spec fn deep_view(&self) -> FullTrackView {
        FullTrackView {
            id: self.id.deep_view(),
            uri: self.uri.deep_view(),
            name: self.name.deep_view(),
            artists: self.artists.deep_view(),
            album: self.album.deep_view(),
            duration_ms: self.duration_ms,
        }
    }
}

impl Clone for FullTrack {
    fn clone(&self) -> (copy: Self)
        ensures
            copy.deep_view() == self.deep_view(),
    {
        FullTrack {
            id: self.id.clone(),
            uri: self.uri.clone(),
            name: self.name.clone(),
            artists: self.artists.clone(),
            album: self.album.clone(),
            duration_ms: self.duration_ms,
        }
    }
}

/// A track, as its album lists it.
#[derive(Debug, PartialEq, Eq)]
pub struct SimplifiedTrack {
    pub id: Option<String>,
    pub uri: String,
    pub name: String,
    pub artists: Vec<Artist>,
    pub duration_ms: u32,
}

/// The contents of a `SimplifiedTrack`.
pub struct SimplifiedTrackView {
    pub id: Option<Seq<char>>,
    pub uri: Seq<char>,
    pub name: Seq<char>,
    pub artists: Seq<ArtistView>,
    pub duration_ms: u32,
}

impl DeepView for SimplifiedTrack {
    type V = SimplifiedTrackView;

    open spec fn deep_view(&self) -> SimplifiedTrackView {
        SimplifiedTrackView {
            id: self.id.deep_view(),
            uri: self.uri.deep_view(),
            name: self.name.deep_view(),
            artists: self.artists.deep_view(),
            duration_ms: self.duration_ms,
        }
    }
}

impl Clone for SimplifiedTrack {
    fn clone(&self) -> (copy: Self)
        ensures
            copy.deep_view() == self.deep_view(),
    {
        SimplifiedTrack {
            id: self.id.clone(),
            uri: self.uri.clone(),
            name: self.name.clone(),
            artists: self.artists.clone(),
            duration_ms: self.duration_ms,
        }
    }
}

/// An entry of a playlist: a track, or nothing where the track is inaccessible or deleted.
#[derive(Debug, PartialEq, Eq)]
pub struct PlaylistTrack {
    pub track: Option<FullTrack>,
}

/// The contents of a `PlaylistTrack`.
pub struct PlaylistTrackView {
    pub track: Option<FullTrackView>,
}

impl DeepView for PlaylistTrack {
    type V = PlaylistTrackView;

    open spec fn deep_view(&self) -> PlaylistTrackView {
        PlaylistTrackView {
            track: self.track.deep_view(),
        }
    }
}

impl Clone for PlaylistTrack {
    fn clone(&self) -> (copy: Self)
        ensures
            copy.deep_view() == self.deep_view(),
    {
        PlaylistTrack {
            track: self.track.clone(),
        }
    }
}

/// An album with the first page of its tracks.
#[derive(Debug, PartialEq, Eq)]
pub struct FullAlbum {
    pub id: String,
    pub uri: String,
    pub name: String,
    pub artists: Vec<Artist>,
    pub release_date: String,
    pub tracks: Page<SimplifiedTrack>,
}

/// The contents of a `FullAlbum`.
pub struct FullAlbumView {
    pub id: Seq<char>,
    pub uri: Seq<char>,
    pub name: Seq<char>,
    pub artists: Seq<ArtistView>,
    pub release_date: Seq<char>,
    pub tracks: PageView<SimplifiedTrackView>,
}

impl DeepView for FullAlbum {
    type V = FullAlbumView;

    open spec fn deep_view(&self) -> FullAlbumView {
        FullAlbumView {
            id: self.id.deep_view(),
            uri: self.uri.deep_view(),
            name: self.name.deep_view(),
            artists: self.artists.deep_view(),
            release_date: self.release_date.deep_view(),
            tracks: self.tracks.deep_view(),
        }
    }
}

impl Clone for FullAlbum {
    fn clone(&self) -> (copy: Self)
        ensures
            copy.deep_view() == self.deep_view(),
    {
        let tracks = self.tracks.clone();
        assert(tracks.items.deep_view() =~= self.tracks.items.deep_view());
        FullAlbum {
            id: self.id.clone(),
            uri: self.uri.clone(),
            name: self.name.clone(),
            artists: self.artists.clone(),
            release_date: self.release_date.clone(),
            tracks,
        }
    }
}

/// A playlist with the first page of its entries.
#[derive(Debug, PartialEq, Eq)]
pub struct FullPlaylist {
    pub id: String,
    pub uri: String,
    pub name: String,
    pub description: Option<String>,
    pub tracks: Page<PlaylistTrack>,
}

/// The contents of a `FullPlaylist`.
pub struct FullPlaylistView {
    pub id: Seq<char>,
    pub uri: Seq<char>,
    pub name: Seq<char>,
    pub description: Option<Seq<char>>,
    pub tracks: PageView<PlaylistTrackView>,
}

impl DeepView for FullPlaylist {
    type V = FullPlaylistView;

    open spec fn deep_view(&self) -> FullPlaylistView {
        FullPlaylistView {
            id: self.id.deep_view(),
            uri: self.uri.deep_view(),
            name: self.name.deep_view(),
            description: self.description.deep_view(),
            tracks: self.tracks.deep_view(),
        }
    }
}

impl Clone for FullPlaylist {
    fn clone(&self) -> (copy: Self)
        ensures
            copy.deep_view() == self.deep_view(),
    {
        let tracks = self.tracks.clone();
        assert(tracks.items.deep_view() =~= self.tracks.items.deep_view());
        FullPlaylist {
            id: self.id.clone(),
            uri: self.uri.clone(),
            name: self.name.clone(),
            description: self.description.clone(),
            tracks,
        }
    }
}

/// An album in the user's library.
#[derive(Debug, PartialEq, Eq)]
pub struct SavedAlbum {
    pub album: FullAlbum,
}

/// The contents of a `SavedAlbum`.
pub struct SavedAlbumView {
    pub album: FullAlbumView,
}

impl DeepView for SavedAlbum {
    type V = SavedAlbumView;

    open spec fn deep_view(&self) -> SavedAlbumView {
        SavedAlbumView { album: self.album.deep_view() }
    }
}

/// A playlist, as a listing of playlists names it.
#[derive(Debug, Clone, PartialEq, Eq)]
pub struct SimplifiedPlaylist {
    pub id: String,
    pub uri: String,
    pub name: String,
}

/// A device that can play music.
#[derive(Debug, Clone, PartialEq, Eq)]
pub struct Device {
    pub id: String,
    pub name: String,
    pub is_active: bool,
    pub volume_percent: u32,
}

/// What is repeated when a track ends.
#[derive(Debug, Clone, Copy, PartialEq, Eq, Structural)]
pub enum RepeatState {
    Off,
    Track,
    Context,
}

/// The kind of an object of Spotify.
#[derive(Debug, Clone, Copy, PartialEq, Eq, Structural)]
pub enum Type {
    Artist,
    Album,
    Track,
    Playlist,
    User,
    Show,
    Episode,
    Collection,
}

/// The kind of an item that can be played.
#[derive(Debug, Clone, Copy, PartialEq, Eq, Structural)]
pub enum AdditionalType {
    Track,
    Episode,
}

/// The kind of an album.
#[derive(Debug, Clone, Copy, PartialEq, Eq, Structural)]
pub enum AlbumType {
    Album,
    Single,
    AppearsOn,
    Compilation,
}

/// Where playback starts within a context.
#[derive(Debug, Clone, PartialEq, Eq)]
pub struct Offset {
    pub position: Option<u32>,
    pub uri: Option<String>,
}

/// The playlist, album or artist from which music is played.
#[derive(Debug, Clone, PartialEq, Eq)]
pub struct PlayingContext {
    pub uri: String,
    pub _type: Type,
}

/// The state of the player that the user has running somewhere.
#[derive(Debug, Clone, PartialEq, Eq)]
pub struct CurrentlyPlaybackContext {
    pub device: Device,
    pub repeat_state: RepeatState,
    pub shuffle_state: bool,
    pub context: Option<PlayingContext>,
    pub progress_ms: Option<u32>,
    pub is_playing: bool,
    /// What is played, where it is a track.
    pub item: Option<FullTrack>,
}

impl SimplifiedAlbumView {
    /// The album that the listing names.
    pub open spec fn album(self) -> AlbumView {
        AlbumView { id: self.id, uri: self.uri, name: self.name, artists: self.artists }
    }
}

impl FullAlbumView {
    /// The album itself, without its tracks.
    pub open spec fn album(self) -> AlbumView {
        AlbumView {
            id: Some(self.id),
            uri: Some(self.uri),
            name: self.name,
            artists: self.artists,
        }
    }
}

impl FullArtistView {
    /// The artist, as tracks and albums name it.
    pub open spec fn artist(self) -> ArtistView {
        ArtistView { id: Some(self.id), uri: Some(self.uri), name: self.name }
    }
}

impl FullTrackView {
    /// The track, as the user interface shows it.
    pub open spec fn track(self) -> TrackView {
        TrackView {
            id: self.id,
            uri: self.uri,
            name: self.name,
            artists: self.artists,
            album: self.album.album(),
            duration_ms: self.duration_ms,
        }
    }
}

impl SimplifiedTrackView {
    /// The track, as the user interface shows it, on a given album.
    pub open spec fn track(self, album: AlbumView) -> TrackView {
        TrackView {
            id: self.id,
            uri: self.uri,
            name: self.name,
            artists: self.artists,
            album,
            duration_ms: self.duration_ms,
        }
    }
}

impl SimplifiedAlbum {
    /// The album that the listing names.
    pub fn into_album(self) -> (album: Album)
        ensures
            album.deep_view() == self.deep_view().album(),
    {
        Album { id: self.id, uri: self.uri, name: self.name, artists: self.artists }
    }
}

impl FullAlbum {
    /// The album itself, without its tracks.
    pub fn to_album(&self) -> (album: Album)
        ensures
            album.deep_view() == self.deep_view().album(),
    {
        Album {
            id: Some(self.id.clone()),
            uri: Some(self.uri.clone()),
            name: self.name.clone(),
            artists: self.artists.clone(),
        }
    }
}

impl FullArtist {
    /// The artist, as tracks and albums name it.
    pub fn into_artist(self) -> (artist: Artist)
        ensures
            artist.deep_view() == self.deep_view().artist(),
    {
        Artist { id: Some(self.id), uri: Some(self.uri), name: self.name }
    }
}

impl FullTrack {
    /// The track, as the user interface shows it.
    pub fn into_track(self) -> (track: Track)
        ensures
            track.deep_view() == self.deep_view().track(),
    {
        Track {
            id: self.id,
            uri: self.uri,
            name: self.name,
            artists: self.artists,
            album: self.album.into_album(),
            duration_ms: self.duration_ms,
        }
    }
}

impl SimplifiedTrack {
    /// The track, as the user interface shows it, on a given album.
    pub fn into_track(self, album: Album) -> (track: Track)
        ensures
            track.deep_view() == self.deep_view().track(album.deep_view()),
    {
        Track {
            id: self.id,
            uri: self.uri,
            name: self.name,
            artists: self.artists,
            album,
            duration_ms: self.duration_ms,
        }
    }
}

/// The view of a `Artist` holds each of its parts.
pub proof fn view_of_artist_is_faithful(artist: Artist)
    ensures
        artist.deep_view().id == artist.id.deep_view(),
        artist.deep_view().uri == artist.uri.deep_view(),
        artist.deep_view().name == artist.name@,
{
}

/// The view of a `FullArtist` holds each of its parts.
pub proof fn view_of_full_artist_is_faithful(artist: FullArtist)
    ensures
        artist.deep_view().id == artist.id@,
        artist.deep_view().uri == artist.uri@,
        artist.deep_view().name == artist.name@,
{
}

/// The view of a `Album` holds each of its parts.
pub proof fn view_of_album_is_faithful(album: Album)
    ensures
        album.deep_view().id == album.id.deep_view(),
        album.deep_view().uri == album.uri.deep_view(),
        album.deep_view().name == album.name@,
        album.deep_view().artists == album.artists.deep_view(),
{
}

/// The view of a `SimplifiedAlbum` holds each of its parts.
pub proof fn view_of_simplified_album_is_faithful(album: SimplifiedAlbum)
    ensures
        album.deep_view().id == album.id.deep_view(),
        album.deep_view().uri == album.uri.deep_view(),
        album.deep_view().name == album.name@,
        album.deep_view().artists == album.artists.deep_view(),
        album.deep_view().release_date == album.release_date.deep_view(),
{
}

/// The view of a `Track` holds each of its parts.
pub proof fn view_of_track_is_faithful(track: Track)
    ensures
        track.deep_view().id == track.id.deep_view(),
        track.deep_view().uri == track.uri@,
        track.deep_view().name == track.name@,
        track.deep_view().artists == track.artists.deep_view(),
        track.deep_view().album == track.album.deep_view(),
        track.deep_view().duration_ms == track.duration_ms,
{
}

/// The view of a `FullTrack` holds each of its parts.
pub proof fn view_of_full_track_is_faithful(track: FullTrack)
    ensures
        track.deep_view().id == track.id.deep_view(),
        track.deep_view().uri == track.uri@,
        track.deep_view().name == track.name@,
        track.deep_view().artists == track.artists.deep_view(),
        track.deep_view().album == track.album.deep_view(),
        track.deep_view().duration_ms == track.duration_ms,
{
}

/// The view of a `SimplifiedTrack` holds each of its parts.
pub proof fn view_of_simplified_track_is_faithful(track: SimplifiedTrack)
    ensures
        track.deep_view().id == track.id.deep_view(),
        track.deep_view().uri == track.uri@,
        track.deep_view().name == track.name@,
        track.deep_view().artists == track.artists.deep_view(),
        track.deep_view().duration_ms == track.duration_ms,
{
}

/// The view of a `PlaylistTrack` holds each of its parts.
pub proof fn view_of_playlist_track_is_faithful(entry: PlaylistTrack)
    ensures
        entry.deep_view().track == entry.track.deep_view(),
{
}

/// The view of a `FullAlbum` holds each of its parts.
pub proof fn view_of_full_album_is_faithful(album: FullAlbum)
    ensures
        album.deep_view().id == album.id@,
        album.deep_view().uri == album.uri@,
        album.deep_view().name == album.name@,
        album.deep_view().artists == album.artists.deep_view(),
        album.deep_view().release_date == album.release_date@,
        album.deep_view().tracks == album.tracks.deep_view(),
{
}

/// The view of a `FullPlaylist` holds each of its parts.
pub proof fn view_of_full_playlist_is_faithful(playlist: FullPlaylist)
    ensures
        playlist.deep_view().id == playlist.id@,
        playlist.deep_view().uri == playlist.uri@,
        playlist.deep_view().name == playlist.name@,
        playlist.deep_view().description == playlist.description.deep_view(),
        playlist.deep_view().tracks == playlist.tracks.deep_view(),
{
}

/// The view of a `SavedAlbum` holds each of its parts.
pub proof fn view_of_saved_album_is_faithful(saved: SavedAlbum)
    ensures
        saved.deep_view().album == saved.album.deep_view(),
{
}

/// The view of a `Page` holds its items and the address of the next page.
pub proof fn view_of_page_is_faithful<T: DeepView>(page: Page<T>)
    ensures
        page.deep_view().items == page.items.deep_view(),
        page.deep_view().next == page.next.deep_view(),
{
}

/// An album that a listing names is shown with its own id, address, name and artists.
pub proof fn listed_album_keeps_its_parts(album: SimplifiedAlbumView)
    ensures
        album.album().id == album.id,
        album.album().uri == album.uri,
        album.album().name == album.name,
        album.album().artists == album.artists,
{
}

/// An album is shown with its own id, address, name and artists.
pub proof fn full_album_keeps_its_parts(album: FullAlbumView)
    ensures
        album.album().id == Some(album.id),
        album.album().uri == Some(album.uri),
        album.album().name == album.name,
        album.album().artists == album.artists,
{
}

/// An artist is shown with their own id, address and name.
pub proof fn full_artist_keeps_its_parts(artist: FullArtistView)
    ensures
        artist.artist().id == Some(artist.id),
        artist.artist().uri == Some(artist.uri),
        artist.artist().name == artist.name,
{
}

/// A track is shown with its own id, address, name, artists and length, and with the album that it
/// is on.
pub proof fn full_track_keeps_its_parts(track: FullTrackView)
    ensures
        track.track().id == track.id,
        track.track().uri == track.uri,
        track.track().name == track.name,
        track.track().artists == track.artists,
        track.track().duration_ms == track.duration_ms,
        track.track().album.id == track.album.id,
        track.track().album.uri == track.album.uri,
        track.track().album.name == track.album.name,
        track.track().album.artists == track.album.artists,
{
}

/// A track of an album is shown with its own id, address, name, artists and length, and with the
/// album that is given.
pub proof fn listed_track_keeps_its_parts(track: SimplifiedTrackView, album: AlbumView)
    ensures
        track.track(album).id == track.id,
        track.track(album).uri == track.uri,
        track.track(album).name == track.name,
        track.track(album).artists == track.artists,
        track.track(album).duration_ms == track.duration_ms,
        track.track(album).album == album,
{
}

} // verus!
