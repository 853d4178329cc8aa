//! What the client asks of Spotify, and the steps in which it handles an event.
use crate::model::{
    AdditionalType, AlbumType, FullAlbum, FullArtist, Offset, PlaylistTrack, RepeatState,
    SavedAlbum, SimplifiedAlbum, SimplifiedPlaylist, SimplifiedTrack, Track,
};
use vstd::prelude::*;

verus! {

/// A request that changes what is played. Spotify answers it with nothing but success.
#[derive(Debug, PartialEq, Eq)]
pub enum PlayerCommand {
    StartPlayback {
        device_id: Option<String>,
        context_uri: Option<String>,
        uris: Option<Vec<String>>,
        offset: Option<Offset>,
        position_ms: Option<u32>,
    },
    TransferPlayback { device_id: String, force_play: bool },
    Repeat { state: RepeatState, device_id: Option<String> },
    SeekTrack { position_ms: u32, device_id: Option<String> },
    PausePlayback { device_id: Option<String> },
    NextTrack { device_id: Option<String> },
    PreviousTrack { device_id: Option<String> },
    Shuffle { state: bool, device_id: Option<String> },
    Volume { volume_percent: u8, device_id: Option<String> },
}

/// Asks for the state of the player.
#[derive(Debug, PartialEq, Eq)]
pub struct CurrentPlaybackQuery {
    /// The code of a country, or `from_token` for the country of the user.
    pub market: Option<String>,
    /// The kinds of items that are understood besides tracks.
    pub additional_types: Option<Vec<AdditionalType>>,
}

/// Asks for the devices that can play music.
#[derive(Debug, PartialEq, Eq)]
pub struct DevicesQuery;

/// Asks for the first page of the user's playlists.
#[derive(Debug, PartialEq, Eq)]
pub struct UserPlaylistsQuery {
    pub limit: u32,
    pub offset: Option<u32>,
}

/// Asks for the first page of the artists that the user follows.
#[derive(Debug, PartialEq, Eq)]
pub struct FollowedArtistsQuery {
    pub limit: u32,
    pub after: Option<String>,
}

/// Asks for the first page of the albums in the user's library.
#[derive(Debug, PartialEq, Eq)]
pub struct SavedAlbumsQuery {
    pub limit: u32,
    pub offset: Option<u32>,
}

/// Asks for a playlist.
#[derive(Debug, PartialEq, Eq)]
pub struct PlaylistQuery {
    pub playlist_uri: String,
    /// The fields that the answer is limited to.
    pub fields: Option<String>,
    /// The code of a country, or `from_token` for the country of the user.
    pub market: Option<String>,
}

/// Asks for an album.
#[derive(Debug, PartialEq, Eq)]
pub struct AlbumQuery {
    pub album_uri: String,
}

/// Asks for an artist.
#[derive(Debug, PartialEq, Eq)]
pub struct ArtistQuery {
    pub artist_uri: String,
}

/// Asks for the top tracks of an artist.
#[derive(Debug, PartialEq, Eq)]
pub struct TopTracksQuery {
    pub artist_uri: String,
    /// The code of a country, or `from_token` for the country of the user.
    pub country: Option<String>,
}

/// Asks for the artists that are related to an artist.
#[derive(Debug, PartialEq, Eq)]
pub struct RelatedArtistsQuery {
    pub artist_uri: String,
}

/// Asks for the first page of the albums of an artist that are of a given kind.
#[derive(Debug, PartialEq, Eq)]
pub struct ArtistAlbumsQuery {
    pub artist_uri: String,
    pub album_type: Option<AlbumType>,
    /// The code of a country, or `from_token` for the country of the user.
    pub country: Option<String>,
    pub limit: Option<u32>,
    pub offset: Option<u32>,
}

/// A plain request for the page at an address, with the value of its authorization header.
#[derive(Debug, PartialEq, Eq)]
pub struct HttpRequest {
    pub url: String,
    pub authorization: String,
}

/// Where a page comes from: the first one from a query, every other one from its address.
#[derive(Debug, PartialEq, Eq)]
pub enum PageSource<Q> {
    First(Q),
    Next(HttpRequest),
}

/// How far the collection of a listing has come.
#[derive(Debug, PartialEq, Eq)]
pub enum Paging<T> {
    /// The items of all pages.
    Complete(Vec<T>),
    /// The items of the pages so far, and the request for the next page.
    More(Vec<T>, HttpRequest),
}

/// An unfinished collection of an artist's albums: the singles are collected before the albums.
#[derive(Debug, PartialEq, Eq)]
pub enum ArtistAlbums {
    Singles { singles: Vec<SimplifiedAlbum>, source: PageSource<ArtistAlbumsQuery> },
    Albums {
        singles: Vec<SimplifiedAlbum>,
        albums: Vec<SimplifiedAlbum>,
        source: PageSource<ArtistAlbumsQuery>,
    },
}

/// How far the collection of an artist's albums has come.
#[derive(Debug, PartialEq, Eq)]
pub enum ArtistAlbumsPaging {
    Complete(Vec<SimplifiedAlbum>),
    More(ArtistAlbums),
}

/// Why an event could not be handled.
#[derive(Debug, PartialEq, Eq)]
pub enum ClientError {
    /// It is not known what is played, and where.
    NoPlayback,
    /// A request was not answered as it should be, with the reason.
    Request(String),
}

/// What is to be done next to handle an event. A request comes with what its answer is for.
#[derive(Debug, PartialEq, Eq)]
pub enum Step {
    /// The event is handled. Where it has changed what is played, the state of the player is to be
    /// fetched anew.
    Done { update_playback: bool },
    /// The event could not be handled.
    Failed(ClientError),
    GetToken,
    Command(PlayerCommand),
    GetCurrentPlayback(CurrentPlaybackQuery),
    GetDevices(DevicesQuery),
    GetUserPlaylists(Vec<SimplifiedPlaylist>, PageSource<UserPlaylistsQuery>),
    GetUserFollowedArtists(Vec<FullArtist>, PageSource<FollowedArtistsQuery>),
    GetUserSavedAlbums(Vec<SavedAlbum>, PageSource<SavedAlbumsQuery>),
    GetPlaylist(String, PlaylistQuery),
    GetPlaylistTracks(String, Vec<PlaylistTrack>, HttpRequest),
    GetAlbum(String, AlbumQuery),
    GetAlbumTracks(String, FullAlbum, Vec<SimplifiedTrack>, HttpRequest),
    GetArtist(String, ArtistQuery),
    GetArtistTopTracks(String, FullArtist, TopTracksQuery),
    GetRelatedArtists(String, FullArtist, Vec<Track>, RelatedArtistsQuery),
    GetArtistAlbums(String, ArtistAlbums),
}

impl ClientError {
    /// The text of the error.
    pub open spec fn text(self) -> Seq<char> {
        match self {
            ClientError::NoPlayback => "failed to get the current playback context"@,
            ClientError::Request(reason) => reason@,
        }
    }

    /// The text of the error.
    pub fn message(&self) -> (message: String)
        ensures
            message@ == self.text(),
    {
        match self {
            ClientError::NoPlayback => "failed to get the current playback context".to_string(),
            ClientError::Request(reason) => reason.clone(),
        }
    }
}

/// The text of a failed request is its reason, and only where the playback is not known does the
/// error have a text of its own.
pub proof fn error_tells_its_reason(reason: String)
    ensures
        ClientError::Request(reason).text() == reason@,
        ClientError::NoPlayback.text() == "failed to get the current playback context"@,
{
}

} // verus!
