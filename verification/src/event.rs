//! What the client is asked to do.
use crate::model::Offset;
use vstd::prelude::*;

verus! {

/// A request to change what is played.
#[derive(Debug, Clone, PartialEq, Eq)]
pub enum PlayerEvent {
    NextTrack,
    PreviousTrack,
    ResumePause,
    /// Seeks to a position, in milliseconds.
    SeekTrack(u32),
    Repeat,
    Shuffle,
    /// Sets the volume, in percent.
    Volume(u8),
    /// Plays from a context, or from a list of tracks, starting at an offset.
    PlayTrack(Option<String>, Option<Vec<String>>, Option<Offset>),
    PlayContext(String),
}

/// The address of a context, by its kind.
#[derive(Debug, Clone, PartialEq, Eq)]
pub enum ContextURI {
    Playlist(String),
    Album(String),
    Artist(String),
    Unknown(String),
}

/// The contents of a `ContextURI`.
pub enum ContextURIView {
    Playlist(Seq<char>),
    Album(Seq<char>),
    Artist(Seq<char>),
    Unknown(Seq<char>),
}

impl DeepView for ContextURI {
    type V = ContextURIView;

    open spec fn deep_view(&self) -> ContextURIView {
        match self {
            ContextURI::Playlist(uri) => ContextURIView::Playlist(uri@),
            ContextURI::Album(uri) => ContextURIView::Album(uri@),
            ContextURI::Artist(uri) => ContextURIView::Artist(uri@),
            ContextURI::Unknown(uri) => ContextURIView::Unknown(uri@),
        }
    }
}

/// A request to the client.
#[derive(Debug, Clone, PartialEq, Eq)]
pub enum Event {
    RefreshToken,
    GetCurrentPlayback,
    GetDevices,
    GetUserPlaylists,
    GetUserFollowedArtists,
    GetUserSavedAlbums,
    GetContext(ContextURI),
    /// Moves playback to a device, and starts it there if asked to.
    TransferPlayback(String, bool),
    Player(PlayerEvent),
}

/// The view of an address holds its kind and its text.
pub proof fn view_of_context_uri_is_faithful(uri: String)
    ensures
        ContextURI::Playlist(uri).deep_view() == ContextURIView::Playlist(uri@),
        ContextURI::Album(uri).deep_view() == ContextURIView::Album(uri@),
        ContextURI::Artist(uri).deep_view() == ContextURIView::Artist(uri@),
        ContextURI::Unknown(uri).deep_view() == ContextURIView::Unknown(uri@),
{
}

} // verus!
