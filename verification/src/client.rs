//! The client: it turns events into requests to Spotify, and keeps what is answered.
use crate::event::PlayerEvent;
use crate::model::{CurrentlyPlaybackContext, Offset, Page, RepeatState};
use crate::request::{
    AlbumQuery, ArtistQuery, ClientError, CurrentPlaybackQuery, DevicesQuery,
    FollowedArtistsQuery, HttpRequest, PageSource, Paging, PlayerCommand, PlaylistQuery,
    RelatedArtistsQuery, SavedAlbumsQuery, TopTracksQuery, UserPlaylistsQuery,
};
use crate::state::{PlayerState, Token};
use vstd::prelude::*;
use vstd::string::StringExecFns;

verus! {

/// A client of Spotify.
#[derive(Debug)]
pub struct Client {
    /// The token with which requests are authorised.
    pub access_token: Option<String>,
}

/// The number of items that are asked for at once.
pub const PAGE_SIZE: u32 = 50;

/// The state of repetition that follows another.
pub open spec fn next_repeat_state(state: RepeatState) -> RepeatState {
    match state {
        RepeatState::Off => RepeatState::Track,
        RepeatState::Track => RepeatState::Context,
        RepeatState::Context => RepeatState::Off,
    }
}

/// The command that an event of the player asks for, given the state of the player.
pub open spec fn command_for(
    playback: CurrentlyPlaybackContext,
    event: PlayerEvent,
) -> PlayerCommand {
    let device_id = Some(playback.device.id);
    match event {
        PlayerEvent::NextTrack => PlayerCommand::NextTrack { device_id },
        PlayerEvent::PreviousTrack => PlayerCommand::PreviousTrack { device_id },
        PlayerEvent::ResumePause => if playback.is_playing {
            PlayerCommand::PausePlayback { device_id }
        } else {
            PlayerCommand::StartPlayback {
                device_id,
                context_uri: None,
                uris: None,
                offset: None,
                position_ms: None,
            }
        },
        PlayerEvent::SeekTrack(position_ms) => PlayerCommand::SeekTrack { position_ms, device_id },
        PlayerEvent::Repeat => PlayerCommand::Repeat {
            state: next_repeat_state(playback.repeat_state),
            device_id,
        },
        PlayerEvent::Shuffle => PlayerCommand::Shuffle {
            state: !playback.shuffle_state,
            device_id,
        },
        PlayerEvent::Volume(volume) => PlayerCommand::Volume { volume_percent: volume, device_id },
        PlayerEvent::PlayTrack(context_uri, uris, offset) => PlayerCommand::StartPlayback {
            device_id,
            context_uri,
            uris,
            offset,
            position_ms: None,
        },
        PlayerEvent::PlayContext(context_uri) => PlayerCommand::StartPlayback {
            device_id,
            context_uri: Some(context_uri),
            uris: None,
            offset: None,
            position_ms: None,
        },
    }
}

/// How a listing goes on with another page: the items of the page come behind those before it, and
/// the page after it is asked for if there is one.
pub open spec fn pages_on<T>(
    client: Client,
    items: Vec<T>,
    page: Page<T>,
    paging: Paging<T>,
) -> bool {
    match paging {
        Paging::Complete(all) => page.next is None && all@ == items@ + page.items@,
        Paging::More(so_far, request) => {
            &&& page.next is Some
            &&& so_far@ == items@ + page.items@
            &&& client.requests(request, page.next->0@)
        },
    }
}

/// The items of some pages, in order.
pub open spec fn collected<T>(pages: Seq<Page<T>>) -> Seq<T>
    decreases pages.len(),
{
    if pages.len() == 0 {
        Seq::empty()
    } else {
        collected(pages.drop_last()) + pages.last().items@
    }
}

/// Whether a page is the answer to the request that the page before it led to.
pub open spec fn fetched_next<T>(
    client: Client,
    pages: Seq<Page<T>>,
    pagings: Seq<Paging<T>>,
    i: int,
) -> bool {
    match pagings[i - 1] {
        Paging::More(so_far, _) => pages_on(client, so_far, pages[i], pagings[i]),
        Paging::Complete(_) => false,
    }
}

/// Whether pages are fetched one after the other. Nothing comes before the first.
pub open spec fn fetched_in_turn<T>(
    client: Client,
    pages: Seq<Page<T>>,
    pagings: Seq<Paging<T>>,
) -> bool {
    &&& pages.len() == pagings.len()
    &&& pages.len() > 0
    &&& exists|none: Vec<T>|
        none@.len() == 0 && #[trigger] pages_on(client, none, pages[0], pagings[0])
    &&& forall|i: int|
        1 <= i < pages.len() ==> #[trigger] fetched_next(client, pages, pagings, i)
}

/// Whether a query is the one for a playlist, with all its fields and in no particular market.
pub open spec fn asks_for_playlist(query: PlaylistQuery, playlist_uri: Seq<char>) -> bool {
    &&& query.playlist_uri@ == playlist_uri
    &&& query.fields is None
    &&& query.market is None
}

/// Whether a query is the one for the top tracks of an artist, in no particular country.
pub open spec fn asks_for_top_tracks(query: TopTracksQuery, artist_uri: Seq<char>) -> bool {
    &&& query.artist_uri@ == artist_uri
    &&& query.country is None
}

/// The token that a client uses is the one that is noted in the state of the player.
pub open spec fn uses_noted_token(client: Client, player: PlayerState) -> bool {
    client.access_token matches Some(token) && token@ == player.token.access_token@
}

impl Client {
    /// The value of the header that authorises a request.
    pub open spec fn authorization(self) -> Seq<char> {
        match self.access_token {
            Some(token) => "Bearer "@ + token@,
            None => "Bearer "@,
        }
    }

    /// Whether a request is the one for the page at an address.
    pub open spec fn requests(self, request: HttpRequest, url: Seq<char>) -> bool {
        request.url@ == url && request.authorization@ == self.authorization()
    }

    /// Creates a client with a token, given the answer to the request for one. The token is
    /// noted in the state of the player.
    pub fn new(player: &mut PlayerState, token: Result<Token, String>) -> (client: Result<
        Client,
        ClientError,
    >)
        ensures
            match token {
                Ok(token) => {
                    &&& client == Ok::<Client, ClientError>(
                        Client { access_token: Some(token.access_token) },
                    )
                    &&& *final(player) == (PlayerState { token, ..*old(player) })
                    &&& uses_noted_token(client->Ok_0, *final(player))
                },
                Err(reason) => {
                    &&& client == Err::<Client, ClientError>(ClientError::Request(reason))
                    &&& *final(player) == *old(player)
                },
            },
    {
        match token {
            Ok(token) => {
                let access_token = token.access_token.clone();
                player.token = token;
                Ok(Client { access_token: Some(access_token) })
            },
            Err(reason) => Err(ClientError::Request(reason)),
        }
    }

    /// Handles an event of the player: chooses the command to send. There is none where the state
    /// of the player is not known.
    pub fn handle_player_event(&self, player: &PlayerState, event: PlayerEvent) -> (command: Result<
        PlayerCommand,
        ClientError,
    >)
        ensures
            command == match player.playback {
                Some(playback) => Ok::<PlayerCommand, ClientError>(command_for(playback, event)),
                None => Err::<PlayerCommand, ClientError>(ClientError::NoPlayback),
            },
    {
        let playback: &CurrentlyPlaybackContext = match &player.playback {
            Some(playback) => playback,
            None => {
                return Err(ClientError::NoPlayback);
            },
        };
        Ok(
            match event {
                PlayerEvent::NextTrack => self.next_track(playback),
                PlayerEvent::PreviousTrack => self.previous_track(playback),
                PlayerEvent::ResumePause => self.resume_pause(playback),
                PlayerEvent::SeekTrack(position_ms) => self.seek_track(playback, position_ms),
                PlayerEvent::Repeat => self.repeat(playback),
                PlayerEvent::Shuffle => self.shuffle(playback),
                PlayerEvent::Volume(volume) => self.volume(playback, volume),
                PlayerEvent::PlayTrack(context_uri, uris, offset) => self.start_playback(
                    playback,
                    context_uri,
                    uris,
                    offset,
                ),
                PlayerEvent::PlayContext(context_uri) => self.start_playback(
                    playback,
                    Some(context_uri),
                    None,
                    None,
                ),
            },
        )
    }

    /// Asks for the devices that can play music.
    pub fn get_devices(&self) -> (query: DevicesQuery)
        ensures
            query == DevicesQuery,
    {
        DevicesQuery
    }

    /// Asks for the playlists of the user.
    pub fn get_current_user_playlists(&self) -> (source: PageSource<UserPlaylistsQuery>)
        ensures
            source == PageSource::First(UserPlaylistsQuery { limit: PAGE_SIZE, offset: None }),
    {
        PageSource::First(UserPlaylistsQuery { limit: PAGE_SIZE, offset: None })
    }

    /// Asks for the artists that the user follows.
    pub fn get_current_user_followed_artists(&self) -> (source: PageSource<FollowedArtistsQuery>)
        ensures
            source == PageSource::First(FollowedArtistsQuery { limit: PAGE_SIZE, after: None }),
    {
        PageSource::First(FollowedArtistsQuery { limit: PAGE_SIZE, after: None })
    }

    /// Asks for the albums in the library of the user.
    pub fn get_current_user_saved_albums(&self) -> (source: PageSource<SavedAlbumsQuery>)
        ensures
            source == PageSource::First(SavedAlbumsQuery { limit: PAGE_SIZE, offset: None }),
    {
        PageSource::First(SavedAlbumsQuery { limit: PAGE_SIZE, offset: None })
    }

    /// Asks for a playlist.
    pub fn get_playlist(&self, playlist_uri: &str) -> (query: PlaylistQuery)
        ensures
            asks_for_playlist(query, playlist_uri@),
    {
        PlaylistQuery { playlist_uri: playlist_uri.to_string(), fields: None, market: None }
    }

    /// Asks for an album.
    pub fn get_album(&self, album_uri: &str) -> (query: AlbumQuery)
        ensures
            query.album_uri@ == album_uri@,
    {
        AlbumQuery { album_uri: album_uri.to_string() }
    }

    /// Asks for an artist.
    pub fn get_artist(&self, artist_uri: &str) -> (query: ArtistQuery)
        ensures
            query.artist_uri@ == artist_uri@,
    {
        ArtistQuery { artist_uri: artist_uri.to_string() }
    }

    /// Asks for the top tracks of an artist.
    pub fn get_artist_top_tracks(&self, artist_uri: &str) -> (query: TopTracksQuery)
        ensures
            asks_for_top_tracks(query, artist_uri@),
    {
        TopTracksQuery { artist_uri: artist_uri.to_string(), country: None }
    }

    /// Asks for the artists that are related to an artist.
    pub fn get_related_artists(&self, artist_uri: &str) -> (query: RelatedArtistsQuery)
        ensures
            query.artist_uri@ == artist_uri@,
    {
        RelatedArtistsQuery { artist_uri: artist_uri.to_string() }
    }

    /// Asks for the state of the player, in no particular market and with no further kinds of
    /// items.
    pub fn get_current_playback(&self) -> (query: CurrentPlaybackQuery)
        ensures
            query == (CurrentPlaybackQuery { market: None, additional_types: None }),
    {
        CurrentPlaybackQuery { market: None, additional_types: None }
    }

    /// Plays from a context, or from a list of tracks, starting at an offset.
    pub fn start_playback(
        &self,
        playback: &CurrentlyPlaybackContext,
        context_uri: Option<String>,
        uris: Option<Vec<String>>,
        offset: Option<Offset>,
    ) -> (command: PlayerCommand)
        ensures
            command == (PlayerCommand::StartPlayback {
                device_id: Some(playback.device.id),
                context_uri,
                uris,
                offset,
                position_ms: None,
            }),
    {
        PlayerCommand::StartPlayback {
            device_id: Some(playback.device.id.clone()),
            context_uri,
            uris,
            offset,
            position_ms: None,
        }
    }

    /// Moves playback to a device, and starts it there if asked to.
    pub fn transfer_playback(&self, device_id: String, force_play: bool) -> (command: PlayerCommand)
        ensures
            command == (PlayerCommand::TransferPlayback { device_id, force_play }),
    {
        PlayerCommand::TransferPlayback { device_id, force_play }
    }

    /// Goes on to the next state of repetition.
    pub fn repeat(&self, playback: &CurrentlyPlaybackContext) -> (command: PlayerCommand)
        ensures
            command == (PlayerCommand::Repeat {
                state: next_repeat_state(playback.repeat_state),
                device_id: Some(playback.device.id),
            }),
    {
        let state: RepeatState = match playback.repeat_state {
            RepeatState::Off => RepeatState::Track,
            RepeatState::Track => RepeatState::Context,
            RepeatState::Context => RepeatState::Off,
        };
        PlayerCommand::Repeat { state, device_id: Some(playback.device.id.clone()) }
    }

    /// Pauses what is playing, or resumes what is paused.
    pub fn resume_pause(&self, playback: &CurrentlyPlaybackContext) -> (command: PlayerCommand)
        ensures
            command == command_for(*playback, PlayerEvent::ResumePause),
    {
        if playback.is_playing {
            self.pause_track(playback)
        } else {
            self.resume_track(playback)
        }
    }

    /// Seeks to a position in the current track.
    pub fn seek_track(
        &self,
        playback: &CurrentlyPlaybackContext,
        position_ms: u32,
    ) -> (command: PlayerCommand)
        ensures
            command == (PlayerCommand::SeekTrack {
                position_ms,
                device_id: Some(playback.device.id),
            }),
    {
        PlayerCommand::SeekTrack { position_ms, device_id: Some(playback.device.id.clone()) }
    }

    /// Resumes the track that was paused.
    pub fn resume_track(&self, playback: &CurrentlyPlaybackContext) -> (command: PlayerCommand)
        ensures
            command == (PlayerCommand::StartPlayback {
                device_id: Some(playback.device.id),
                context_uri: None,
                uris: None,
                offset: None,
                position_ms: None,
            }),
    {
        self.start_playback(playback, None, None, None)
    }

    /// Pauses the track that is playing.
    pub fn pause_track(&self, playback: &CurrentlyPlaybackContext) -> (command: PlayerCommand)
        ensures
            command == (PlayerCommand::PausePlayback { device_id: Some(playback.device.id) }),
    {
        PlayerCommand::PausePlayback { device_id: Some(playback.device.id.clone()) }
    }

    /// Skips to the next track.
    pub fn next_track(&self, playback: &CurrentlyPlaybackContext) -> (command: PlayerCommand)
        ensures
            command == (PlayerCommand::NextTrack { device_id: Some(playback.device.id) }),
    {
        PlayerCommand::NextTrack { device_id: Some(playback.device.id.clone()) }
    }

    /// Skips to the previous track.
    pub fn previous_track(&self, playback: &CurrentlyPlaybackContext) -> (command: PlayerCommand)
        ensures
            command == (PlayerCommand::PreviousTrack { device_id: Some(playback.device.id) }),
    {
        PlayerCommand::PreviousTrack { device_id: Some(playback.device.id.clone()) }
    }

    /// Switches shuffling on or off.
    pub fn shuffle(&self, playback: &CurrentlyPlaybackContext) -> (command: PlayerCommand)
        ensures
            command == (PlayerCommand::Shuffle {
                state: !playback.shuffle_state,
                device_id: Some(playback.device.id),
            }),
    {
        PlayerCommand::Shuffle {
            state: !playback.shuffle_state,
            device_id: Some(playback.device.id.clone()),
        }
    }

    /// Sets the volume.
    pub fn volume(&self, playback: &CurrentlyPlaybackContext, volume: u8) -> (command:
        PlayerCommand)
        ensures
            command == (PlayerCommand::Volume {
                volume_percent: volume,
                device_id: Some(playback.device.id),
            }),
    {
        PlayerCommand::Volume {
            volume_percent: volume,
            device_id: Some(playback.device.id.clone()),
        }
    }

    /// Turns the answer to a request, which on failure is a text, into a result of the client.
    pub fn handle_rspotify_result<T>(result: Result<T, String>) -> (handled: Result<T, ClientError>)
        ensures
            handled == match result {
                Ok(data) => Ok::<T, ClientError>(data),
                Err(reason) => Err::<T, ClientError>(ClientError::Request(reason)),
            },
    {
        match result {
            Ok(data) => Ok(data),
            Err(reason) => Err(ClientError::Request(reason)),
        }
    }

    /// The request for the page at an address. Without a token the header is sent without one.
    pub fn internal_call(&self, url: &str) -> (request: HttpRequest)
        ensures
            self.requests(request, url@),
    {
        let authorization: String = match &self.access_token {
            Some(token) => "Bearer ".to_string().concat(token.as_str()),
            None => "Bearer ".to_string(),
        };
        HttpRequest { url: url.to_string(), authorization }
    }

    /// Adds a page to the items of the pages before it, and asks for the next page if there is
    /// one.
    pub fn get_all_paging_items<T>(&self, items: Vec<T>, page: Page<T>) -> (paging: Paging<T>)
        ensures
            pages_on(*self, items, page, paging),
    {
        let mut items: Vec<T> = items;
        let mut new_items: Vec<T> = page.items;
        items.append(&mut new_items);
        match page.next {
            Some(url) => Paging::More(items, self.internal_call(url.as_str())),
            None => Paging::Complete(items),
        }
    }
}

/// A listing is collected whole: once pages are fetched one after the other, the items are those
/// of all pages, in order. The collection is complete exactly with the page that has no next one;
/// until then, what is asked for is the page after the last.
pub proof fn paging_collects_every_page<T>(
    client: Client,
    pages: Seq<Page<T>>,
    pagings: Seq<Paging<T>>,
)
    requires
        fetched_in_turn(client, pages, pagings),
    ensures
        match pagings.last() {
            Paging::Complete(all) => pages.last().next is None && all@ == collected(pages),
            Paging::More(so_far, request) => {
                &&& so_far@ == collected(pages)
                &&& pages.last().next is Some
                &&& client.requests(request, pages.last().next->0@)
            },
        },
        forall|i: int| 0 <= i < pages.len() - 1 ==> (#[trigger] pages[i]).next is Some,
    decreases pages.len(),
{
    let rest = pages.drop_last();
    let earlier = pagings.drop_last();
    if rest.len() == 0 {
        let none = choose|none: Vec<T>|
            none@.len() == 0 && #[trigger] pages_on(client, none, pages[0], pagings[0]);
        assert(collected(rest) =~= none@);
    } else {
        assert forall|i: int| 1 <= i < rest.len() implies #[trigger] fetched_next(
            client,
            rest,
            earlier,
            i,
        ) by {
            assert(fetched_next(client, pages, pagings, i));
        }
        assert(rest[0] == pages[0] && earlier[0] == pagings[0]);
        paging_collects_every_page(client, rest, earlier);
        assert(fetched_next(client, pages, pagings, pages.len() - 1));
        assert forall|i: int|
            0 <= i < pages.len() - 1 implies (#[trigger] pages[i]).next is Some by {
            if i < rest.len() - 1 {
                assert(rest[i].next is Some);
            } else {
                assert(rest.last() == pages[i]);
            }
        }
    }
}

/// Going on to the next state of repetition three times leads back to where it began, through
/// every state.
pub proof fn repetition_comes_round(state: RepeatState, other: RepeatState)
    ensures
        next_repeat_state(next_repeat_state(next_repeat_state(state))) == state,
        other == state || other == next_repeat_state(state) || other == next_repeat_state(
            next_repeat_state(state),
        ),
{
}

/// A track is played from exactly the context and the list of tracks, and at exactly the offset,
/// that were chosen, on the device of the playback, whatever else the playback says.
pub proof fn chosen_track_is_played(
    playback: CurrentlyPlaybackContext,
    chosen_context: Option<String>,
    chosen_tracks: Option<Vec<String>>,
    chosen_offset: Option<Offset>,
)
    ensures
        match command_for(
            playback,
            PlayerEvent::PlayTrack(chosen_context, chosen_tracks, chosen_offset),
        ) {
            PlayerCommand::StartPlayback { device_id, context_uri, uris, offset, position_ms } => {
                &&& device_id == Some(playback.device.id)
                &&& context_uri == chosen_context
                &&& uris == chosen_tracks
                &&& offset == chosen_offset
                &&& position_ms is None
            },
            _ => false,
        },
{
}

/// Playing a context is playing no chosen track of it.
pub proof fn chosen_context_is_played(playback: CurrentlyPlaybackContext, chosen: String)
    ensures
        command_for(playback, PlayerEvent::PlayContext(chosen)) == command_for(
            playback,
            PlayerEvent::PlayTrack(Some(chosen), None, None),
        ),
{
}

/// What plays is paused, and what is paused is resumed where it was: nothing else is chosen to be
/// played.
pub proof fn playing_is_toggled(playback: CurrentlyPlaybackContext)
    ensures
        playback.is_playing ==> command_for(playback, PlayerEvent::ResumePause) == (
        PlayerCommand::PausePlayback { device_id: Some(playback.device.id) }),
        !playback.is_playing ==> command_for(playback, PlayerEvent::ResumePause) == command_for(
            playback,
            PlayerEvent::PlayTrack(None, None, None),
        ),
{
}

/// Seeking goes to exactly the position that is asked for, and the volume becomes exactly the one
/// that is asked for.
pub proof fn position_and_volume_are_those_asked_for(
    playback: CurrentlyPlaybackContext,
    position: u32,
    volume: u8,
)
    ensures
        match command_for(playback, PlayerEvent::SeekTrack(position)) {
            PlayerCommand::SeekTrack { position_ms, device_id } => {
                &&& position_ms == position
                &&& device_id == Some(playback.device.id)
            },
            _ => false,
        },
        match command_for(playback, PlayerEvent::Volume(volume)) {
            PlayerCommand::Volume { volume_percent, device_id } => {
                &&& volume_percent == volume
                &&& device_id == Some(playback.device.id)
            },
            _ => false,
        },
{
}

/// Shuffling becomes the opposite of what it is, whatever else the playback says.
pub proof fn shuffling_is_toggled(playback: CurrentlyPlaybackContext)
    ensures
        match command_for(playback, PlayerEvent::Shuffle) {
            PlayerCommand::Shuffle { state, device_id } => {
                &&& state != playback.shuffle_state
                &&& device_id == Some(playback.device.id)
            },
            _ => false,
        },
{
}

/// Repetition goes from none to the track, from the track to the context, and from the context to
/// none, whatever else the playback says.
pub proof fn repetition_goes_on(playback: CurrentlyPlaybackContext)
    ensures
        match command_for(playback, PlayerEvent::Repeat) {
            PlayerCommand::Repeat { state, device_id } => {
                &&& device_id == Some(playback.device.id)
                &&& state == RepeatState::Track <==> playback.repeat_state == RepeatState::Off
                &&& state == RepeatState::Context <==> playback.repeat_state == RepeatState::Track
                &&& state == RepeatState::Off <==> playback.repeat_state == RepeatState::Context
                &&& state == next_repeat_state(playback.repeat_state)
            },
            _ => false,
        },
{
}

/// Tracks are skipped in the direction that is asked for, whatever else the playback says.
pub proof fn tracks_are_skipped_as_asked(playback: CurrentlyPlaybackContext)
    ensures
        command_for(playback, PlayerEvent::NextTrack) == (PlayerCommand::NextTrack {
            device_id: Some(playback.device.id),
        }),
        command_for(playback, PlayerEvent::PreviousTrack) == (PlayerCommand::PreviousTrack {
            device_id: Some(playback.device.id),
        }),
{
}

/// A request for a page goes to the address of the page, and carries the token of the client, if it
/// has one, behind the word that tells its kind.
pub proof fn page_request_is_authorised(client: Client, request: HttpRequest, url: Seq<char>)
    requires
        client.requests(request, url),
    ensures
        request.url@ == url,
        match client.access_token {
            Some(token) => request.authorization@ == "Bearer "@ + token@,
            None => request.authorization@ == "Bearer "@,
        },
{
}

/// No item is lost or moved when a page is added: the items so far stay where they were, those of
/// the page come behind them, and there are no others. More is asked for exactly where the page has
/// a next one.
pub proof fn page_is_added_behind<T>(
    client: Client,
    items: Vec<T>,
    page: Page<T>,
    paging: Paging<T>,
    i: int,
)
    requires
        pages_on(client, items, page, paging),
    ensures
        paging is More <==> page.next is Some,
        ({
            let all = match paging {
                Paging::Complete(all) => all@,
                Paging::More(all, _) => all@,
            };
            &&& all.len() == items@.len() + page.items@.len()
            &&& 0 <= i < items@.len() ==> all[i] == items@[i]
            &&& 0 <= i < page.items@.len() ==> all[items@.len() + i] == page.items@[i]
        }),
        paging matches Paging::More(_, request) ==> client.requests(request, page.next->0@),
{
}

/// The items of some pages and another are those of the pages and then those of the other.
pub proof fn collecting_adds_up<T>(pages: Seq<Page<T>>, page: Page<T>)
    ensures
        collected(Seq::<Page<T>>::empty()) == Seq::<T>::empty(),
        collected(pages.push(page)) == collected(pages) + page.items@,
{
    assert(pages.push(page).drop_last() =~= pages);
}

/// A playlist is asked for by its address, and the top tracks of an artist by that of the artist;
/// neither query is limited in any way.
pub proof fn queries_are_not_limited(
    playlist_query: PlaylistQuery,
    top_tracks_query: TopTracksQuery,
    uri: Seq<char>,
)
    ensures
        asks_for_playlist(playlist_query, uri) <==> playlist_query.playlist_uri@ == uri
            && playlist_query.fields is None && playlist_query.market is None,
        asks_for_top_tracks(top_tracks_query, uri) <==> top_tracks_query.artist_uri@ == uri
            && top_tracks_query.country is None,
        PAGE_SIZE == 50,
{
}

/// A client that uses the noted token authorises its requests with it.
pub proof fn noted_token_authorises_requests(
    client: Client,
    player: PlayerState,
    request: HttpRequest,
    url: Seq<char>,
)
    requires
        uses_noted_token(client, player),
        client.requests(request, url),
    ensures
        request.authorization@ == "Bearer "@ + player.token.access_token@,
{
}

} // verus!
