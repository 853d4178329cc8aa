//! The handling of events. `Client::handle_event` begins with an event and yields the first step;
//! the functions that take the answer to a step's request yield the step after it. A request that
//! fails ends the handling of its event.
use crate::cache::{cache_entries, cache_put, lookup};
use crate::client::{asks_for_playlist, command_for, uses_noted_token, Client, PAGE_SIZE};
use crate::contexts::puts;
use crate::event::{ContextURI, Event, PlayerEvent};
use crate::listing::{artists_of, into_artists, into_saved_albums, saved_albums_of};
use crate::model::{
    CurrentlyPlaybackContext, Device, FullArtist, Page, SavedAlbum, SimplifiedPlaylist,
};
use crate::request::{
    ClientError, CurrentPlaybackQuery, DevicesQuery, FollowedArtistsQuery, PageSource, Paging,
    PlayerCommand, SavedAlbumsQuery, Step, UserPlaylistsQuery,
};
use crate::state::{Context, ContextView, PlayerState, Token};
use vstd::prelude::*;

verus! {

/// What handling an event begins with: the state of the player before and after, and the first
/// step.
pub open spec fn begins_with(
    before: PlayerState,
    now: u64,
    event: Event,
    after: PlayerState,
    step: Step,
) -> bool {
    match event {
        Event::Player(event) => {
            &&& after == before
            &&& step == match before.playback {
                Some(playback) => Step::Command(command_for(playback, event)),
                None => Step::Failed(ClientError::NoPlayback),
            }
        },
        Event::RefreshToken => {
            &&& after == before
            &&& step == if now > before.token.expires_at {
                Step::GetToken
            } else {
                Step::Done { update_playback: false }
            }
        },
        Event::GetCurrentPlayback => {
            &&& after == before
            &&& step == Step::GetCurrentPlayback(
                CurrentPlaybackQuery { market: None, additional_types: None },
            )
        },
        Event::TransferPlayback(device_id, force_play) => {
            &&& after == before
            &&& step == Step::Command(
                PlayerCommand::TransferPlayback { device_id, force_play },
            )
        },
        Event::GetDevices => {
            &&& after == before
            &&& step == Step::GetDevices(DevicesQuery)
        },
        Event::GetUserPlaylists => {
            &&& after == before
            &&& step matches Step::GetUserPlaylists(so_far, source)
            &&& so_far@.len() == 0
            &&& source == PageSource::First(
                UserPlaylistsQuery { limit: PAGE_SIZE, offset: None },
            )
        },
        Event::GetUserFollowedArtists => {
            &&& after == before
            &&& step matches Step::GetUserFollowedArtists(so_far, source)
            &&& so_far@.len() == 0
            &&& source == PageSource::First(
                FollowedArtistsQuery { limit: PAGE_SIZE, after: None },
            )
        },
        Event::GetUserSavedAlbums => {
            &&& after == before
            &&& step matches Step::GetUserSavedAlbums(so_far, source)
            &&& so_far@.len() == 0
            &&& source == PageSource::First(
                SavedAlbumsQuery { limit: PAGE_SIZE, offset: None },
            )
        },
        Event::GetContext(ContextURI::Playlist(uri)) => {
            &&& after == before
            &&& if lookup(cache_entries(before.context_cache), uri@) is Some {
                step == (Step::Done { update_playback: false })
            } else {
                &&& step matches Step::GetPlaylist(same_uri, query)
                &&& same_uri == uri
                &&& asks_for_playlist(query, uri@)
            }
        },
        Event::GetContext(ContextURI::Album(uri)) => {
            &&& after == before
            &&& if lookup(cache_entries(before.context_cache), uri@) is Some {
                step == (Step::Done { update_playback: false })
            } else {
                &&& step matches Step::GetAlbum(same_uri, query)
                &&& same_uri == uri
                &&& query.album_uri@ == uri@
            }
        },
        Event::GetContext(ContextURI::Artist(uri)) => {
            &&& after == before
            &&& if lookup(cache_entries(before.context_cache), uri@) is Some {
                step == (Step::Done { update_playback: false })
            } else {
                &&& step matches Step::GetArtist(same_uri, query)
                &&& same_uri == uri
                &&& query.artist_uri@ == uri@
            }
        },
        Event::GetContext(ContextURI::Unknown(uri)) => {
            &&& puts(before, after, uri@, ContextView::Unknown(uri@))
            &&& step == (Step::Done { update_playback: false })
        },
    }
}

/// What a page of the user's playlists leads to.
pub open spec fn user_playlists_go_on(
    client: Client,
    before: PlayerState,
    so_far: Vec<SimplifiedPlaylist>,
    reply: Result<Page<SimplifiedPlaylist>, String>,
    after: PlayerState,
    step: Step,
) -> bool {
    match reply {
        Ok(page) => match page.next {
            Some(url) => {
                &&& after == before
                &&& step matches Step::GetUserPlaylists(items, PageSource::Next(request))
                &&& items@ == so_far@ + page.items@
                &&& client.requests(request, url@)
            },
            None => {
                &&& after == (PlayerState { user_playlists: after.user_playlists, ..before })
                &&& after.user_playlists@ == so_far@ + page.items@
                &&& step == (Step::Done { update_playback: false })
            },
        },
        Err(reason) => {
            &&& after == before
            &&& step == Step::Failed(ClientError::Request(reason))
        },
    }
}

/// What a page of the artists that the user follows leads to.
pub open spec fn user_followed_artists_go_on(
    client: Client,
    before: PlayerState,
    so_far: Vec<FullArtist>,
    reply: Result<Page<FullArtist>, String>,
    after: PlayerState,
    step: Step,
) -> bool {
    match reply {
        Ok(page) => match page.next {
            Some(url) => {
                &&& after == before
                &&& step matches Step::GetUserFollowedArtists(items, PageSource::Next(request))
                &&& items@ == so_far@ + page.items@
                &&& client.requests(request, url@)
            },
            None => {
                &&& after == (PlayerState {
                    user_followed_artists: after.user_followed_artists,
                    ..before
                })
                &&& after.user_followed_artists.deep_view() == artists_of(
                    so_far.deep_view() + page.items.deep_view(),
                )
                &&& step == (Step::Done { update_playback: false })
            },
        },
        Err(reason) => {
            &&& after == before
            &&& step == Step::Failed(ClientError::Request(reason))
        },
    }
}

/// What a page of the albums in the user's library leads to.
pub open spec fn user_saved_albums_go_on(
    client: Client,
    before: PlayerState,
    so_far: Vec<SavedAlbum>,
    reply: Result<Page<SavedAlbum>, String>,
    after: PlayerState,
    step: Step,
) -> bool {
    match reply {
        Ok(page) => match page.next {
            Some(url) => {
                &&& after == before
                &&& step matches Step::GetUserSavedAlbums(items, PageSource::Next(request))
                &&& items@ == so_far@ + page.items@
                &&& client.requests(request, url@)
            },
            None => {
                &&& after == (PlayerState {
                    user_saved_albums: after.user_saved_albums,
                    ..before
                })
                &&& after.user_saved_albums.deep_view() == saved_albums_of(
                    so_far.deep_view() + page.items.deep_view(),
                )
                &&& step == (Step::Done { update_playback: false })
            },
        },
        Err(reason) => {
            &&& after == before
            &&& step == Step::Failed(ClientError::Request(reason))
        },
    }
}

impl Client {
    /// Begins to handle an event.
    pub fn handle_event(&self, player: &mut PlayerState, now: u64, event: Event) -> (step: Step)
        ensures
            begins_with(*old(player), now, event, *final(player), step),
            final(player).token == old(player).token,
    {
        match event {
            Event::Player(event) => match self.handle_player_event(player, event) {
                Ok(command) => Step::Command(command),
                Err(error) => Step::Failed(error),
            },
            Event::RefreshToken => {
                if now > player.token.expires_at {
                    Step::GetToken
                } else {
                    Step::Done { update_playback: false }
                }
            },
            Event::GetCurrentPlayback => Step::GetCurrentPlayback(self.get_current_playback()),
            Event::TransferPlayback(device_id, force_play) => Step::Command(
                self.transfer_playback(device_id, force_play),
            ),
            Event::GetDevices => Step::GetDevices(self.get_devices()),
            Event::GetUserPlaylists => Step::GetUserPlaylists(
                Vec::new(),
                self.get_current_user_playlists(),
            ),
            Event::GetUserFollowedArtists => Step::GetUserFollowedArtists(
                Vec::new(),
                self.get_current_user_followed_artists(),
            ),
            Event::GetUserSavedAlbums => Step::GetUserSavedAlbums(
                Vec::new(),
                self.get_current_user_saved_albums(),
            ),
            Event::GetContext(context) => match context {
                ContextURI::Playlist(uri) => self.get_playlist_context(player, uri),
                ContextURI::Album(uri) => self.get_album_context(player, uri),
                ContextURI::Artist(uri) => self.get_artist_context(player, uri),
                ContextURI::Unknown(uri) => {
                    cache_put(&mut player.context_cache, uri.clone(), Context::Unknown(uri));
                    Step::Done { update_playback: false }
                },
            },
        }
    }

    /// Takes a new token into use, or reports that there is none.
    pub fn token_received(
        &mut self,
        player: &mut PlayerState,
        reply: Result<Token, String>,
    ) -> (step: Step)
        ensures
            match reply {
                Ok(token) => {
                    &&& final(self).access_token == Some(token.access_token)
                    &&& *final(player) == (PlayerState { token, ..*old(player) })
                    &&& uses_noted_token(*final(self), *final(player))
                    &&& step == (Step::Done { update_playback: false })
                },
                Err(reason) => {
                    &&& *final(self) == *old(self)
                    &&& *final(player) == *old(player)
                    &&& step == Step::Failed(ClientError::Request(reason))
                },
            },
    {
        match Self::handle_rspotify_result(reply) {
            Ok(token) => {
                self.access_token = Some(token.access_token.clone());
                player.token = token;
                Step::Done { update_playback: false }
            },
            Err(error) => Step::Failed(error),
        }
    }

    /// Ends an event that has changed what is played.
    pub fn command_answered(&self, reply: Result<(), String>) -> (step: Step)
        ensures
            step == match reply {
                Ok(_) => Step::Done { update_playback: true },
                Err(reason) => Step::Failed(ClientError::Request(reason)),
            },
    {
        match Self::handle_rspotify_result(reply) {
            Ok(_) => Step::Done { update_playback: true },
            Err(error) => Step::Failed(error),
        }
    }

    /// Notes the state of the player, and when it was fetched.
    pub fn update_current_playback_state(
        &self,
        player: &mut PlayerState,
        now: u64,
        reply: Result<Option<CurrentlyPlaybackContext>, String>,
    ) -> (step: Step)
        ensures
            match reply {
                Ok(playback) => {
                    &&& *final(player) == (PlayerState {
                        playback,
                        playback_last_updated: Some(now),
                        ..*old(player)
                    })
                    &&& step == (Step::Done { update_playback: false })
                },
                Err(reason) => {
                    &&& *final(player) == *old(player)
                    &&& step == Step::Failed(ClientError::Request(reason))
                },
            },
            final(player).token == old(player).token,
    {
        match Self::handle_rspotify_result(reply) {
            Ok(playback) => {
                player.playback = playback;
                player.playback_last_updated = Some(now);
                Step::Done { update_playback: false }
            },
            Err(error) => Step::Failed(error),
        }
    }

    /// Notes the devices that can play music.
    pub fn devices_received(
        &self,
        player: &mut PlayerState,
        reply: Result<Vec<Device>, String>,
    ) -> (step: Step)
        ensures
            match reply {
                Ok(devices) => {
                    &&& *final(player) == (PlayerState { devices, ..*old(player) })
                    &&& step == (Step::Done { update_playback: false })
                },
                Err(reason) => {
                    &&& *final(player) == *old(player)
                    &&& step == Step::Failed(ClientError::Request(reason))
                },
            },
            final(player).token == old(player).token,
    {
        match Self::handle_rspotify_result(reply) {
            Ok(devices) => {
                player.devices = devices;
                Step::Done { update_playback: false }
            },
            Err(error) => Step::Failed(error),
        }
    }

    /// Adds a page of the user's playlists, and notes them once the last page is there.
    pub fn user_playlists_received(
        &self,
        player: &mut PlayerState,
        so_far: Vec<SimplifiedPlaylist>,
        reply: Result<Page<SimplifiedPlaylist>, String>,
    ) -> (step: Step)
        ensures
            user_playlists_go_on(*self, *old(player), so_far, reply, *final(player), step),
            final(player).token == old(player).token,
    {
        match Self::handle_rspotify_result(reply) {
            Ok(page) => match self.get_all_paging_items(so_far, page) {
                Paging::Complete(playlists) => {
                    player.user_playlists = playlists;
                    Step::Done { update_playback: false }
                },
                Paging::More(items, request) => Step::GetUserPlaylists(
                    items,
                    PageSource::Next(request),
                ),
            },
            Err(error) => Step::Failed(error),
        }
    }

    /// Adds a page of the artists that the user follows, and notes them once the last page is
    /// there.
    pub fn user_followed_artists_received(
        &self,
        player: &mut PlayerState,
        so_far: Vec<FullArtist>,
        reply: Result<Page<FullArtist>, String>,
    ) -> (step: Step)
        ensures
            user_followed_artists_go_on(*self, *old(player), so_far, reply, *final(player), step),
            final(player).token == old(player).token,
    {
        match Self::handle_rspotify_result(reply) {
            Ok(page) => {
                let ghost expected = so_far.deep_view() + page.items.deep_view();
                match self.get_all_paging_items(so_far, page) {
                    Paging::Complete(artists) => {
                        assert(artists.deep_view() =~= expected);
                        player.user_followed_artists = into_artists(artists);
                        Step::Done { update_playback: false }
                    },
                    Paging::More(items, request) => Step::GetUserFollowedArtists(
                        items,
                        PageSource::Next(request),
                    ),
                }
            },
            Err(error) => Step::Failed(error),
        }
    }

    /// Adds a page of the albums in the user's library, and notes them once the last page is
    /// there.
    pub fn user_saved_albums_received(
        &self,
        player: &mut PlayerState,
        so_far: Vec<SavedAlbum>,
        reply: Result<Page<SavedAlbum>, String>,
    ) -> (step: Step)
        ensures
            user_saved_albums_go_on(*self, *old(player), so_far, reply, *final(player), step),
            final(player).token == old(player).token,
    {
        match Self::handle_rspotify_result(reply) {
            Ok(page) => {
                let ghost expected = so_far.deep_view() + page.items.deep_view();
                match self.get_all_paging_items(so_far, page) {
                    Paging::Complete(albums) => {
                        assert(albums.deep_view() =~= expected);
                        player.user_saved_albums = into_saved_albums(albums);
                        Step::Done { update_playback: false }
                    },
                    Paging::More(items, request) => Step::GetUserSavedAlbums(
                        items,
                        PageSource::Next(request),
                    ),
                }
            },
            Err(error) => Step::Failed(error),
        }
    }
}

/// What the loop that handles events does next.
#[derive(Debug, PartialEq, Eq)]
pub enum HandlerAction {
    /// Carries out a step. Its outcome is handed to `after_step`.
    Perform(Step),
    /// Waits for an event, once the state of the player has been fetched anew if need be, and a
    /// warning has been given if there is one.
    Receive { update_playback: bool, warning: Option<String> },
    /// Ends, as no more events can come.
    Stop,
}

/// Whether an action is what follows a step: the loop goes on with the step, or it waits for
/// another event where the one at hand is handled, or has failed.
pub open spec fn follows(step: Step, action: HandlerAction) -> bool {
    match step {
        Step::Done { update_playback } => action == (HandlerAction::Receive {
            update_playback,
            warning: None,
        }),
        Step::Failed(error) => {
            &&& action matches HandlerAction::Receive { update_playback, warning }
            &&& !update_playback
            &&& warning matches Some(warning)
            &&& warning@ == error.text()
        },
        _ => action == HandlerAction::Perform(step),
    }
}

/// Goes on after a step. A failure is warned of and does not end the loop.
pub fn after_step(step: Step) -> (action: HandlerAction)
    ensures
        follows(step, action),
{
    match step {
        Step::Done { update_playback } => HandlerAction::Receive { update_playback, warning: None },
        Step::Failed(error) => HandlerAction::Receive {
            update_playback: false,
            warning: Some(error.message()),
        },
        step => HandlerAction::Perform(step),
    }
}

/// How the loop takes up what was received: an event begins with a step, and the loop goes on as
/// follows from it. It stops once no more events can come.
pub open spec fn takes_up(
    before: PlayerState,
    now: u64,
    received: Option<Event>,
    after: PlayerState,
    step: Step,
    action: HandlerAction,
) -> bool {
    match received {
        Some(event) => {
            &&& begins_with(before, now, event, after, step)
            &&& follows(step, action)
        },
        None => {
            &&& after == before
            &&& action == HandlerAction::Stop
        },
    }
}

/// Goes on once an event has come, or once it is known that no more events can come.
pub fn start_client_handler(
    client: &Client,
    player: &mut PlayerState,
    now: u64,
    received: Option<Event>,
) -> (action: HandlerAction)
    ensures
        exists|step: Step| #[trigger]
            takes_up(*old(player), now, received, *final(player), step, action),
{
    match received {
        Some(event) => {
            let step: Step = client.handle_event(player, now, event);
            let ghost first = step;
            let action: HandlerAction = after_step(step);
            assert(takes_up(*old(player), now, Some(event), *player, first, action));
            action
        },
        None => {
            assert(takes_up(
                *old(player),
                now,
                None,
                *player,
                Step::GetToken,
                HandlerAction::Stop,
            ));
            HandlerAction::Stop
        },
    }
}

/// The loop goes on after every step, be it a failure.
pub proof fn handler_goes_on_after_every_step(step: Step, action: HandlerAction)
    requires
        follows(step, action),
    ensures
        action != HandlerAction::Stop,
        step is Done || step is Failed <==> action is Receive,
{
}

/// Beginning to handle an event leaves the token as it is, and thus the client with the token that
/// is noted in the state of the player.
pub proof fn beginning_an_event_keeps_the_token(
    client: Client,
    before: PlayerState,
    now: u64,
    event: Event,
    after: PlayerState,
    step: Step,
)
    requires
        begins_with(before, now, event, after, step),
        uses_noted_token(client, before),
    ensures
        uses_noted_token(client, after),
{
}

/// A context that is in the cache is not fetched again: the event that asks for it is handled at
/// once, and nothing changes. An unknown context is put into the cache in any case.
pub proof fn cached_context_is_not_fetched_again(
    before: PlayerState,
    now: u64,
    uri: String,
    context: ContextURI,
    after: PlayerState,
    step: Step,
)
    requires
        begins_with(before, now, Event::GetContext(context), after, step),
        context == ContextURI::Playlist(uri) || context == ContextURI::Album(uri) || context
            == ContextURI::Artist(uri),
        lookup(cache_entries(before.context_cache), uri@) is Some,
    ensures
        after == before,
        step == (Step::Done { update_playback: false }),
{
}

/// A context is in the cache once the event that asks for an unknown one is handled.
pub proof fn unknown_context_is_cached(
    before: PlayerState,
    now: u64,
    uri: String,
    after: PlayerState,
    step: Step,
)
    requires
        begins_with(before, now, Event::GetContext(ContextURI::Unknown(uri)), after, step),
    ensures
        lookup(cache_entries(after.context_cache), uri@) == Some(ContextView::Unknown(uri@)),
        step == (Step::Done { update_playback: false }),
{
}

/// An event fails before anything is asked of Spotify only where it is to change what is played
/// and the state of the player is not known.
pub proof fn events_fail_early_without_playback_alone(
    before: PlayerState,
    now: u64,
    event: Event,
    after: PlayerState,
    step: Step,
)
    requires
        begins_with(before, now, event, after, step),
    ensures
        step is Failed <==> event is Player && before.playback is None,
        step is Failed ==> step == Step::Failed(ClientError::NoPlayback) && after == before,
{
}

/// Whatever an event is, nothing changes when it begins but the cache, and that only for a context
/// of an unknown kind.
pub proof fn beginning_an_event_changes_nothing_else(
    before: PlayerState,
    now: u64,
    event: Event,
    after: PlayerState,
    step: Step,
)
    requires
        begins_with(before, now, event, after, step),
    ensures
        after.token == before.token,
        after.playback == before.playback,
        after.playback_last_updated == before.playback_last_updated,
        after.devices == before.devices,
        after.user_playlists == before.user_playlists,
        after.user_followed_artists == before.user_followed_artists,
        after.user_saved_albums == before.user_saved_albums,
        after.context_uri == before.context_uri,
        after.context_cache == before.context_cache || event matches Event::GetContext(
            ContextURI::Unknown(_),
        ),
{
}

/// An event of the player leads to the command for it wherever the playback is known, whatever time
/// it is and whatever else is known.
pub proof fn player_event_leads_to_its_command(
    before: PlayerState,
    now: u64,
    event: PlayerEvent,
    after: PlayerState,
    step: Step,
)
    requires
        begins_with(before, now, Event::Player(event), after, step),
    ensures
        before.playback matches Some(playback) ==> match step {
            Step::Command(command) => command == command_for(playback, event),
            _ => false,
        },
        before.playback is None ==> step == Step::Failed(ClientError::NoPlayback),
{
}

/// A token is asked for exactly where the time at which it expires has passed; otherwise there is
/// nothing to do.
pub proof fn token_is_asked_for_after_it_expires(
    before: PlayerState,
    now: u64,
    after: PlayerState,
    step: Step,
)
    requires
        begins_with(before, now, Event::RefreshToken, after, step),
    ensures
        step == Step::GetToken <==> before.token.expires_at < now,
        before.token.expires_at >= now ==> step == (Step::Done { update_playback: false }),
{
}

/// Playback is transferred to exactly the device that was chosen, and starts there exactly if that
/// was asked for, whether or not the playback is known.
pub proof fn playback_is_transferred_as_chosen(
    before: PlayerState,
    now: u64,
    chosen: String,
    play: bool,
    after: PlayerState,
    step: Step,
)
    requires
        begins_with(before, now, Event::TransferPlayback(chosen, play), after, step),
    ensures
        match step {
            Step::Command(PlayerCommand::TransferPlayback { device_id, force_play }) => {
                &&& device_id == chosen
                &&& force_play == play
            },
            _ => false,
        },
{
}

/// The playback, the devices and the listings of the user are asked for anew whenever that is
/// wanted, whatever is known of them. A listing begins with nothing, at its first page, and is
/// asked for in pages of fifty.
pub proof fn library_is_asked_for_anew(
    before: PlayerState,
    now: u64,
    after: PlayerState,
    step: Step,
)
    ensures
        begins_with(before, now, Event::GetCurrentPlayback, after, step) ==> match step {
            Step::GetCurrentPlayback(query) => {
                &&& query.market is None
                &&& query.additional_types is None
            },
            _ => false,
        },
        begins_with(before, now, Event::GetDevices, after, step) ==> step is GetDevices,
        begins_with(before, now, Event::GetUserPlaylists, after, step) ==> match step {
            Step::GetUserPlaylists(so_far, PageSource::First(query)) => {
                &&& so_far@.len() == 0
                &&& query.limit == 50
                &&& query.offset is None
            },
            _ => false,
        },
        begins_with(before, now, Event::GetUserFollowedArtists, after, step) ==> match step {
            Step::GetUserFollowedArtists(so_far, PageSource::First(query)) => {
                &&& so_far@.len() == 0
                &&& query.limit == 50
                &&& query.after is None
            },
            _ => false,
        },
        begins_with(before, now, Event::GetUserSavedAlbums, after, step) ==> match step {
            Step::GetUserSavedAlbums(so_far, PageSource::First(query)) => {
                &&& so_far@.len() == 0
                &&& query.limit == 50
                &&& query.offset is None
            },
            _ => false,
        },
{
}

/// A playlist, an album or an artist that is not in the cache is asked for, by its own address,
/// whatever else is known.
pub proof fn missing_context_is_asked_for(
    before: PlayerState,
    now: u64,
    uri: String,
    after: PlayerState,
    step: Step,
)
    requires
        lookup(cache_entries(before.context_cache), uri@) is None,
    ensures
        begins_with(
            before,
            now,
            Event::GetContext(ContextURI::Playlist(uri)),
            after,
            step,
        ) ==> match step {
            Step::GetPlaylist(same_uri, query) => {
                &&& same_uri == uri
                &&& asks_for_playlist(query, uri@)
            },
            _ => false,
        },
        begins_with(
            before,
            now,
            Event::GetContext(ContextURI::Album(uri)),
            after,
            step,
        ) ==> match step {
            Step::GetAlbum(same_uri, query) => {
                &&& same_uri == uri
                &&& query.album_uri@ == uri@
            },
            _ => false,
        },
        begins_with(
            before,
            now,
            Event::GetContext(ContextURI::Artist(uri)),
            after,
            step,
        ) ==> match step {
            Step::GetArtist(same_uri, query) => {
                &&& same_uri == uri
                &&& query.artist_uri@ == uri@
            },
            _ => false,
        },
{
}

/// A context of an unknown kind is put into the cache under its address, whether or not something
/// is there.
pub proof fn unknown_context_is_put(
    before: PlayerState,
    now: u64,
    uri: String,
    after: PlayerState,
    step: Step,
)
    requires
        begins_with(before, now, Event::GetContext(ContextURI::Unknown(uri)), after, step),
    ensures
        puts(before, after, uri@, ContextView::Unknown(uri@)),
{
}

/// A page of the user's playlists adds all its items behind the others. Nothing is noted before the
/// last page; with it all of them are noted in place of those that were, and nothing else changes.
/// A page that failed changes nothing, and ends the fetch with its reason.
pub proof fn page_of_playlists_adds_all_its_items(
    client: Client,
    before: PlayerState,
    so_far: Vec<SimplifiedPlaylist>,
    reply: Result<Page<SimplifiedPlaylist>, String>,
    after: PlayerState,
    step: Step,
)
    requires
        user_playlists_go_on(client, before, so_far, reply, after, step),
    ensures
        after.token == before.token,
        after.playback == before.playback,
        after.playback_last_updated == before.playback_last_updated,
        after.devices == before.devices,
        after.user_followed_artists == before.user_followed_artists,
        after.user_saved_albums == before.user_saved_albums,
        after.context_uri == before.context_uri,
        after.context_cache == before.context_cache,
        reply matches Err(reason) ==> after == before && step == Step::Failed(
            ClientError::Request(reason),
        ),
        reply matches Ok(page) ==> match page.next {
            Some(url) => after == before && match step {
                Step::GetUserPlaylists(items, PageSource::Next(request)) => {
                    &&& items@ == so_far@ + page.items@
                    &&& client.requests(request, url@)
                },
                _ => false,
            },
            None => {
                &&& step == (Step::Done { update_playback: false })
                &&& after.user_playlists@ == so_far@ + page.items@
            },
        },
{
}

/// A page of the artists that the user follows adds all its items behind the others. Nothing is
/// noted before the last page; with it all of them are noted in place of those that were, and
/// nothing else changes. A page that failed changes nothing, and ends the fetch with its reason.
pub proof fn page_of_followed_artists_adds_all_its_items(
    client: Client,
    before: PlayerState,
    so_far: Vec<FullArtist>,
    reply: Result<Page<FullArtist>, String>,
    after: PlayerState,
    step: Step,
)
    requires
        user_followed_artists_go_on(client, before, so_far, reply, after, step),
    ensures
        after.token == before.token,
        after.playback == before.playback,
        after.playback_last_updated == before.playback_last_updated,
        after.devices == before.devices,
        after.user_playlists == before.user_playlists,
        after.user_saved_albums == before.user_saved_albums,
        after.context_uri == before.context_uri,
        after.context_cache == before.context_cache,
        reply matches Err(reason) ==> after == before && step == Step::Failed(
            ClientError::Request(reason),
        ),
        reply matches Ok(page) ==> match page.next {
            Some(url) => after == before && match step {
                Step::GetUserFollowedArtists(items, PageSource::Next(request)) => {
                    &&& items@ == so_far@ + page.items@
                    &&& client.requests(request, url@)
                },
                _ => false,
            },
            None => {
                &&& step == (Step::Done { update_playback: false })
                &&& after.user_followed_artists.deep_view() == artists_of(
                    so_far.deep_view() + page.items.deep_view(),
                )
            },
        },
{
}

/// A page of the albums in the user's library adds all its items behind the others. Nothing is
/// noted before the last page; with it all of them are noted in place of those that were, and
/// nothing else changes. A page that failed changes nothing, and ends the fetch with its reason.
pub proof fn page_of_saved_albums_adds_all_its_items(
    client: Client,
    before: PlayerState,
    so_far: Vec<SavedAlbum>,
    reply: Result<Page<SavedAlbum>, String>,
    after: PlayerState,
    step: Step,
)
    requires
        user_saved_albums_go_on(client, before, so_far, reply, after, step),
    ensures
        after.token == before.token,
        after.playback == before.playback,
        after.playback_last_updated == before.playback_last_updated,
        after.devices == before.devices,
        after.user_playlists == before.user_playlists,
        after.user_followed_artists == before.user_followed_artists,
        after.context_uri == before.context_uri,
        after.context_cache == before.context_cache,
        reply matches Err(reason) ==> after == before && step == Step::Failed(
            ClientError::Request(reason),
        ),
        reply matches Ok(page) ==> match page.next {
            Some(url) => after == before && match step {
                Step::GetUserSavedAlbums(items, PageSource::Next(request)) => {
                    &&& items@ == so_far@ + page.items@
                    &&& client.requests(request, url@)
                },
                _ => false,
            },
            None => {
                &&& step == (Step::Done { update_playback: false })
                &&& after.user_saved_albums.deep_view() == saved_albums_of(
                    so_far.deep_view() + page.items.deep_view(),
                )
            },
        },
{
}

/// A step that asks for something is performed as it is. An event that is handled updates the
/// playback exactly where its last step says so, and gives no warning. One that failed does not
/// update the playback, and warns with the text of its error.
pub proof fn outcome_of_an_event_is_told(step: Step, action: HandlerAction)
    requires
        follows(step, action),
    ensures
        step !is Done && step !is Failed ==> action == HandlerAction::Perform(step),
        step matches Step::Done { update_playback: changed } ==> match action {
            HandlerAction::Receive { update_playback, warning } => {
                &&& update_playback == changed
                &&& warning is None
            },
            _ => false,
        },
        step matches Step::Failed(error) ==> match action {
            HandlerAction::Receive { update_playback, warning: Some(warning) } => {
                &&& !update_playback
                &&& warning@ == error.text()
            },
            _ => false,
        },
{
}

/// What is received is taken up as its own event, at the time that it is, and nothing changes once
/// no more events can come.
pub proof fn received_event_is_begun(
    before: PlayerState,
    now: u64,
    received: Option<Event>,
    after: PlayerState,
    step: Step,
    action: HandlerAction,
)
    requires
        takes_up(before, now, received, after, step, action),
    ensures
        received matches Some(event) ==> begins_with(before, now, event, after, step) && follows(
            step,
            action,
        ),
        received is None ==> after == before && action == HandlerAction::Stop,
{
}

} // verus!
