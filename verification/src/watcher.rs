//! The watching of the player: what is to be asked of the client as time goes by.
use crate::cache::{cache_entries, cache_peek, lookup};
use crate::event::{ContextURI, ContextURIView, Event};
use crate::model::{CurrentlyPlaybackContext, PlayingContext, Type};
use crate::state::{PageState, PlayerState};
use vstd::prelude::*;

verus! {

/// What the watcher does.
#[derive(Debug, PartialEq, Eq)]
pub enum WatcherAction {
    /// Sends an event to the client.
    Send(Event),
    /// Has the user interface show another context.
    UpdateContext(String),
}

/// The meaning of a `WatcherAction`.
pub enum WatcherActionView {
    RefreshToken,
    GetCurrentPlayback,
    GetContext(ContextURIView),
    UpdateContext(Seq<char>),
    /// An event of another kind, which the watcher never sends.
    Other(Event),
}

impl DeepView for WatcherAction {
    type V = WatcherActionView;

    open spec fn deep_view(&self) -> WatcherActionView {
        match self {
            WatcherAction::Send(Event::RefreshToken) => WatcherActionView::RefreshToken,
            WatcherAction::Send(Event::GetCurrentPlayback) => WatcherActionView::GetCurrentPlayback,
            WatcherAction::Send(Event::GetContext(context)) => WatcherActionView::GetContext(
                context.deep_view(),
            ),
            WatcherAction::Send(event) => WatcherActionView::Other(*event),
            WatcherAction::UpdateContext(uri) => WatcherActionView::UpdateContext(uri@),
        }
    }
}

/// The token is asked for anew once it has expired.
pub open spec fn token_actions(now: u64, player: PlayerState) -> Seq<WatcherActionView> {
    if now > player.token.expires_at {
        seq![WatcherActionView::RefreshToken]
    } else {
        seq![]
    }
}

/// The state of the player is asked for once the track that is playing has come to its end.
pub open spec fn playback_actions(
    player: PlayerState,
    progress_ms: Option<u32>,
    duration_ms: Option<u32>,
) -> Seq<WatcherActionView> {
    match (player.playback, progress_ms, duration_ms) {
        (Some(playback), Some(progress_ms), Some(duration_ms)) => if playback.is_playing
            && progress_ms >= duration_ms {
            seq![WatcherActionView::GetCurrentPlayback]
        } else {
            seq![]
        },
        _ => seq![],
    }
}

/// The address of a context that is played, by its kind.
pub open spec fn playing_context_uri(context: PlayingContext) -> ContextURIView {
    match context._type {
        Type::Playlist => ContextURIView::Playlist(context.uri@),
        Type::Album => ContextURIView::Album(context.uri@),
        Type::Artist => ContextURIView::Artist(context.uri@),
        _ => ContextURIView::Unknown(context.uri@),
    }
}

/// What is shown follows what the user has opened, or else what is played. A context that is
/// played and not in the cache is asked for.
pub open spec fn context_actions(player: PlayerState, page: PageState) -> Seq<WatcherActionView> {
    match page {
        PageState::Browsing(uri) => if player.context_uri@ != uri@ {
            seq![WatcherActionView::UpdateContext(uri@)]
        } else {
            seq![]
        },
        PageState::CurrentPlaying => match player.playback {
            Some(playback) => match playback.context {
                Some(context) => if context.uri@ == player.context_uri@ {
                    seq![]
                } else if lookup(cache_entries(player.context_cache), context.uri@) is Some {
                    seq![WatcherActionView::UpdateContext(context.uri@)]
                } else {
                    seq![
                        WatcherActionView::UpdateContext(context.uri@),
                        WatcherActionView::GetContext(playing_context_uri(context)),
                    ]
                },
                None => if player.context_uri@.len() > 0 {
                    seq![
                        WatcherActionView::UpdateContext(Seq::empty()),
                        WatcherActionView::GetContext(ContextURIView::Unknown(Seq::empty())),
                    ]
                } else {
                    seq![]
                },
            },
            None => seq![],
        },
    }
}

/// One round of the watchers: what they do, given how far the current track has come, how long it
/// is, and what the user interface shows.
pub fn start_player_event_watchers(
    now: u64,
    player: &PlayerState,
    progress_ms: Option<u32>,
    duration_ms: Option<u32>,
    page: &PageState,
) -> (actions: Vec<WatcherAction>)
    ensures
        actions.deep_view() == token_actions(now, *player) + playback_actions(
            *player,
            progress_ms,
            duration_ms,
        ) + context_actions(*player, *page),
{
    let mut actions: Vec<WatcherAction> = Vec::new();
    assert(actions.deep_view() =~= seq![]);
    if now > player.token.expires_at {
        actions.push(WatcherAction::Send(Event::RefreshToken));
    }
    assert(actions.deep_view() =~= token_actions(now, *player));
    let is_playing: bool = match &player.playback {
        Some(playback) => playback.is_playing,
        None => false,
    };
    if let (Some(progress_ms), Some(duration_ms)) = (progress_ms, duration_ms) {
        if progress_ms >= duration_ms && is_playing {
            actions.push(WatcherAction::Send(Event::GetCurrentPlayback));
        }
    }
    assert(actions.deep_view() =~= token_actions(now, *player) + playback_actions(
        *player,
        progress_ms,
        duration_ms,
    ));
    let ghost before = actions.deep_view();
    match page {
        PageState::Browsing(uri) => {
            if !(player.context_uri == *uri) {
                actions.push(WatcherAction::UpdateContext(uri.clone()));
            }
        },
        PageState::CurrentPlaying => {
            if let Some(playback) = &player.playback {
                match &playback.context {
                    Some(context) => {
                        if !(context.uri == player.context_uri) {
                            actions.push(WatcherAction::UpdateContext(context.uri.clone()));
                            if cache_peek(&player.context_cache, &context.uri).is_none() {
                                let uri: String = context.uri.clone();
                                let context_uri: ContextURI = match context._type {
                                    Type::Playlist => ContextURI::Playlist(uri),
                                    Type::Album => ContextURI::Album(uri),
                                    Type::Artist => ContextURI::Artist(uri),
                                    _ => ContextURI::Unknown(uri),
                                };
                                actions.push(WatcherAction::Send(Event::GetContext(context_uri)));
                            }
                        }
                    },
                    None => {
                        if !player.context_uri.as_str().is_empty() {
                            actions.push(WatcherAction::UpdateContext(String::new()));
                            actions.push(
                                WatcherAction::Send(
                                    Event::GetContext(ContextURI::Unknown(String::new())),
                                ),
                            );
                        }
                    },
                }
            }
        },
    }
    assert(actions.deep_view() =~= before + context_actions(*player, *page));
    actions
}

/// How often the state of the player is asked for regardless of what happens, in milliseconds:
/// never, if that is set to zero.
pub open spec fn refresh_interval(playback_refresh_duration_in_ms: u64) -> Option<u64> {
    if playback_refresh_duration_in_ms > 0 {
        Some(playback_refresh_duration_in_ms)
    } else {
        None
    }
}

/// How often the state of the player is asked for regardless of what happens, in milliseconds:
/// never, if that is set to zero.
pub fn playback_refresh_interval(playback_refresh_duration_in_ms: u64) -> (interval: Option<u64>)
    ensures
        interval == refresh_interval(playback_refresh_duration_in_ms),
{
    if playback_refresh_duration_in_ms > 0 {
        Some(playback_refresh_duration_in_ms)
    } else {
        None
    }
}

/// What the poller does.
#[derive(Debug, PartialEq, Eq)]
pub enum PollerAction {
    /// Sends an event to the client.
    Send(Event),
    /// Waits for a number of milliseconds.
    Sleep(u64),
}

/// A turn of the poller: it asks for the state of the player, and then waits. Without an interval
/// it does nothing.
pub open spec fn poller_turn(interval: Option<u64>) -> Seq<PollerAction> {
    match interval {
        Some(interval_ms) => seq![
            PollerAction::Send(Event::GetCurrentPlayback),
            PollerAction::Sleep(interval_ms),
        ],
        None => seq![],
    }
}

/// What the poller does in one turn. The state of the player has no part in it.
pub fn poll_playback(interval: Option<u64>) -> (actions: Vec<PollerAction>)
    ensures
        actions@ == poller_turn(interval),
{
    let mut actions: Vec<PollerAction> = Vec::new();
    if let Some(interval_ms) = interval {
        actions.push(PollerAction::Send(Event::GetCurrentPlayback));
        actions.push(PollerAction::Sleep(interval_ms));
    }
    assert(actions@ =~= poller_turn(interval));
    actions
}

/// What the poller does in a number of turns, one after the other.
pub open spec fn polling(interval: Option<u64>, turns: nat) -> Seq<PollerAction>
    decreases turns,
{
    if turns == 0 {
        Seq::empty()
    } else {
        polling(interval, (turns - 1) as nat) + poller_turn(interval)
    }
}

/// With an interval, the poller asks for the state of the player at once, and again after every
/// wait; each wait is as long as is set. It does nothing else.
pub proof fn poller_sends_before_every_wait(
    playback_refresh_duration_in_ms: u64,
    turns: nat,
    k: int,
)
    requires
        playback_refresh_duration_in_ms > 0,
        0 <= k < turns,
    ensures
        ({
            let actions = polling(refresh_interval(playback_refresh_duration_in_ms), turns);
            &&& actions.len() == 2 * turns
            &&& actions[2 * k] == PollerAction::Send(Event::GetCurrentPlayback)
            &&& actions[2 * k + 1] == PollerAction::Sleep(playback_refresh_duration_in_ms)
        }),
    decreases turns,
{
    let interval = refresh_interval(playback_refresh_duration_in_ms);
    let earlier = polling(interval, (turns - 1) as nat);
    if turns == 1 {
        assert(earlier =~= Seq::empty());
    } else if k < turns - 1 {
        poller_sends_before_every_wait(
            playback_refresh_duration_in_ms,
            (turns - 1) as nat,
            k,
        );
    } else {
        poller_sends_before_every_wait(playback_refresh_duration_in_ms, (turns - 1) as nat, 0);
    }
}

/// If polling is switched off, the poller does nothing, however often it has its turn.
pub proof fn nothing_is_polled_without_an_interval(turns: nat)
    ensures
        polling(refresh_interval(0), turns) == Seq::<PollerAction>::empty(),
    decreases turns,
{
    if turns > 0 {
        nothing_is_polled_without_an_interval((turns - 1) as nat);
    }
}

/// Apart from polling, the state of the player is asked for exactly when the track that is playing
/// has come to its end.
pub proof fn watcher_asks_for_playback_at_the_end_of_a_track_alone(
    now: u64,
    player: PlayerState,
    progress_ms: Option<u32>,
    duration_ms: Option<u32>,
    page: PageState,
)
    ensures
        ({
            let actions = token_actions(now, player) + playback_actions(
                player,
                progress_ms,
                duration_ms,
            ) + context_actions(player, page);
            actions.contains(WatcherActionView::GetCurrentPlayback) <==> {
                &&& player.playback matches Some(playback)
                &&& playback.is_playing
                &&& progress_ms matches Some(progress_ms)
                &&& duration_ms matches Some(duration_ms)
                &&& progress_ms >= duration_ms
            }
        }),
{
    let first = token_actions(now, player);
    let actions = first + playback_actions(player, progress_ms, duration_ms) + context_actions(
        player,
        page,
    );
    if playback_actions(player, progress_ms, duration_ms).len() > 0 {
        assert(actions[first.len() as int] == WatcherActionView::GetCurrentPlayback);
    }
}

/// Once the user interface shows the context that it should, the watcher has nothing more to do
/// about it, whatever else has changed.
pub proof fn shown_context_is_left_alone(player: PlayerState, page: PageState)
    requires
        match page {
            PageState::Browsing(uri) => player.context_uri@ == uri@,
            PageState::CurrentPlaying => match player.playback {
                Some(playback) => match playback.context {
                    Some(context) => player.context_uri@ == context.uri@,
                    None => player.context_uri@.len() == 0,
                },
                None => true,
            },
        },
    ensures
        context_actions(player, page) == Seq::<WatcherActionView>::empty(),
{
}

/// The watcher never asks for a playlist, an album or an artist that is in the cache.
pub proof fn cached_context_is_not_asked_for(
    now: u64,
    player: PlayerState,
    progress_ms: Option<u32>,
    duration_ms: Option<u32>,
    page: PageState,
    i: int,
    uri: Seq<char>,
)
    requires
        lookup(cache_entries(player.context_cache), uri) is Some,
    ensures
        ({
            let actions = token_actions(now, player) + playback_actions(
                player,
                progress_ms,
                duration_ms,
            ) + context_actions(player, page);
            0 <= i < actions.len() ==> {
                &&& actions[i] != WatcherActionView::GetContext(ContextURIView::Playlist(uri))
                &&& actions[i] != WatcherActionView::GetContext(ContextURIView::Album(uri))
                &&& actions[i] != WatcherActionView::GetContext(ContextURIView::Artist(uri))
            }
        }),
{
}

/// Before a context is asked for, the user interface is told to show it.
pub proof fn context_is_shown_before_it_is_asked_for(player: PlayerState, page: PageState, i: int)
    requires
        0 <= i < context_actions(player, page).len(),
        context_actions(player, page)[i] is GetContext,
    ensures
        i > 0,
        ({
            let uri = match context_actions(player, page)[i] {
                WatcherActionView::GetContext(ContextURIView::Playlist(uri)) => uri,
                WatcherActionView::GetContext(ContextURIView::Album(uri)) => uri,
                WatcherActionView::GetContext(ContextURIView::Artist(uri)) => uri,
                WatcherActionView::GetContext(ContextURIView::Unknown(uri)) => uri,
                _ => Seq::empty(),
            };
            context_actions(player, page)[i - 1] == WatcherActionView::UpdateContext(uri)
        }),
{
}

/// The token is refreshed in a round exactly where the time at which it expires has passed, once
/// and before anything else.
pub proof fn expired_token_is_refreshed(
    now: u64,
    player: PlayerState,
    progress_ms: Option<u32>,
    duration_ms: Option<u32>,
    page: PageState,
)
    ensures
        ({
            let actions = token_actions(now, player) + playback_actions(
                player,
                progress_ms,
                duration_ms,
            ) + context_actions(player, page);
            &&& player.token.expires_at < now ==> actions.len() > 0 && actions[0]
                == WatcherActionView::RefreshToken
            &&& forall|i: int|
                0 <= i < actions.len() && #[trigger] actions[i]
                    == WatcherActionView::RefreshToken ==> i == 0 && player.token.expires_at < now
        }),
{
}

/// The token and the playback each have one action at most, and that is the refreshing of the one
/// or the other.
pub proof fn token_and_playback_are_asked_for_once(
    now: u64,
    player: PlayerState,
    progress_ms: Option<u32>,
    duration_ms: Option<u32>,
)
    ensures
        token_actions(now, player).len() <= 1,
        forall|i: int|
            0 <= i < token_actions(now, player).len() ==> #[trigger] token_actions(now, player)[i]
                == WatcherActionView::RefreshToken,
        playback_actions(player, progress_ms, duration_ms).len() <= 1,
        forall|i: int|
            0 <= i < playback_actions(player, progress_ms, duration_ms).len() ==>
                #[trigger] playback_actions(player, progress_ms, duration_ms)[i]
                == WatcherActionView::GetCurrentPlayback,
{
}

/// While the user browses, exactly what they have opened is shown, wherever it is not shown yet.
/// Nothing is asked for, whatever is played and whatever is in the cache.
pub proof fn opened_context_is_shown(player: PlayerState, uri: String)
    ensures
        player.context_uri@ != uri@ ==> context_actions(player, PageState::Browsing(uri)) == seq![
            WatcherActionView::UpdateContext(uri@),
        ],
        player.context_uri@ == uri@ ==> context_actions(player, PageState::Browsing(uri)).len()
            == 0,
{
}

/// Otherwise the context of the playback is shown wherever it is not shown yet, and is asked for,
/// by its kind and its address, exactly where it is not in the cache. It makes no difference
/// whether the playback is paused, how far it has come, or what else it says.
pub proof fn played_context_is_shown_and_asked_for(
    player: PlayerState,
    playback: CurrentlyPlaybackContext,
    context: PlayingContext,
)
    requires
        player.playback == Some(playback),
        playback.context == Some(context),
        context.uri@ != player.context_uri@,
    ensures
        ({
            let actions = context_actions(player, PageState::CurrentPlaying);
            let asked_for = match context._type {
                Type::Playlist => ContextURIView::Playlist(context.uri@),
                Type::Album => ContextURIView::Album(context.uri@),
                Type::Artist => ContextURIView::Artist(context.uri@),
                _ => ContextURIView::Unknown(context.uri@),
            };
            let cached = lookup(cache_entries(player.context_cache), context.uri@) is Some;
            &&& actions.len() == if cached {
                1int
            } else {
                2int
            }
            &&& actions[0] == WatcherActionView::UpdateContext(context.uri@)
            &&& !cached ==> actions[1] == WatcherActionView::GetContext(asked_for)
        }),
{
}

/// Where the playback has no context, what is shown is cleared, and the empty context is asked for,
/// unless nothing is shown. It makes no difference whether the playback is paused, or what else it
/// says.
pub proof fn playback_without_context_clears_what_is_shown(
    player: PlayerState,
    playback: CurrentlyPlaybackContext,
)
    requires
        player.playback == Some(playback),
        playback.context is None,
        player.context_uri@.len() > 0,
    ensures
        context_actions(player, PageState::CurrentPlaying) == seq![
            WatcherActionView::UpdateContext(Seq::empty()),
            WatcherActionView::GetContext(ContextURIView::Unknown(Seq::empty())),
        ],
{
}

/// The view of an action tells what is sent or shown.
pub proof fn view_of_watcher_action_is_faithful(context: ContextURI, uri: String)
    ensures
        WatcherAction::Send(Event::RefreshToken).deep_view() == WatcherActionView::RefreshToken,
        WatcherAction::Send(Event::GetCurrentPlayback).deep_view()
            == WatcherActionView::GetCurrentPlayback,
        WatcherAction::Send(Event::GetContext(context)).deep_view()
            == WatcherActionView::GetContext(context.deep_view()),
        WatcherAction::UpdateContext(uri).deep_view() == WatcherActionView::UpdateContext(uri@),
{
}

/// An action that is not one of the four is told apart from them.
pub proof fn other_actions_are_told_apart(event: Event)
    requires
        event != Event::RefreshToken,
        event != Event::GetCurrentPlayback,
        event !is GetContext,
    ensures
        WatcherAction::Send(event).deep_view() == WatcherActionView::Other(event),
{
}

/// Polling is switched off by zero alone, and otherwise happens at exactly the interval that is
/// set.
pub proof fn polling_is_switched_off_by_zero_alone(playback_refresh_duration_in_ms: u64)
    ensures
        refresh_interval(playback_refresh_duration_in_ms) is None
            <==> playback_refresh_duration_in_ms == 0,
        refresh_interval(playback_refresh_duration_in_ms) matches Some(interval_ms) ==> interval_ms
            == playback_refresh_duration_in_ms,
{
}

/// In a turn the poller asks for the playback first, and then waits for exactly its interval;
/// without one it does nothing.
pub proof fn turn_of_the_poller_is_a_request_and_a_wait(interval_ms: u64)
    ensures
        poller_turn(Some(interval_ms)).len() == 2,
        poller_turn(Some(interval_ms))[0] == PollerAction::Send(Event::GetCurrentPlayback),
        poller_turn(Some(interval_ms))[1] == PollerAction::Sleep(interval_ms),
        poller_turn(None).len() == 0,
{
}

} // verus!
