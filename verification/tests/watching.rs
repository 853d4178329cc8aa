use lru::LruCache;
use spotify_player::client::Client;
use spotify_player::event::{ContextURI, Event};
use spotify_player::model::{
    CurrentlyPlaybackContext, Device, PlayingContext, RepeatState, Type,
};
use spotify_player::state::{PageState, PlayerState, Token};
use spotify_player::watcher::{
    playback_refresh_interval, poll_playback, start_player_event_watchers, PollerAction,
    WatcherAction,
};
use std::num::NonZeroUsize;

fn playback(context: Option<PlayingContext>, is_playing: bool) -> CurrentlyPlaybackContext {
    CurrentlyPlaybackContext {
        device: Device {
            id: "speaker".to_string(),
            name: "Speaker".to_string(),
            is_active: true,
            volume_percent: 40,
        },
        repeat_state: RepeatState::Off,
        shuffle_state: false,
        context,
        progress_ms: Some(1000),
        is_playing,
        item: None,
    }
}

fn playing(uri: &str, kind: Type) -> Option<CurrentlyPlaybackContext> {
    Some(playback(Some(PlayingContext { uri: uri.to_string(), _type: kind }), true))
}

fn player(playback: Option<CurrentlyPlaybackContext>, context_uri: &str) -> PlayerState {
    PlayerState {
        token: Token { access_token: "secret".to_string(), expires_at: 100 },
        playback,
        playback_last_updated: None,
        devices: vec![],
        user_playlists: vec![],
        user_followed_artists: vec![],
        user_saved_albums: vec![],
        context_uri: context_uri.to_string(),
        context_cache: LruCache::new(NonZeroUsize::new(2).unwrap()),
    }
}

fn watch(player: &PlayerState, page: PageState) -> Vec<WatcherAction> {
    start_player_event_watchers(0, player, None, None, &page)
}

fn show(uri: &str) -> WatcherAction {
    WatcherAction::UpdateContext(uri.to_string())
}

fn ask_for(context: ContextURI) -> WatcherAction {
    WatcherAction::Send(Event::GetContext(context))
}

#[test]
fn nothing_is_done_where_nothing_is_known() {
    assert!(watch(&player(None, "x"), PageState::CurrentPlaying).is_empty());
}

#[test]
fn an_expired_token_is_refreshed() {
    let player = player(None, "");
    let page = PageState::CurrentPlaying;
    assert!(start_player_event_watchers(100, &player, None, None, &page).is_empty());
    assert_eq!(
        start_player_event_watchers(101, &player, None, None, &page),
        vec![WatcherAction::Send(Event::RefreshToken)]
    );
}

#[test]
fn the_playback_is_refreshed_when_a_track_ends() {
    let page = PageState::CurrentPlaying;
    let refresh = vec![WatcherAction::Send(Event::GetCurrentPlayback)];
    let on = player(Some(playback(None, true)), "");
    let off = player(Some(playback(None, false)), "");
    let watch = |player: &PlayerState, progress, duration| {
        start_player_event_watchers(0, player, progress, duration, &page)
    };
    assert!(watch(&on, Some(999), Some(1000)).is_empty());
    assert_eq!(watch(&on, Some(1000), Some(1000)), refresh);
    assert_eq!(watch(&on, Some(1001), Some(1000)), refresh);
    assert!(watch(&off, Some(1001), Some(1000)).is_empty());
    assert!(watch(&on, None, Some(1000)).is_empty());
    assert!(watch(&on, Some(1001), None).is_empty());
    assert!(watch(&player(None, ""), Some(1001), Some(1000)).is_empty());
}

#[test]
fn what_the_user_browses_is_shown() {
    let player = player(playing("played", Type::Album), "shown");
    assert_eq!(
        watch(&player, PageState::Browsing("opened".to_string())),
        vec![show("opened")]
    );
    assert!(watch(&player, PageState::Browsing("shown".to_string())).is_empty());
}

#[test]
fn what_is_played_is_shown_and_asked_for() {
    let cases = vec![
        (Type::Playlist, ContextURI::Playlist("u".to_string())),
        (Type::Album, ContextURI::Album("u".to_string())),
        (Type::Artist, ContextURI::Artist("u".to_string())),
        (Type::Show, ContextURI::Unknown("u".to_string())),
        (Type::Track, ContextURI::Unknown("u".to_string())),
    ];
    for (kind, context) in cases {
        let player = player(playing("u", kind), "shown");
        assert_eq!(
            watch(&player, PageState::CurrentPlaying),
            vec![show("u"), ask_for(context)]
        );
    }
}

#[test]
fn what_is_played_and_in_the_cache_is_shown_alone() {
    let client = Client { access_token: None };
    let mut player = player(playing("u", Type::Album), "shown");
    let event = Event::GetContext(ContextURI::Unknown("u".to_string()));
    client.handle_event(&mut player, 0, event);
    assert_eq!(watch(&player, PageState::CurrentPlaying), vec![show("u")]);
}

#[test]
fn what_is_played_and_shown_is_left_alone() {
    let player = player(playing("u", Type::Album), "u");
    assert!(watch(&player, PageState::CurrentPlaying).is_empty());
}

#[test]
fn playback_without_a_context_clears_what_is_shown() {
    let before = player(Some(playback(None, true)), "shown");
    assert_eq!(
        watch(&before, PageState::CurrentPlaying),
        vec![show(""), ask_for(ContextURI::Unknown(String::new()))]
    );
    let after = player(Some(playback(None, true)), "");
    assert!(watch(&after, PageState::CurrentPlaying).is_empty());
}

#[test]
fn the_token_comes_before_the_playback_and_the_context() {
    let player = player(playing("u", Type::Playlist), "");
    let actions = start_player_event_watchers(
        101,
        &player,
        Some(5),
        Some(5),
        &PageState::CurrentPlaying,
    );
    assert_eq!(
        actions,
        vec![
            WatcherAction::Send(Event::RefreshToken),
            WatcherAction::Send(Event::GetCurrentPlayback),
            show("u"),
            ask_for(ContextURI::Playlist("u".to_string())),
        ]
    );
}

#[test]
fn the_poller_asks_for_the_playback_and_then_waits() {
    assert_eq!(
        poll_playback(Some(2500)),
        vec![PollerAction::Send(Event::GetCurrentPlayback), PollerAction::Sleep(2500)]
    );
    assert!(poll_playback(None).is_empty());
}

#[test]
fn polling_is_switched_off_by_zero() {
    assert_eq!(playback_refresh_interval(0), None);
    assert_eq!(playback_refresh_interval(1), Some(1));
    assert_eq!(playback_refresh_interval(2500), Some(2500));
}
