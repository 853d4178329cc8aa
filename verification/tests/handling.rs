use lru::LruCache;
use spotify_player::client::Client;
use spotify_player::event::{Event, PlayerEvent};
use spotify_player::handler::{after_step, start_client_handler, HandlerAction};
use spotify_player::model::{
    CurrentlyPlaybackContext, Device, FullAlbum, FullArtist, Page, RepeatState, SavedAlbum,
    SimplifiedPlaylist,
};
use spotify_player::request::{
    ClientError, CurrentPlaybackQuery, DevicesQuery, PageSource, PlayerCommand, Step,
};
use spotify_player::state::{PlayerState, Token};
use std::num::NonZeroUsize;

const DONE: Step = Step::Done { update_playback: false };

fn client() -> Client {
    Client { access_token: Some("secret".to_string()) }
}

fn device(id: &str) -> Device {
    Device {
        id: id.to_string(),
        name: id.to_string(),
        is_active: true,
        volume_percent: 40,
    }
}

fn playback() -> CurrentlyPlaybackContext {
    CurrentlyPlaybackContext {
        device: device("speaker"),
        repeat_state: RepeatState::Off,
        shuffle_state: false,
        context: None,
        progress_ms: Some(1000),
        is_playing: true,
        item: None,
    }
}

fn player(playback: Option<CurrentlyPlaybackContext>) -> PlayerState {
    PlayerState {
        token: Token { access_token: "secret".to_string(), expires_at: 100 },
        playback,
        playback_last_updated: None,
        devices: vec![],
        user_playlists: vec![],
        user_followed_artists: vec![],
        user_saved_albums: vec![],
        context_uri: String::new(),
        context_cache: LruCache::new(NonZeroUsize::new(2).unwrap()),
    }
}

fn failed(reason: &str) -> Step {
    Step::Failed(ClientError::Request(reason.to_string()))
}

fn listed_playlist(name: &str) -> SimplifiedPlaylist {
    SimplifiedPlaylist {
        id: format!("{} id", name),
        uri: format!("{} uri", name),
        name: name.to_string(),
    }
}

fn artist(name: &str) -> FullArtist {
    FullArtist {
        id: format!("{} id", name),
        uri: format!("{} uri", name),
        name: name.to_string(),
    }
}

fn saved_album(name: &str) -> SavedAlbum {
    SavedAlbum {
        album: FullAlbum {
            id: format!("{} id", name),
            uri: format!("{} uri", name),
            name: name.to_string(),
            artists: vec![],
            release_date: "2000".to_string(),
            tracks: Page { items: vec![], next: None },
        },
    }
}

#[test]
fn player_events_become_commands() {
    let mut player = player(Some(playback()));
    let step = client().handle_event(&mut player, 0, Event::Player(PlayerEvent::NextTrack));
    assert_eq!(
        step,
        Step::Command(PlayerCommand::NextTrack { device_id: Some("speaker".to_string()) })
    );
}

#[test]
fn player_events_fail_without_playback() {
    let mut player = player(None);
    let step = client().handle_event(&mut player, 0, Event::Player(PlayerEvent::NextTrack));
    assert_eq!(step, Step::Failed(ClientError::NoPlayback));
}

#[test]
fn playback_is_transferred_without_playback() {
    let mut player = player(None);
    let event = Event::TransferPlayback("phone".to_string(), false);
    assert_eq!(
        client().handle_event(&mut player, 0, event),
        Step::Command(PlayerCommand::TransferPlayback {
            device_id: "phone".to_string(),
            force_play: false,
        })
    );
}

#[test]
fn a_command_that_succeeds_updates_the_playback() {
    assert_eq!(client().command_answered(Ok(())), Step::Done { update_playback: true });
    assert_eq!(client().command_answered(Err("no device".to_string())), failed("no device"));
}

#[test]
fn a_token_is_refreshed_only_after_it_has_expired() {
    let mut player = player(None);
    assert_eq!(client().handle_event(&mut player, 99, Event::RefreshToken), DONE);
    assert_eq!(client().handle_event(&mut player, 100, Event::RefreshToken), DONE);
    assert_eq!(client().handle_event(&mut player, 101, Event::RefreshToken), Step::GetToken);
}

#[test]
fn a_new_token_is_used_and_noted() {
    let mut player = player(None);
    let mut client = client();
    let token = Token { access_token: "fresh".to_string(), expires_at: 900 };
    assert_eq!(client.token_received(&mut player, Ok(token.clone())), DONE);
    assert_eq!(player.token, token);
    assert_eq!(client.internal_call("u").authorization, "Bearer fresh");
}

#[test]
fn without_a_new_token_the_old_one_stays() {
    let mut player = player(None);
    let mut client = client();
    let step = client.token_received(&mut player, Err("denied".to_string()));
    assert_eq!(step, failed("denied"));
    assert_eq!(player.token.access_token, "secret");
    assert_eq!(client.access_token, Some("secret".to_string()));
}

#[test]
fn the_playback_is_noted_with_its_time() {
    let mut player = player(None);
    let step = client().handle_event(&mut player, 7, Event::GetCurrentPlayback);
    let query = CurrentPlaybackQuery { market: None, additional_types: None };
    assert_eq!(step, Step::GetCurrentPlayback(query));
    let step = client().update_current_playback_state(&mut player, 8, Ok(Some(playback())));
    assert_eq!(step, DONE);
    assert_eq!(player.playback, Some(playback()));
    assert_eq!(player.playback_last_updated, Some(8));
    let step = client().update_current_playback_state(&mut player, 9, Err("offline".to_string()));
    assert_eq!(step, failed("offline"));
    assert_eq!(player.playback_last_updated, Some(8));
    let step = client().update_current_playback_state(&mut player, 10, Ok(None));
    assert_eq!(step, DONE);
    assert_eq!(player.playback, None);
    assert_eq!(player.playback_last_updated, Some(10));
}

#[test]
fn the_devices_are_noted() {
    let mut player = player(None);
    let step = client().handle_event(&mut player, 0, Event::GetDevices);
    assert_eq!(step, Step::GetDevices(DevicesQuery));
    let devices = vec![device("a"), device("b")];
    assert_eq!(client().devices_received(&mut player, Ok(devices.clone())), DONE);
    assert_eq!(player.devices, devices);
    let step = client().devices_received(&mut player, Err("offline".to_string()));
    assert_eq!(step, failed("offline"));
    assert_eq!(player.devices, devices);
}

#[test]
fn the_playlists_of_all_pages_are_noted() {
    let mut player = player(None);
    let step = client().handle_event(&mut player, 0, Event::GetUserPlaylists);
    let items = match step {
        Step::GetUserPlaylists(items, source) => {
            assert_eq!(source, client().get_current_user_playlists());
            items
        }
        other => panic!("{:?}", other),
    };
    let page = Page { items: vec![listed_playlist("a")], next: Some("page 2".to_string()) };
    let step = client().user_playlists_received(&mut player, items, Ok(page));
    assert!(player.user_playlists.is_empty());
    let items = match step {
        Step::GetUserPlaylists(items, PageSource::Next(request)) => {
            assert_eq!(request.url, "page 2");
            items
        }
        other => panic!("{:?}", other),
    };
    let page = Page { items: vec![listed_playlist("b")], next: None };
    assert_eq!(client().user_playlists_received(&mut player, items, Ok(page)), DONE);
    assert_eq!(player.user_playlists, vec![listed_playlist("a"), listed_playlist("b")]);
    let step =
        client().user_playlists_received(&mut player, vec![], Err("offline".to_string()));
    assert_eq!(step, failed("offline"));
    assert_eq!(player.user_playlists.len(), 2);
}

#[test]
fn the_followed_artists_of_all_pages_are_noted() {
    let mut player = player(None);
    let step = client().handle_event(&mut player, 0, Event::GetUserFollowedArtists);
    let items = match step {
        Step::GetUserFollowedArtists(items, source) => {
            assert_eq!(source, client().get_current_user_followed_artists());
            items
        }
        other => panic!("{:?}", other),
    };
    let page = Page { items: vec![artist("a")], next: Some("page 2".to_string()) };
    let step = client().user_followed_artists_received(&mut player, items, Ok(page));
    let items = match step {
        Step::GetUserFollowedArtists(items, PageSource::Next(request)) => {
            assert_eq!(request.url, "page 2");
            items
        }
        other => panic!("{:?}", other),
    };
    let page = Page { items: vec![artist("b")], next: None };
    let step = client().user_followed_artists_received(&mut player, items, Ok(page));
    assert_eq!(step, DONE);
    let names: Vec<&str> =
        player.user_followed_artists.iter().map(|artist| artist.name.as_str()).collect();
    assert_eq!(names, vec!["a", "b"]);
    assert_eq!(player.user_followed_artists[1].uri, Some("b uri".to_string()));
    let step =
        client().user_followed_artists_received(&mut player, vec![], Err("offline".to_string()));
    assert_eq!(step, failed("offline"));
}

#[test]
fn the_saved_albums_of_all_pages_are_noted() {
    let mut player = player(None);
    let step = client().handle_event(&mut player, 0, Event::GetUserSavedAlbums);
    let items = match step {
        Step::GetUserSavedAlbums(items, source) => {
            assert_eq!(source, client().get_current_user_saved_albums());
            items
        }
        other => panic!("{:?}", other),
    };
    let page = Page { items: vec![saved_album("a")], next: Some("page 2".to_string()) };
    let step = client().user_saved_albums_received(&mut player, items, Ok(page));
    let items = match step {
        Step::GetUserSavedAlbums(items, PageSource::Next(request)) => {
            assert_eq!(request.url, "page 2");
            items
        }
        other => panic!("{:?}", other),
    };
    let page = Page { items: vec![saved_album("b")], next: None };
    assert_eq!(client().user_saved_albums_received(&mut player, items, Ok(page)), DONE);
    let names: Vec<&str> =
        player.user_saved_albums.iter().map(|album| album.name.as_str()).collect();
    assert_eq!(names, vec!["a", "b"]);
    assert_eq!(player.user_saved_albums[0].id, Some("a id".to_string()));
    let step =
        client().user_saved_albums_received(&mut player, vec![], Err("offline".to_string()));
    assert_eq!(step, failed("offline"));
}

#[test]
fn the_loop_stops_when_no_more_events_can_come() {
    let mut player = player(None);
    assert_eq!(start_client_handler(&client(), &mut player, 0, None), HandlerAction::Stop);
}

#[test]
fn the_loop_performs_the_first_step_of_an_event() {
    let mut player = player(None);
    assert_eq!(
        start_client_handler(&client(), &mut player, 0, Some(Event::GetDevices)),
        HandlerAction::Perform(Step::GetDevices(DevicesQuery))
    );
}

#[test]
fn the_loop_warns_of_a_failure_and_goes_on() {
    let mut player = player(None);
    let event = Event::Player(PlayerEvent::Shuffle);
    assert_eq!(
        start_client_handler(&client(), &mut player, 0, Some(event)),
        HandlerAction::Receive {
            update_playback: false,
            warning: Some("failed to get the current playback context".to_string()),
        }
    );
    assert_eq!(
        after_step(failed("timed out")),
        HandlerAction::Receive {
            update_playback: false,
            warning: Some("timed out".to_string()),
        }
    );
}

#[test]
fn the_loop_handles_every_event_in_order() {
    let mut player = player(None);
    let client = client();
    let mut queue = vec![
        Event::GetDevices,
        Event::Player(PlayerEvent::Shuffle),
        Event::GetCurrentPlayback,
        Event::RefreshToken,
    ]
    .into_iter();
    let mut performed = vec![];
    let mut warnings = 0;
    let mut action = HandlerAction::Receive { update_playback: false, warning: None };
    while action != HandlerAction::Stop {
        action = match action {
            HandlerAction::Receive { warning, .. } => {
                warnings += warning.into_iter().count();
                start_client_handler(&client, &mut player, 0, queue.next())
            }
            HandlerAction::Perform(Step::GetDevices(_)) => {
                performed.push("devices");
                after_step(client.devices_received(&mut player, Err("offline".to_string())))
            }
            HandlerAction::Perform(Step::GetCurrentPlayback(_)) => {
                performed.push("playback");
                after_step(client.update_current_playback_state(&mut player, 3, Ok(None)))
            }
            other => panic!("{:?}", other),
        };
    }
    assert_eq!(performed, vec!["devices", "playback"]);
    assert_eq!(warnings, 2);
    assert_eq!(player.playback_last_updated, Some(3));
}

#[test]
fn the_loop_waits_for_an_event_after_the_last_step() {
    assert_eq!(
        after_step(Step::Done { update_playback: true }),
        HandlerAction::Receive { update_playback: true, warning: None }
    );
    assert_eq!(
        after_step(DONE),
        HandlerAction::Receive { update_playback: false, warning: None }
    );
    assert_eq!(after_step(Step::GetToken), HandlerAction::Perform(Step::GetToken));
}
