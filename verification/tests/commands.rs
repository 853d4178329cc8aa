use lru::LruCache;
use spotify_player::client::Client;
use spotify_player::event::PlayerEvent;
use spotify_player::model::{CurrentlyPlaybackContext, Device, Offset, RepeatState};
use spotify_player::request::{ClientError, PlayerCommand};
use spotify_player::state::{PlayerState, Token};
use std::num::NonZeroUsize;

fn client() -> Client {
    Client { access_token: Some("secret".to_string()) }
}

fn playback() -> CurrentlyPlaybackContext {
    CurrentlyPlaybackContext {
        device: Device {
            id: "speaker".to_string(),
            name: "Speaker".to_string(),
            is_active: true,
            volume_percent: 40,
        },
        repeat_state: RepeatState::Off,
        shuffle_state: false,
        context: None,
        progress_ms: Some(1000),
        is_playing: true,
        item: None,
    }
}

fn player(playback: Option<CurrentlyPlaybackContext>) -> PlayerState {
    PlayerState {
        token: Token { access_token: "secret".to_string(), expires_at: 100 },
        playback,
        playback_last_updated: None,
        devices: vec![],
        user_playlists: vec![],
        user_followed_artists: vec![],
        user_saved_albums: vec![],
        context_uri: String::new(),
        context_cache: LruCache::new(NonZeroUsize::new(2).unwrap()),
    }
}

fn device_id() -> Option<String> {
    Some("speaker".to_string())
}

fn command(event: PlayerEvent) -> PlayerCommand {
    client().handle_player_event(&player(Some(playback())), event).unwrap()
}

#[test]
fn without_playback_no_command_is_chosen() {
    let result = client().handle_player_event(&player(None), PlayerEvent::NextTrack);
    assert_eq!(result, Err(ClientError::NoPlayback));
    assert_eq!(
        ClientError::NoPlayback.message(),
        "failed to get the current playback context"
    );
}

#[test]
fn the_message_of_a_failed_request_is_its_reason() {
    assert_eq!(ClientError::Request("timed out".to_string()).message(), "timed out");
}

#[test]
fn tracks_are_skipped() {
    assert_eq!(
        command(PlayerEvent::NextTrack),
        PlayerCommand::NextTrack { device_id: device_id() }
    );
    assert_eq!(
        command(PlayerEvent::PreviousTrack),
        PlayerCommand::PreviousTrack { device_id: device_id() }
    );
}

#[test]
fn what_plays_is_paused() {
    assert_eq!(
        command(PlayerEvent::ResumePause),
        PlayerCommand::PausePlayback { device_id: device_id() }
    );
}

#[test]
fn what_is_paused_is_resumed() {
    let paused = CurrentlyPlaybackContext { is_playing: false, ..playback() };
    assert_eq!(
        client().resume_pause(&paused),
        PlayerCommand::StartPlayback {
            device_id: device_id(),
            context_uri: None,
            uris: None,
            offset: None,
            position_ms: None,
        }
    );
    assert_eq!(client().resume_pause(&paused), client().resume_track(&paused));
}

#[test]
fn seeking_names_the_position() {
    assert_eq!(
        command(PlayerEvent::SeekTrack(61_500)),
        PlayerCommand::SeekTrack { position_ms: 61_500, device_id: device_id() }
    );
}

#[test]
fn repetition_goes_round() {
    let states = vec![
        (RepeatState::Off, RepeatState::Track),
        (RepeatState::Track, RepeatState::Context),
        (RepeatState::Context, RepeatState::Off),
    ];
    for (before, after) in states {
        let playback = CurrentlyPlaybackContext { repeat_state: before, ..playback() };
        assert_eq!(
            client().repeat(&playback),
            PlayerCommand::Repeat { state: after, device_id: device_id() }
        );
    }
}

#[test]
fn shuffling_is_toggled() {
    assert_eq!(
        command(PlayerEvent::Shuffle),
        PlayerCommand::Shuffle { state: true, device_id: device_id() }
    );
    let shuffled = CurrentlyPlaybackContext { shuffle_state: true, ..playback() };
    assert_eq!(
        client().shuffle(&shuffled),
        PlayerCommand::Shuffle { state: false, device_id: device_id() }
    );
}

#[test]
fn the_volume_is_set() {
    assert_eq!(
        command(PlayerEvent::Volume(35)),
        PlayerCommand::Volume { volume_percent: 35, device_id: device_id() }
    );
}

#[test]
fn a_track_is_played_from_its_context() {
    let offset = Offset { position: None, uri: Some("track".to_string()) };
    assert_eq!(
        command(PlayerEvent::PlayTrack(
            Some("album".to_string()),
            None,
            Some(offset.clone())
        )),
        PlayerCommand::StartPlayback {
            device_id: device_id(),
            context_uri: Some("album".to_string()),
            uris: None,
            offset: Some(offset),
            position_ms: None,
        }
    );
}

#[test]
fn tracks_are_played_from_a_list() {
    let uris = vec!["one".to_string(), "two".to_string()];
    assert_eq!(
        command(PlayerEvent::PlayTrack(None, Some(uris.clone()), None)),
        PlayerCommand::StartPlayback {
            device_id: device_id(),
            context_uri: None,
            uris: Some(uris),
            offset: None,
            position_ms: None,
        }
    );
}

#[test]
fn a_context_is_played_from_its_start() {
    assert_eq!(
        command(PlayerEvent::PlayContext("playlist".to_string())),
        PlayerCommand::StartPlayback {
            device_id: device_id(),
            context_uri: Some("playlist".to_string()),
            uris: None,
            offset: None,
            position_ms: None,
        }
    );
}

#[test]
fn playback_is_transferred() {
    assert_eq!(
        client().transfer_playback("phone".to_string(), true),
        PlayerCommand::TransferPlayback { device_id: "phone".to_string(), force_play: true }
    );
}
