use lru::LruCache;
use spotify_player::client::Client;
use spotify_player::model::Page;
use spotify_player::request::{
    ArtistAlbums, ClientError, CurrentPlaybackQuery, DevicesQuery, FollowedArtistsQuery,
    HttpRequest, PageSource, Paging, PlaylistQuery, SavedAlbumsQuery, TopTracksQuery,
    UserPlaylistsQuery,
};
use spotify_player::state::{PlayerState, Token};
use std::num::NonZeroUsize;

fn client() -> Client {
    Client { access_token: Some("secret".to_string()) }
}

fn player() -> PlayerState {
    PlayerState {
        token: Token { access_token: "old".to_string(), expires_at: 100 },
        playback: None,
        playback_last_updated: None,
        devices: vec![],
        user_playlists: vec![],
        user_followed_artists: vec![],
        user_saved_albums: vec![],
        context_uri: String::new(),
        context_cache: LruCache::new(NonZeroUsize::new(2).unwrap()),
    }
}

#[test]
fn a_new_client_uses_and_notes_its_token() {
    let mut player = player();
    let token = Token { access_token: "new".to_string(), expires_at: 3600 };
    let client = Client::new(&mut player, Ok(token.clone())).unwrap();
    assert_eq!(client.access_token, Some("new".to_string()));
    assert_eq!(player.token, token);
}

#[test]
fn without_a_token_there_is_no_client() {
    let mut player = player();
    let result = Client::new(&mut player, Err("no session".to_string()));
    assert!(matches!(result, Err(ClientError::Request(reason)) if reason == "no session"));
    assert_eq!(player.token.access_token, "old");
}

#[test]
fn a_request_carries_the_token() {
    assert_eq!(
        client().internal_call("https://example.org/next"),
        HttpRequest {
            url: "https://example.org/next".to_string(),
            authorization: "Bearer secret".to_string(),
        }
    );
}

#[test]
fn a_request_without_a_token_has_an_empty_one() {
    let client = Client { access_token: None };
    assert_eq!(client.internal_call("u").authorization, "Bearer ");
}

#[test]
fn results_are_handed_on() {
    assert_eq!(Client::handle_rspotify_result(Ok(3u8)), Ok(3));
    assert_eq!(
        Client::handle_rspotify_result::<u8>(Err("bad gateway".to_string())),
        Err(ClientError::Request("bad gateway".to_string()))
    );
}

#[test]
fn listings_are_asked_for_in_pages_of_fifty() {
    assert_eq!(
        client().get_current_user_playlists(),
        PageSource::First(UserPlaylistsQuery { limit: 50, offset: None })
    );
    assert_eq!(
        client().get_current_user_followed_artists(),
        PageSource::First(FollowedArtistsQuery { limit: 50, after: None })
    );
    assert_eq!(
        client().get_current_user_saved_albums(),
        PageSource::First(SavedAlbumsQuery { limit: 50, offset: None })
    );
    match client().get_artist_albums("artist") {
        ArtistAlbums::Singles { singles, source: PageSource::First(query) } => {
            assert!(singles.is_empty());
            assert_eq!(query.artist_uri, "artist");
            assert_eq!(query.country, None);
            assert_eq!(query.limit, Some(50));
        }
        other => panic!("{:?}", other),
    }
}

#[test]
fn single_things_are_asked_for_by_their_address() {
    assert_eq!(
        client().get_playlist("p"),
        PlaylistQuery { playlist_uri: "p".to_string(), fields: None, market: None }
    );
    assert_eq!(client().get_album("a").album_uri, "a");
    assert_eq!(client().get_artist("b").artist_uri, "b");
    assert_eq!(
        client().get_artist_top_tracks("c"),
        TopTracksQuery { artist_uri: "c".to_string(), country: None }
    );
    assert_eq!(client().get_related_artists("d").artist_uri, "d");
    assert_eq!(client().get_devices(), DevicesQuery);
    assert_eq!(
        client().get_current_playback(),
        CurrentPlaybackQuery { market: None, additional_types: None }
    );
}

#[test]
fn pages_are_collected_in_order() {
    let first = Page { items: vec![1, 2], next: Some("second".to_string()) };
    let (items, request) = match client().get_all_paging_items(vec![], first) {
        Paging::More(items, request) => (items, request),
        other => panic!("{:?}", other),
    };
    assert_eq!(items, vec![1, 2]);
    assert_eq!(request.url, "second");
    assert_eq!(request.authorization, "Bearer secret");
    let empty = Page { items: vec![], next: Some("third".to_string()) };
    let items = match client().get_all_paging_items(items, empty) {
        Paging::More(items, request) => {
            assert_eq!(request.url, "third");
            items
        }
        other => panic!("{:?}", other),
    };
    let last = Page { items: vec![3], next: None };
    assert_eq!(
        client().get_all_paging_items(items, last),
        Paging::Complete(vec![1, 2, 3])
    );
}
