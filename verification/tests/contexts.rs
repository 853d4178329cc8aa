use lru::LruCache;
use spotify_player::client::Client;
use spotify_player::event::{ContextURI, Event};
use spotify_player::model::{
    Album, AlbumType, Artist, FullAlbum, FullArtist, FullPlaylist, FullTrack, Page, PlaylistTrack,
    SimplifiedAlbum, SimplifiedTrack, Track,
};
use spotify_player::request::{
    ArtistAlbums, ArtistAlbumsPaging, ClientError, PageSource, Step,
};
use spotify_player::state::{Context, PlayerState, Token};
use std::num::NonZeroUsize;

const DONE: Step = Step::Done { update_playback: false };

fn client() -> Client {
    Client { access_token: Some("secret".to_string()) }
}

fn player(capacity: usize) -> PlayerState {
    PlayerState {
        token: Token { access_token: "secret".to_string(), expires_at: 100 },
        playback: None,
        playback_last_updated: None,
        devices: vec![],
        user_playlists: vec![],
        user_followed_artists: vec![],
        user_saved_albums: vec![],
        context_uri: String::new(),
        context_cache: LruCache::new(NonZeroUsize::new(capacity).unwrap()),
    }
}

fn get_context(player: &mut PlayerState, context: ContextURI) -> Step {
    client().handle_event(player, 0, Event::GetContext(context))
}

fn put_unknown(player: &mut PlayerState, uri: &str) {
    assert_eq!(get_context(player, ContextURI::Unknown(uri.to_string())), DONE);
}

fn cached_uris(player: &PlayerState) -> Vec<String> {
    player.context_cache.iter().map(|(uri, _)| uri.clone()).collect()
}

fn failed(reason: &str) -> Step {
    Step::Failed(ClientError::Request(reason.to_string()))
}

fn listed_album(name: &str, release_date: Option<&str>) -> SimplifiedAlbum {
    SimplifiedAlbum {
        id: Some(format!("{} id", name)),
        uri: Some(format!("{} uri", name)),
        name: name.to_string(),
        artists: vec![],
        release_date: release_date.map(|date| date.to_string()),
    }
}

fn full_track(name: &str) -> FullTrack {
    FullTrack {
        id: Some(format!("{} id", name)),
        uri: format!("{} uri", name),
        name: name.to_string(),
        artists: vec![],
        album: listed_album("on", Some("2000")),
        duration_ms: 180_000,
    }
}

fn entry(name: &str) -> PlaylistTrack {
    PlaylistTrack { track: Some(full_track(name)) }
}

fn names(tracks: &[Track]) -> Vec<&str> {
    tracks.iter().map(|track| track.name.as_str()).collect()
}

fn playlist(items: Vec<PlaylistTrack>, next: Option<&str>) -> FullPlaylist {
    FullPlaylist {
        id: "id".to_string(),
        uri: "uri".to_string(),
        name: "Playlist".to_string(),
        description: None,
        tracks: Page { items, next: next.map(|url| url.to_string()) },
    }
}

fn listed_track(name: &str) -> SimplifiedTrack {
    SimplifiedTrack {
        id: None,
        uri: format!("{} uri", name),
        name: name.to_string(),
        artists: vec![],
        duration_ms: 1000,
    }
}

fn album(items: Vec<SimplifiedTrack>, next: Option<&str>) -> FullAlbum {
    FullAlbum {
        id: "album id".to_string(),
        uri: "album uri".to_string(),
        name: "Album".to_string(),
        artists: vec![Artist {
            id: None,
            uri: None,
            name: "Someone".to_string(),
        }],
        release_date: "1999".to_string(),
        tracks: Page { items, next: next.map(|url| url.to_string()) },
    }
}

fn artist(name: &str) -> FullArtist {
    FullArtist {
        id: format!("{} id", name),
        uri: format!("{} uri", name),
        name: name.to_string(),
    }
}

fn playlist_tracks<'a>(player: &'a PlayerState, uri: &str) -> Vec<&'a str> {
    match player.context_cache.peek(uri) {
        Some(Context::Playlist(_, tracks)) => names(tracks),
        other => panic!("{:?}", other),
    }
}

#[test]
fn an_unknown_context_is_put_into_the_cache() {
    let mut player = player(2);
    put_unknown(&mut player, "show");
    assert_eq!(
        player.context_cache.peek("show"),
        Some(&Context::Unknown("show".to_string()))
    );
}

#[test]
fn the_context_used_the_longest_time_ago_is_dropped() {
    let mut player = player(2);
    put_unknown(&mut player, "a");
    put_unknown(&mut player, "b");
    assert_eq!(cached_uris(&player), vec!["b", "a"]);
    put_unknown(&mut player, "a");
    assert_eq!(cached_uris(&player), vec!["a", "b"]);
    put_unknown(&mut player, "c");
    assert_eq!(cached_uris(&player), vec!["c", "a"]);
}

#[test]
fn what_is_in_the_cache_is_not_fetched_again() {
    let mut player = player(2);
    put_unknown(&mut player, "x");
    put_unknown(&mut player, "y");
    let uri = "x".to_string();
    assert_eq!(get_context(&mut player, ContextURI::Playlist(uri.clone())), DONE);
    assert_eq!(get_context(&mut player, ContextURI::Album(uri.clone())), DONE);
    assert_eq!(get_context(&mut player, ContextURI::Artist(uri)), DONE);
    // Asking whether a context is there does not count as a use of it.
    assert_eq!(cached_uris(&player), vec!["y", "x"]);
}

#[test]
fn what_is_not_in_the_cache_is_asked_for() {
    let mut player = player(2);
    match get_context(&mut player, ContextURI::Playlist("p".to_string())) {
        Step::GetPlaylist(uri, query) => {
            assert_eq!(uri, "p");
            assert_eq!(query.playlist_uri, "p");
        }
        other => panic!("{:?}", other),
    }
    match get_context(&mut player, ContextURI::Album("a".to_string())) {
        Step::GetAlbum(uri, query) => {
            assert_eq!(uri, "a");
            assert_eq!(query.album_uri, "a");
        }
        other => panic!("{:?}", other),
    }
    match get_context(&mut player, ContextURI::Artist("b".to_string())) {
        Step::GetArtist(uri, query) => {
            assert_eq!(uri, "b");
            assert_eq!(query.artist_uri, "b");
        }
        other => panic!("{:?}", other),
    }
    assert!(player.context_cache.is_empty());
}

#[test]
fn a_playlist_of_one_page_is_fetched_at_once() {
    let mut player = player(2);
    let given = playlist(vec![entry("1"), PlaylistTrack { track: None }, entry("2")], None);
    let step = client().playlist_received(&mut player, "p".to_string(), Ok(given.clone()));
    assert_eq!(step, DONE);
    match player.context_cache.peek("p") {
        Some(Context::Playlist(kept, tracks)) => {
            assert_eq!(kept, &given);
            assert_eq!(names(tracks), vec!["1", "2"]);
            assert_eq!(
                tracks[0],
                Track {
                    id: Some("1 id".to_string()),
                    uri: "1 uri".to_string(),
                    name: "1".to_string(),
                    artists: vec![],
                    album: Album {
                        id: Some("on id".to_string()),
                        uri: Some("on uri".to_string()),
                        name: "on".to_string(),
                        artists: vec![],
                    },
                    duration_ms: 180_000,
                }
            );
        }
        other => panic!("{:?}", other),
    }
}

#[test]
fn a_playlist_of_many_pages_is_shown_early_and_completed_late() {
    let mut player = player(2);
    let given = playlist(vec![entry("1"), PlaylistTrack { track: None }], Some("page 2"));
    let step = client().playlist_received(&mut player, "p".to_string(), Ok(given));
    assert_eq!(playlist_tracks(&player, "p"), vec!["1"]);
    put_unknown(&mut player, "other");
    let (uri, items, request) = match step {
        Step::GetPlaylistTracks(uri, items, request) => (uri, items, request),
        other => panic!("{:?}", other),
    };
    assert_eq!(items.len(), 2);
    assert_eq!(request.url, "page 2");
    assert_eq!(request.authorization, "Bearer secret");
    let page = Page { items: vec![entry("2")], next: Some("page 3".to_string()) };
    let step = client().playlist_tracks_received(&mut player, uri, items, Ok(page));
    assert_eq!(playlist_tracks(&player, "p"), vec!["1"]);
    let (uri, items) = match step {
        Step::GetPlaylistTracks(uri, items, request) => {
            assert_eq!(request.url, "page 3");
            (uri, items)
        }
        other => panic!("{:?}", other),
    };
    let page = Page { items: vec![PlaylistTrack { track: None }, entry("3")], next: None };
    let step = client().playlist_tracks_received(&mut player, uri, items, Ok(page));
    assert_eq!(step, DONE);
    assert_eq!(playlist_tracks(&player, "p"), vec!["1", "2", "3"]);
    // Noting the tracks does not count as a use of the playlist.
    assert_eq!(cached_uris(&player), vec!["other", "p"]);
}

#[test]
fn tracks_of_a_playlist_that_was_dropped_are_not_noted() {
    let mut player = player(1);
    let given = playlist(vec![entry("1")], Some("page 2"));
    let step = client().playlist_received(&mut player, "p".to_string(), Ok(given));
    put_unknown(&mut player, "other");
    let items = match step {
        Step::GetPlaylistTracks(_, items, _) => items,
        other => panic!("{:?}", other),
    };
    let page = Page { items: vec![entry("2")], next: None };
    let step = client().playlist_tracks_received(&mut player, "p".to_string(), items, Ok(page));
    assert_eq!(step, DONE);
    assert_eq!(cached_uris(&player), vec!["other"]);
}

#[test]
fn tracks_are_not_noted_in_another_kind_of_context() {
    let mut player = player(1);
    put_unknown(&mut player, "p");
    let page = Page { items: vec![entry("2")], next: None };
    let step = client().playlist_tracks_received(&mut player, "p".to_string(), vec![], Ok(page));
    assert_eq!(step, DONE);
    assert_eq!(
        player.context_cache.peek("p"),
        Some(&Context::Unknown("p".to_string()))
    );
}

#[test]
fn a_failed_page_leaves_the_first_tracks() {
    let mut player = player(1);
    let given = playlist(vec![entry("1")], Some("page 2"));
    client().playlist_received(&mut player, "p".to_string(), Ok(given));
    let step = client().playlist_tracks_received(
        &mut player,
        "p".to_string(),
        vec![entry("1")],
        Err("timed out".to_string()),
    );
    assert_eq!(step, failed("timed out"));
    assert_eq!(playlist_tracks(&player, "p"), vec!["1"]);
}

#[test]
fn what_could_not_be_fetched_is_not_cached() {
    let mut player = player(1);
    let reason = || "not found".to_string();
    let uri = || "x".to_string();
    let client = client();
    assert_eq!(
        client.playlist_received(&mut player, uri(), Err(reason())),
        failed("not found")
    );
    assert_eq!(
        client.album_received(&mut player, uri(), Err(reason())),
        failed("not found")
    );
    assert_eq!(
        client.album_tracks_received(
            &mut player,
            uri(),
            album(vec![], None),
            vec![],
            Err(reason()),
        ),
        failed("not found")
    );
    assert_eq!(client.artist_received(uri(), Err(reason())), failed("not found"));
    assert_eq!(
        client.artist_top_tracks_received(uri(), artist("a"), Err(reason())),
        failed("not found")
    );
    assert_eq!(
        client.related_artists_received(&mut player, uri(), artist("a"), vec![], Err(reason())),
        failed("not found")
    );
    let pending = client.get_artist_albums("x");
    assert_eq!(
        client.artist_albums_received(&mut player, uri(), pending, Err(reason())),
        failed("not found")
    );
    assert!(player.context_cache.is_empty());
}

#[test]
fn an_album_is_cached_with_the_tracks_of_all_pages() {
    let mut player = player(2);
    let given = album(vec![listed_track("1")], Some("page 2"));
    let step = client().album_received(&mut player, "a".to_string(), Ok(given.clone()));
    assert!(player.context_cache.is_empty());
    let (uri, same, items, request) = match step {
        Step::GetAlbumTracks(uri, same, items, request) => (uri, same, items, request),
        other => panic!("{:?}", other),
    };
    assert_eq!(request.url, "page 2");
    assert_eq!(same, given);
    let page = Page { items: vec![listed_track("2")], next: None };
    let step = client().album_tracks_received(&mut player, uri, same, items, Ok(page));
    assert_eq!(step, DONE);
    match player.context_cache.peek("a") {
        Some(Context::Album(kept, tracks)) => {
            assert_eq!(kept, &given);
            assert_eq!(names(tracks), vec!["1", "2"]);
            for track in tracks {
                assert_eq!(track.album, given.to_album());
                assert_eq!(track.album.id, Some("album id".to_string()));
                assert_eq!(track.album.artists[0].name, "Someone");
            }
        }
        other => panic!("{:?}", other),
    }
}

#[test]
fn an_album_goes_on_for_as_long_as_there_are_pages() {
    let mut player = player(2);
    let page = Page { items: vec![listed_track("2")], next: Some("page 3".to_string()) };
    let step = client().album_tracks_received(
        &mut player,
        "a".to_string(),
        album(vec![], Some("page 2")),
        vec![listed_track("1")],
        Ok(page),
    );
    match step {
        Step::GetAlbumTracks(uri, _, items, request) => {
            assert_eq!(uri, "a");
            assert_eq!(items, vec![listed_track("1"), listed_track("2")]);
            assert_eq!(request.url, "page 3");
        }
        other => panic!("{:?}", other),
    }
    assert!(player.context_cache.is_empty());
}

#[test]
fn an_album_of_one_page_is_cached_at_once() {
    let mut player = player(2);
    let given = album(vec![listed_track("1")], None);
    let step = client().album_received(&mut player, "a".to_string(), Ok(given));
    assert_eq!(step, DONE);
    assert_eq!(cached_uris(&player), vec!["a"]);
}

#[test]
fn an_artist_is_shown_early_and_completed_late() {
    let mut player = player(2);
    let client = client();
    let step = client.artist_received("b".to_string(), Ok(artist("Band")));
    let (uri, band) = match step {
        Step::GetArtistTopTracks(uri, band, query) => {
            assert_eq!(query.artist_uri, "b");
            (uri, band)
        }
        other => panic!("{:?}", other),
    };
    let step = client.artist_top_tracks_received(uri, band, Ok(vec![full_track("hit")]));
    let (uri, band, top_tracks) = match step {
        Step::GetRelatedArtists(uri, band, top_tracks, query) => {
            assert_eq!(query.artist_uri, "b");
            (uri, band, top_tracks)
        }
        other => panic!("{:?}", other),
    };
    assert!(player.context_cache.is_empty());
    let step = client.related_artists_received(
        &mut player,
        uri,
        band,
        top_tracks,
        Ok(vec![artist("Friend")]),
    );
    match player.context_cache.peek("b") {
        Some(Context::Artist(band, top_tracks, albums, related)) => {
            assert_eq!(band.name, "Band");
            assert_eq!(names(top_tracks), vec!["hit"]);
            assert!(albums.is_empty());
            assert_eq!(related[0].name, "Friend");
            assert_eq!(related[0].id, Some("Friend id".to_string()));
        }
        other => panic!("{:?}", other),
    }
    let pending = match step {
        Step::GetArtistAlbums(_, pending) => pending,
        other => panic!("{:?}", other),
    };
    assert_eq!(pending, client.get_artist_albums("b"));

    // Two pages of singles.
    let page = Page {
        items: vec![listed_album("single", Some("2003"))],
        next: Some("singles 2".to_string()),
    };
    let step = client.artist_albums_received(&mut player, "b".to_string(), pending, Ok(page));
    let pending = match step {
        Step::GetArtistAlbums(_, pending) => pending,
        other => panic!("{:?}", other),
    };
    match &pending {
        ArtistAlbums::Singles { singles, source: PageSource::Next(request) } => {
            assert_eq!(singles.len(), 1);
            assert_eq!(request.url, "singles 2");
        }
        other => panic!("{:?}", other),
    }
    let page = Page { items: vec![listed_album("both", Some("2001"))], next: None };
    let step = client.artist_albums_received(&mut player, "b".to_string(), pending, Ok(page));
    let pending = match step {
        Step::GetArtistAlbums(_, pending) => pending,
        other => panic!("{:?}", other),
    };
    match &pending {
        ArtistAlbums::Albums { singles, albums, source: PageSource::First(query) } => {
            assert_eq!(singles.len(), 2);
            assert!(albums.is_empty());
            assert_eq!(query.artist_uri, "b");
            assert_eq!(query.album_type, Some(AlbumType::Album));
            assert_eq!(query.country, None);
            assert_eq!(query.limit, Some(50));
            assert_eq!(query.offset, None);
        }
        other => panic!("{:?}", other),
    }

    // Two pages of albums.
    let page = Page {
        items: vec![listed_album("both", Some("2002"))],
        next: Some("albums 2".to_string()),
    };
    let step = client.artist_albums_received(&mut player, "b".to_string(), pending, Ok(page));
    let pending = match step {
        Step::GetArtistAlbums(_, pending) => pending,
        other => panic!("{:?}", other),
    };
    match &pending {
        ArtistAlbums::Albums { source: PageSource::Next(request), .. } => {
            assert_eq!(request.url, "albums 2");
        }
        other => panic!("{:?}", other),
    }
    let page = Page { items: vec![listed_album("undated", None)], next: None };
    let step = client.artist_albums_received(&mut player, "b".to_string(), pending, Ok(page));
    assert_eq!(step, DONE);
    match player.context_cache.peek("b") {
        Some(Context::Artist(band, top_tracks, albums, related)) => {
            assert_eq!(band.name, "Band");
            assert_eq!(names(top_tracks), vec!["hit"]);
            assert_eq!(
                albums.iter().map(|album| album.name.as_str()).collect::<Vec<_>>(),
                vec!["single", "both"]
            );
            assert_eq!(related.len(), 1);
        }
        other => panic!("{:?}", other),
    }
}

#[test]
fn singles_are_asked_for_before_albums() {
    match client().get_artist_albums("b") {
        ArtistAlbums::Singles { source: PageSource::First(query), .. } => {
            assert_eq!(query.album_type, Some(AlbumType::Single));
        }
        other => panic!("{:?}", other),
    }
}

#[test]
fn of_one_date_the_singles_are_shown_before_the_albums() {
    let pending = ArtistAlbums::Albums {
        singles: vec![listed_album("single", Some("2005"))],
        albums: vec![],
        source: PageSource::Next(client().internal_call("unused")),
    };
    let page = Page { items: vec![listed_album("album", Some("2005"))], next: None };
    match client().add_artist_albums("b", pending, page) {
        ArtistAlbumsPaging::Complete(albums) => {
            let names: Vec<String> = albums.into_iter().map(|album| album.name).collect();
            assert_eq!(names, vec!["single", "album"]);
        }
        other => panic!("{:?}", other),
    }
}

#[test]
fn albums_of_an_artist_who_was_dropped_are_not_noted() {
    let mut player = player(1);
    put_unknown(&mut player, "other");
    let pending = ArtistAlbums::Albums {
        singles: vec![],
        albums: vec![],
        source: PageSource::Next(client().internal_call("unused")),
    };
    let page = Page { items: vec![listed_album("album", Some("2005"))], next: None };
    let step = client().artist_albums_received(&mut player, "b".to_string(), pending, Ok(page));
    assert_eq!(step, DONE);
    assert_eq!(cached_uris(&player), vec!["other"]);
}
