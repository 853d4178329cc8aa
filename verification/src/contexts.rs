//! The fetching of contexts: playlists, albums and artists. What was fetched is kept in the cache.
use crate::albums::cleaned_up;
use crate::cache::{
    cache_capacity, cache_contains, cache_entries, cache_peek_mut, cache_put, inserted,
    inserting_changes_no_other_key, inserting_keeps_well_formed, keys, lemma_replaced_by_itself,
    lookup, replaced, replacing_keeps_well_formed, replacing_touches_one_key, well_formed,
    ContextCache, Entry,
};
use crate::client::{asks_for_playlist, asks_for_top_tracks, Client, PAGE_SIZE};
use crate::listing::{
    accessible_tracks, albums_of, artists_of, into_accessible_tracks, into_albums, into_artists,
    into_tracks, into_tracks_on, tracks_of, tracks_on,
};
use crate::model::{
    Album, AlbumType, AlbumView, FullAlbum, FullArtist, FullPlaylist, FullTrack, Page,
    PlaylistTrack, SimplifiedAlbum, SimplifiedTrack, Track, TrackView,
};
use crate::request::{
    AlbumQuery, ArtistAlbums, ArtistAlbumsPaging, ArtistAlbumsQuery, ArtistQuery, ClientError,
    PageSource, Paging, PlaylistQuery, RelatedArtistsQuery, Step, TopTracksQuery,
};
use crate::state::{Context, ContextView, PlayerState};
use vstd::prelude::*;

verus! {

/// Whether two states of the player differ at most in their caches.
pub open spec fn same_but_cache(a: PlayerState, b: PlayerState) -> bool {
    &&& b == (PlayerState { context_cache: b.context_cache, ..a })
    &&& cache_capacity(b.context_cache) == cache_capacity(a.context_cache)
}

/// The entries of a state's cache once a context has been put under a key.
pub open spec fn entries_with(player: PlayerState, key: Seq<char>, context: ContextView) -> Seq<
    Entry,
> {
    inserted(
        cache_entries(player.context_cache),
        cache_capacity(player.context_cache),
        key,
        context,
    )
}

/// Whether a context has been put under a key of a state's cache, and nothing else has changed.
pub open spec fn puts(
    before: PlayerState,
    after: PlayerState,
    key: Seq<char>,
    context: ContextView,
) -> bool {
    &&& same_but_cache(before, after)
    &&& cache_entries(after.context_cache) == entries_with(before, key, context)
    &&& well_formed(cache_entries(after.context_cache), cache_capacity(after.context_cache))
}

/// The entries of a cache with other tracks for a playlist. Where there is no playlist under the
/// key, they stay as they are.
pub open spec fn with_playlist_tracks(
    entries: Seq<Entry>,
    key: Seq<char>,
    tracks: Seq<TrackView>,
) -> Seq<Entry> {
    match lookup(entries, key) {
        Some(ContextView::Playlist(playlist, _)) => replaced(
            entries,
            key,
            ContextView::Playlist(playlist, tracks),
        ),
        _ => entries,
    }
}

/// The entries of a cache with other albums for an artist. Where there is no artist under the key,
/// they stay as they are.
pub open spec fn with_artist_albums(
    entries: Seq<Entry>,
    key: Seq<char>,
    albums: Seq<AlbumView>,
) -> Seq<Entry> {
    match lookup(entries, key) {
        Some(ContextView::Artist(artist, top_tracks, _, related_artists)) => replaced(
            entries,
            key,
            ContextView::Artist(artist, top_tracks, albums, related_artists),
        ),
        _ => entries,
    }
}

/// Notes the tracks of a playlist that is in the cache.
fn set_playlist_tracks(cache: &mut ContextCache, key: &String, tracks: Vec<Track>)
    ensures
        cache_entries(*final(cache)) == with_playlist_tracks(
            cache_entries(*old(cache)),
            key@,
            tracks.deep_view(),
        ),
        cache_capacity(*final(cache)) == cache_capacity(*old(cache)),
{
    proof {
        if lookup(cache_entries(*cache), key@) is Some {
            lemma_replaced_by_itself(cache_entries(*cache), key@);
        }
    }
    if let Some(context) = cache_peek_mut(cache, key) {
        match context {
            Context::Playlist(_, old_tracks) => {
                *old_tracks = tracks;
            },
            _ => {},
        }
    }
}

/// Notes the albums of an artist that is in the cache.
fn set_artist_albums(cache: &mut ContextCache, key: &String, albums: Vec<Album>)
    ensures
        cache_entries(*final(cache)) == with_artist_albums(
            cache_entries(*old(cache)),
            key@,
            albums.deep_view(),
        ),
        cache_capacity(*final(cache)) == cache_capacity(*old(cache)),
{
    proof {
        if lookup(cache_entries(*cache), key@) is Some {
            lemma_replaced_by_itself(cache_entries(*cache), key@);
        }
    }
    if let Some(context) = cache_peek_mut(cache, key) {
        match context {
            Context::Artist(_, _, old_albums, _) => {
                *old_albums = albums;
            },
            _ => {},
        }
    }
}

/// Whether a query is the one for the albums of an artist that are of a given kind, in no
/// particular country.
pub open spec fn asks_for_albums(
    query: ArtistAlbumsQuery,
    artist_uri: Seq<char>,
    album_type: AlbumType,
) -> bool {
    &&& query.artist_uri@ == artist_uri
    &&& query.album_type == Some(album_type)
    &&& query.country is None
    &&& query.limit == Some(PAGE_SIZE)
    &&& query.offset is None
}

/// Whether nothing of an artist's albums is collected yet, and the singles are asked for.
pub open spec fn begins_artist_albums(pending: ArtistAlbums, artist_uri: Seq<char>) -> bool {
    &&& pending matches ArtistAlbums::Singles { singles, source: PageSource::First(query) }
    &&& singles@.len() == 0
    &&& asks_for_albums(query, artist_uri, AlbumType::Single)
}

/// What the answer to the request for a playlist leads to.
pub open spec fn playlist_begins(
    client: Client,
    before: PlayerState,
    playlist_uri: String,
    reply: Result<FullPlaylist, String>,
    after: PlayerState,
    step: Step,
) -> bool {
    match reply {
        Ok(playlist) => {
            let view = playlist.deep_view();
            &&& puts(
                before,
                after,
                playlist_uri@,
                ContextView::Playlist(view, accessible_tracks(view.tracks.items)),
            )
            &&& match playlist.tracks.next {
                Some(url) => {
                    &&& step matches Step::GetPlaylistTracks(uri, items, request)
                    &&& uri == playlist_uri
                    &&& items.deep_view() == view.tracks.items
                    &&& client.requests(request, url@)
                },
                None => step == (Step::Done { update_playback: false }),
            }
        },
        Err(reason) => {
            &&& after == before
            &&& step == Step::Failed(ClientError::Request(reason))
        },
    }
}

/// What a further page of a playlist leads to.
pub open spec fn playlist_goes_on(
    client: Client,
    before: PlayerState,
    playlist_uri: String,
    so_far: Vec<PlaylistTrack>,
    reply: Result<Page<PlaylistTrack>, String>,
    after: PlayerState,
    step: Step,
) -> bool {
    match reply {
        Ok(page) => match page.next {
            Some(url) => {
                &&& after == before
                &&& step matches Step::GetPlaylistTracks(uri, items, request)
                &&& uri == playlist_uri
                &&& items@ == so_far@ + page.items@
                &&& client.requests(request, url@)
            },
            None => {
                &&& same_but_cache(before, after)
                &&& cache_entries(after.context_cache) == with_playlist_tracks(
                    cache_entries(before.context_cache),
                    playlist_uri@,
                    accessible_tracks(so_far.deep_view() + page.items.deep_view()),
                )
                &&& step == (Step::Done { update_playback: false })
            },
        },
        Err(reason) => {
            &&& after == before
            &&& step == Step::Failed(ClientError::Request(reason))
        },
    }
}

/// What the answer to the request for an album leads to.
pub open spec fn album_begins(
    client: Client,
    before: PlayerState,
    album_uri: String,
    reply: Result<FullAlbum, String>,
    after: PlayerState,
    step: Step,
) -> bool {
    match reply {
        Ok(album) => match album.tracks.next {
            Some(url) => {
                &&& after == before
                &&& step matches Step::GetAlbumTracks(uri, same_album, items, request)
                &&& uri == album_uri
                &&& same_album == album
                &&& items.deep_view() == album.deep_view().tracks.items
                &&& client.requests(request, url@)
            },
            None => {
                let view = album.deep_view();
                &&& puts(
                    before,
                    after,
                    album_uri@,
                    ContextView::Album(view, tracks_on(view, view.tracks.items)),
                )
                &&& step == (Step::Done { update_playback: false })
            },
        },
        Err(reason) => {
            &&& after == before
            &&& step == Step::Failed(ClientError::Request(reason))
        },
    }
}

/// What a further page of an album leads to.
pub open spec fn album_goes_on(
    client: Client,
    before: PlayerState,
    album_uri: String,
    album: FullAlbum,
    so_far: Vec<SimplifiedTrack>,
    reply: Result<Page<SimplifiedTrack>, String>,
    after: PlayerState,
    step: Step,
) -> bool {
    match reply {
        Ok(page) => match page.next {
            Some(url) => {
                &&& after == before
                &&& step matches Step::GetAlbumTracks(uri, same_album, items, request)
                &&& uri == album_uri
                &&& same_album == album
                &&& items@ == so_far@ + page.items@
                &&& client.requests(request, url@)
            },
            None => {
                &&& puts(
                    before,
                    after,
                    album_uri@,
                    ContextView::Album(
                        album.deep_view(),
                        tracks_on(
                            album.deep_view(),
                            so_far.deep_view() + page.items.deep_view(),
                        ),
                    ),
                )
                &&& step == (Step::Done { update_playback: false })
            },
        },
        Err(reason) => {
            &&& after == before
            &&& step == Step::Failed(ClientError::Request(reason))
        },
    }
}

/// What the answer to the request for an artist leads to.
pub open spec fn artist_begins(
    artist_uri: String,
    reply: Result<FullArtist, String>,
    step: Step,
) -> bool {
    match reply {
        Ok(artist) => {
            &&& step matches Step::GetArtistTopTracks(uri, same_artist, query)
            &&& uri == artist_uri
            &&& same_artist == artist
            &&& asks_for_top_tracks(query, artist_uri@)
        },
        Err(reason) => step == Step::Failed(ClientError::Request(reason)),
    }
}

/// What the answer to the request for the top tracks of an artist leads to.
pub open spec fn top_tracks_go_on(
    artist_uri: String,
    artist: FullArtist,
    reply: Result<Vec<FullTrack>, String>,
    step: Step,
) -> bool {
    match reply {
        Ok(tracks) => {
            &&& step matches Step::GetRelatedArtists(uri, same_artist, top_tracks, query)
            &&& uri == artist_uri
            &&& same_artist == artist
            &&& top_tracks.deep_view() == tracks_of(tracks.deep_view())
            &&& query.artist_uri@ == artist_uri@
        },
        Err(reason) => step == Step::Failed(ClientError::Request(reason)),
    }
}

/// What the answer to the request for the related artists of an artist leads to.
pub open spec fn artist_is_put(
    before: PlayerState,
    artist_uri: String,
    artist: FullArtist,
    top_tracks: Vec<Track>,
    reply: Result<Vec<FullArtist>, String>,
    after: PlayerState,
    step: Step,
) -> bool {
    match reply {
        Ok(related_artists) => {
            &&& puts(
                before,
                after,
                artist_uri@,
                ContextView::Artist(
                    artist.deep_view(),
                    top_tracks.deep_view(),
                    Seq::empty(),
                    artists_of(related_artists.deep_view()),
                ),
            )
            &&& step matches Step::GetArtistAlbums(uri, albums)
            &&& uri == artist_uri
            &&& begins_artist_albums(albums, artist_uri@)
        },
        Err(reason) => {
            &&& after == before
            &&& step == Step::Failed(ClientError::Request(reason))
        },
    }
}

/// What a page of an artist's albums leads to.
pub open spec fn artist_goes_on(
    client: Client,
    before: PlayerState,
    artist_uri: String,
    pending: ArtistAlbums,
    reply: Result<Page<SimplifiedAlbum>, String>,
    after: PlayerState,
    step: Step,
) -> bool {
    match reply {
        Ok(page) => match (pending, page.next) {
            (ArtistAlbums::Albums { singles, albums, source: _ }, None) => {
                &&& same_but_cache(before, after)
                &&& cache_entries(after.context_cache) == with_artist_albums(
                    cache_entries(before.context_cache),
                    artist_uri@,
                    albums_of(
                        cleaned_up(
                            albums.deep_view() + page.items.deep_view()
                                + singles.deep_view(),
                        ),
                    ),
                )
                &&& step == (Step::Done { update_playback: false })
            },
            _ => {
                &&& after == before
                &&& step matches Step::GetArtistAlbums(uri, next)
                &&& uri == artist_uri
                &&& artist_albums_go_on(
                    client,
                    artist_uri@,
                    pending,
                    page,
                    ArtistAlbumsPaging::More(next),
                )
            },
        },
        Err(reason) => {
            &&& after == before
            &&& step == Step::Failed(ClientError::Request(reason))
        },
    }
}

/// How the collection of an artist's albums goes on with another page.
pub open spec fn artist_albums_go_on(
    client: Client,
    artist_uri: Seq<char>,
    pending: ArtistAlbums,
    page: Page<SimplifiedAlbum>,
    paging: ArtistAlbumsPaging,
) -> bool {
    match pending {
        ArtistAlbums::Singles { singles: so_far, source: _ } => match page.next {
            Some(url) => {
                &&& paging matches ArtistAlbumsPaging::More(
                    ArtistAlbums::Singles { singles, source: PageSource::Next(request) },
                )
                &&& singles@ == so_far@ + page.items@
                &&& client.requests(request, url@)
            },
            None => {
                &&& paging matches ArtistAlbumsPaging::More(
                    ArtistAlbums::Albums { singles, albums, source: PageSource::First(query) },
                )
                &&& singles@ == so_far@ + page.items@
                &&& albums@.len() == 0
                &&& asks_for_albums(query, artist_uri, AlbumType::Album)
            },
        },
        ArtistAlbums::Albums {
            singles: same_singles,
            albums: so_far,
            source: _,
        } => match page.next {
            Some(url) => {
                &&& paging matches ArtistAlbumsPaging::More(
                    ArtistAlbums::Albums {
                        singles,
                        albums,
                        source: PageSource::Next(request),
                    },
                )
                &&& singles == same_singles
                &&& albums@ == so_far@ + page.items@
                &&& client.requests(request, url@)
            },
            None => {
                &&& paging matches ArtistAlbumsPaging::Complete(shown)
                &&& shown.deep_view() == cleaned_up(
                    so_far.deep_view() + page.items.deep_view() + same_singles.deep_view(),
                )
            },
        },
    }
}

impl Client {
    /// Begins to fetch a playlist, unless it is in the cache.
    pub fn get_playlist_context(&self, player: &PlayerState, playlist_uri: String) -> (step: Step)
        ensures
            if lookup(cache_entries(player.context_cache), playlist_uri@) is Some {
                step == (Step::Done { update_playback: false })
            } else {
                &&& step matches Step::GetPlaylist(uri, query)
                &&& uri == playlist_uri
                &&& asks_for_playlist(query, playlist_uri@)
            },
    {
        if cache_contains(&player.context_cache, &playlist_uri) {
            Step::Done { update_playback: false }
        } else {
            let query: PlaylistQuery = self.get_playlist(playlist_uri.as_str());
            Step::GetPlaylist(playlist_uri, query)
        }
    }

    /// Puts a playlist into the cache with the tracks of its first page, and asks for the second
    /// page if there is one.
    pub fn playlist_received(
        &self,
        player: &mut PlayerState,
        playlist_uri: String,
        reply: Result<FullPlaylist, String>,
    ) -> (step: Step)
        ensures
            playlist_begins(*self, *old(player), playlist_uri, reply, *final(player), step),
            final(player).token == old(player).token,
    {
        match Self::handle_rspotify_result(reply) {
            Ok(playlist) => {
                let ghost view = playlist.deep_view();
                let ghost tracks = accessible_tracks(view.tracks.items);
                let first_page: Page<PlaylistTrack> = playlist.tracks.clone();
                assert(first_page.items.deep_view() =~= view.tracks.items);
                let first_items: Vec<PlaylistTrack> = first_page.items.clone();
                assert(first_items.deep_view() =~= view.tracks.items);
                cache_put(
                    &mut player.context_cache,
                    playlist_uri.clone(),
                    Context::Playlist(playlist, into_accessible_tracks(first_items)),
                );
                let ghost entries = cache_entries(player.context_cache);
                match self.get_all_paging_items(Vec::new(), first_page) {
                    Paging::Complete(items) => {
                        assert(items.deep_view() =~= view.tracks.items);
                        proof {
                            assert(lookup(entries, playlist_uri@) == Some(
                                ContextView::Playlist(view, tracks),
                            ));
                            lemma_replaced_by_itself(entries, playlist_uri@);
                        }
                        set_playlist_tracks(
                            &mut player.context_cache,
                            &playlist_uri,
                            into_accessible_tracks(items),
                        );
                        Step::Done { update_playback: false }
                    },
                    Paging::More(items, request) => {
                        assert(items.deep_view() =~= view.tracks.items);
                        Step::GetPlaylistTracks(playlist_uri, items, request)
                    },
                }
            },
            Err(error) => Step::Failed(error),
        }
    }

    /// Adds a page of a playlist's entries, and notes the tracks of all pages in the cache once
    /// the last page is there.
    pub fn playlist_tracks_received(
        &self,
        player: &mut PlayerState,
        playlist_uri: String,
        so_far: Vec<PlaylistTrack>,
        reply: Result<Page<PlaylistTrack>, String>,
    ) -> (step: Step)
        ensures
            playlist_goes_on(
                *self,
                *old(player),
                playlist_uri,
                so_far,
                reply,
                *final(player),
                step,
            ),
            final(player).token == old(player).token,
    {
        match Self::handle_rspotify_result(reply) {
            Ok(page) => {
                let ghost expected = so_far.deep_view() + page.items.deep_view();
                match self.get_all_paging_items(so_far, page) {
                    Paging::Complete(items) => {
                        assert(items.deep_view() =~= expected);
                        set_playlist_tracks(
                            &mut player.context_cache,
                            &playlist_uri,
                            into_accessible_tracks(items),
                        );
                        Step::Done { update_playback: false }
                    },
                    Paging::More(items, request) => Step::GetPlaylistTracks(
                        playlist_uri,
                        items,
                        request,
                    ),
                }
            },
            Err(error) => Step::Failed(error),
        }
    }

    /// Begins to fetch an album, unless it is in the cache.
    pub fn get_album_context(&self, player: &PlayerState, album_uri: String) -> (step: Step)
        ensures
            if lookup(cache_entries(player.context_cache), album_uri@) is Some {
                step == (Step::Done { update_playback: false })
            } else {
                &&& step matches Step::GetAlbum(uri, query)
                &&& uri == album_uri
                &&& query.album_uri@ == album_uri@
            },
    {
        if cache_contains(&player.context_cache, &album_uri) {
            Step::Done { update_playback: false }
        } else {
            let query: AlbumQuery = self.get_album(album_uri.as_str());
            Step::GetAlbum(album_uri, query)
        }
    }

    /// Takes an album with the first page of its tracks. If that is the only page, the album is
    /// put into the cache; otherwise the second page is asked for.
    pub fn album_received(
        &self,
        player: &mut PlayerState,
        album_uri: String,
        reply: Result<FullAlbum, String>,
    ) -> (step: Step)
        ensures
            album_begins(*self, *old(player), album_uri, reply, *final(player), step),
            final(player).token == old(player).token,
    {
        match Self::handle_rspotify_result(reply) {
            Ok(album) => {
                let ghost expected = album.deep_view().tracks.items;
                let first_page: Page<SimplifiedTrack> = album.tracks.clone();
                assert(first_page.items.deep_view() =~= expected);
                match self.get_all_paging_items(Vec::new(), first_page) {
                    Paging::Complete(items) => {
                        assert(items.deep_view() =~= expected);
                        let tracks: Vec<Track> = into_tracks_on(&album, items);
                        cache_put(
                            &mut player.context_cache,
                            album_uri,
                            Context::Album(album, tracks),
                        );
                        Step::Done { update_playback: false }
                    },
                    Paging::More(items, request) => {
                        assert(items.deep_view() =~= expected);
                        Step::GetAlbumTracks(album_uri, album, items, request)
                    },
                }
            },
            Err(error) => Step::Failed(error),
        }
    }

    /// Adds a page of an album's tracks, and puts the album into the cache once the last page is
    /// there.
    pub fn album_tracks_received(
        &self,
        player: &mut PlayerState,
        album_uri: String,
        album: FullAlbum,
        so_far: Vec<SimplifiedTrack>,
        reply: Result<Page<SimplifiedTrack>, String>,
    ) -> (step: Step)
        ensures
            album_goes_on(
                *self,
                *old(player),
                album_uri,
                album,
                so_far,
                reply,
                *final(player),
                step,
            ),
            final(player).token == old(player).token,
    {
        match Self::handle_rspotify_result(reply) {
            Ok(page) => {
                let ghost expected = so_far.deep_view() + page.items.deep_view();
                match self.get_all_paging_items(so_far, page) {
                    Paging::Complete(items) => {
                        assert(items.deep_view() =~= expected);
                        let tracks: Vec<Track> = into_tracks_on(&album, items);
                        cache_put(
                            &mut player.context_cache,
                            album_uri,
                            Context::Album(album, tracks),
                        );
                        Step::Done { update_playback: false }
                    },
                    Paging::More(items, request) => Step::GetAlbumTracks(
                        album_uri,
                        album,
                        items,
                        request,
                    ),
                }
            },
            Err(error) => Step::Failed(error),
        }
    }

    /// Begins to fetch an artist, unless they are in the cache.
    pub fn get_artist_context(&self, player: &PlayerState, artist_uri: String) -> (step: Step)
        ensures
            if lookup(cache_entries(player.context_cache), artist_uri@) is Some {
                step == (Step::Done { update_playback: false })
            } else {
                &&& step matches Step::GetArtist(uri, query)
                &&& uri == artist_uri
                &&& query.artist_uri@ == artist_uri@
            },
    {
        if cache_contains(&player.context_cache, &artist_uri) {
            Step::Done { update_playback: false }
        } else {
            let query: ArtistQuery = self.get_artist(artist_uri.as_str());
            Step::GetArtist(artist_uri, query)
        }
    }

    /// Takes an artist, and asks for their top tracks.
    pub fn artist_received(
        &self,
        artist_uri: String,
        reply: Result<FullArtist, String>,
    ) -> (step: Step)
        ensures
            artist_begins(artist_uri, reply, step),
    {
        match Self::handle_rspotify_result(reply) {
            Ok(artist) => {
                let query: TopTracksQuery = self.get_artist_top_tracks(artist_uri.as_str());
                Step::GetArtistTopTracks(artist_uri, artist, query)
            },
            Err(error) => Step::Failed(error),
        }
    }

    /// Takes the top tracks of an artist, and asks for the related artists.
    pub fn artist_top_tracks_received(
        &self,
        artist_uri: String,
        artist: FullArtist,
        reply: Result<Vec<FullTrack>, String>,
    ) -> (step: Step)
        ensures
            top_tracks_go_on(artist_uri, artist, reply, step),
    {
        match Self::handle_rspotify_result(reply) {
            Ok(tracks) => {
                let query: RelatedArtistsQuery = self.get_related_artists(artist_uri.as_str());
                Step::GetRelatedArtists(artist_uri, artist, into_tracks(tracks), query)
            },
            Err(error) => Step::Failed(error),
        }
    }

    /// Puts an artist into the cache, as yet without albums, and begins to fetch the albums.
    pub fn related_artists_received(
        &self,
        player: &mut PlayerState,
        artist_uri: String,
        artist: FullArtist,
        top_tracks: Vec<Track>,
        reply: Result<Vec<FullArtist>, String>,
    ) -> (step: Step)
        ensures
            artist_is_put(
                *old(player),
                artist_uri,
                artist,
                top_tracks,
                reply,
                *final(player),
                step,
            ),
            final(player).token == old(player).token,
    {
        match Self::handle_rspotify_result(reply) {
            Ok(related_artists) => {
                let albums: Vec<Album> = Vec::new();
                assert(albums.deep_view() =~= Seq::<AlbumView>::empty());
                cache_put(
                    &mut player.context_cache,
                    artist_uri.clone(),
                    Context::Artist(artist, top_tracks, albums, into_artists(related_artists)),
                );
                let pending: ArtistAlbums = self.get_artist_albums(artist_uri.as_str());
                Step::GetArtistAlbums(artist_uri, pending)
            },
            Err(error) => Step::Failed(error),
        }
    }

    /// Begins to collect the albums of an artist.
    pub fn get_artist_albums(&self, artist_uri: &str) -> (pending: ArtistAlbums)
        ensures
            begins_artist_albums(pending, artist_uri@),
    {
        ArtistAlbums::Singles {
            singles: Vec::new(),
            source: PageSource::First(
                ArtistAlbumsQuery {
                    artist_uri: artist_uri.to_string(),
                    album_type: Some(AlbumType::Single),
                    country: None,
                    limit: Some(PAGE_SIZE),
                    offset: None,
                },
            ),
        }
    }

    /// Adds a page of the albums of an artist. Once all singles are there, the albums are asked
    /// for; once those are there too, the listing is cleaned up.
    pub fn add_artist_albums(
        &self,
        artist_uri: &str,
        pending: ArtistAlbums,
        page: Page<SimplifiedAlbum>,
    ) -> (paging: ArtistAlbumsPaging)
        ensures
            artist_albums_go_on(*self, artist_uri@, pending, page, paging),
    {
        match pending {
            ArtistAlbums::Singles { singles, source: _ } => {
                match self.get_all_paging_items(singles, page) {
                    Paging::Complete(singles) => ArtistAlbumsPaging::More(
                        ArtistAlbums::Albums {
                            singles,
                            albums: Vec::new(),
                            source: PageSource::First(
                                ArtistAlbumsQuery {
                                    artist_uri: artist_uri.to_string(),
                                    album_type: Some(AlbumType::Album),
                                    country: None,
                                    limit: Some(PAGE_SIZE),
                                    offset: None,
                                },
                            ),
                        },
                    ),
                    Paging::More(singles, request) => ArtistAlbumsPaging::More(
                        ArtistAlbums::Singles { singles, source: PageSource::Next(request) },
                    ),
                }
            },
            ArtistAlbums::Albums { singles, albums, source: _ } => {
                let ghost expected = albums.deep_view() + page.items.deep_view()
                    + singles.deep_view();
                match self.get_all_paging_items(albums, page) {
                    Paging::Complete(albums) => {
                        let mut all: Vec<SimplifiedAlbum> = albums;
                        let mut singles: Vec<SimplifiedAlbum> = singles;
                        all.append(&mut singles);
                        assert(all.deep_view() =~= expected);
                        ArtistAlbumsPaging::Complete(self.clean_up_artist_albums(all))
                    },
                    Paging::More(albums, request) => ArtistAlbumsPaging::More(
                        ArtistAlbums::Albums { singles, albums, source: PageSource::Next(request) },
                    ),
                }
            },
        }
    }

    /// Adds a page of the albums of an artist, and notes them in the cache once the last page is
    /// there.
    pub fn artist_albums_received(
        &self,
        player: &mut PlayerState,
        artist_uri: String,
        pending: ArtistAlbums,
        reply: Result<Page<SimplifiedAlbum>, String>,
    ) -> (step: Step)
        ensures
            artist_goes_on(*self, *old(player), artist_uri, pending, reply, *final(player), step),
            final(player).token == old(player).token,
    {
        match Self::handle_rspotify_result(reply) {
            Ok(page) => match self.add_artist_albums(artist_uri.as_str(), pending, page) {
                ArtistAlbumsPaging::Complete(albums) => {
                    set_artist_albums(
                        &mut player.context_cache,
                        &artist_uri,
                        into_albums(albums),
                    );
                    Step::Done { update_playback: false }
                },
                ArtistAlbumsPaging::More(pending) => Step::GetArtistAlbums(artist_uri, pending),
            },
            Err(error) => Step::Failed(error),
        }
    }
}

/// Noting the tracks of a playlist keeps the order of use, and touches no other context. The
/// playlist then has the tracks, if it is still in the cache.
pub proof fn noting_tracks_touches_one_playlist(
    entries: Seq<Entry>,
    key: Seq<char>,
    tracks: Seq<TrackView>,
    other: Seq<char>,
)
    ensures
        keys(with_playlist_tracks(entries, key, tracks)) == keys(entries),
        other != key ==> lookup(with_playlist_tracks(entries, key, tracks), other) == lookup(
            entries,
            other,
        ),
        lookup(with_playlist_tracks(entries, key, tracks), key) == match lookup(entries, key) {
            Some(ContextView::Playlist(playlist, _)) => Some(
                ContextView::Playlist(playlist, tracks),
            ),
            unchanged => unchanged,
        },
{
    if let Some(ContextView::Playlist(playlist, _)) = lookup(entries, key) {
        replacing_touches_one_key(entries, key, ContextView::Playlist(playlist, tracks), other);
    }
}

/// Noting the albums of an artist keeps the order of use, and touches no other context. The artist
/// then has the albums, if they are still in the cache.
pub proof fn noting_albums_touches_one_artist(
    entries: Seq<Entry>,
    key: Seq<char>,
    albums: Seq<AlbumView>,
    other: Seq<char>,
)
    ensures
        keys(with_artist_albums(entries, key, albums)) == keys(entries),
        other != key ==> lookup(with_artist_albums(entries, key, albums), other) == lookup(
            entries,
            other,
        ),
        lookup(with_artist_albums(entries, key, albums), key) == match lookup(entries, key) {
            Some(ContextView::Artist(artist, top_tracks, _, related_artists)) => Some(
                ContextView::Artist(artist, top_tracks, albums, related_artists),
            ),
            unchanged => unchanged,
        },
{
    if let Some(ContextView::Artist(artist, top_tracks, _, related_artists)) = lookup(
        entries,
        key,
    ) {
        replacing_touches_one_key(
            entries,
            key,
            ContextView::Artist(artist, top_tracks, albums, related_artists),
            other,
        );
    }
}

/// Whatever is fetched, a well-formed cache stays well-formed.
pub proof fn fetching_keeps_cache_well_formed(
    entries: Seq<Entry>,
    capacity: nat,
    key: Seq<char>,
    context: ContextView,
    tracks: Seq<TrackView>,
    albums: Seq<AlbumView>,
)
    requires
        well_formed(entries, capacity),
    ensures
        well_formed(inserted(entries, capacity, key, context), capacity),
        well_formed(with_playlist_tracks(entries, key, tracks), capacity),
        well_formed(with_artist_albums(entries, key, albums), capacity),
{
    inserting_keeps_well_formed(entries, capacity, key, context);
    match lookup(entries, key) {
        Some(ContextView::Playlist(playlist, _)) => {
            replacing_keeps_well_formed(
                entries,
                capacity,
                key,
                ContextView::Playlist(playlist, tracks),
            );
        },
        Some(ContextView::Artist(artist, top_tracks, _, related_artists)) => {
            replacing_keeps_well_formed(
                entries,
                capacity,
                key,
                ContextView::Artist(artist, top_tracks, albums, related_artists),
            );
        },
        _ => {},
    }
}

/// States that differ in their caches alone agree in everything else that is known, and in the size
/// of the caches.
pub proof fn only_the_cache_differs(before: PlayerState, after: PlayerState)
    requires
        same_but_cache(before, after),
    ensures
        after.token == before.token,
        after.playback == before.playback,
        after.playback_last_updated == before.playback_last_updated,
        after.devices == before.devices,
        after.user_playlists == before.user_playlists,
        after.user_followed_artists == before.user_followed_artists,
        after.user_saved_albums == before.user_saved_albums,
        after.context_uri == before.context_uri,
        cache_capacity(after.context_cache) == cache_capacity(before.context_cache),
{
}

/// Putting a context under a key changes the cache alone. The context is found there as the entry
/// used last, and every other key that is still there holds what it held.
pub proof fn putting_changes_the_cache_alone(
    before: PlayerState,
    after: PlayerState,
    key: Seq<char>,
    context: ContextView,
    other: Seq<char>,
)
    requires
        puts(before, after, key, context),
    ensures
        after.token == before.token,
        after.playback == before.playback,
        after.playback_last_updated == before.playback_last_updated,
        after.devices == before.devices,
        after.user_playlists == before.user_playlists,
        after.user_followed_artists == before.user_followed_artists,
        after.user_saved_albums == before.user_saved_albums,
        after.context_uri == before.context_uri,
        cache_capacity(after.context_cache) == cache_capacity(before.context_cache),
        cache_entries(after.context_cache) == inserted(
            cache_entries(before.context_cache),
            cache_capacity(before.context_cache),
            key,
            context,
        ),
        cache_entries(after.context_cache)[0] == (key, context),
        lookup(cache_entries(after.context_cache), key) == Some(context),
        other != key && lookup(cache_entries(after.context_cache), other) is Some ==> lookup(
            cache_entries(after.context_cache),
            other,
        ) == lookup(cache_entries(before.context_cache), other),
{
    if other != key {
        inserting_changes_no_other_key(
            cache_entries(before.context_cache),
            cache_capacity(before.context_cache),
            key,
            context,
            other,
        );
    }
}

/// An answer that failed changes nothing, whatever it was to, and ends the fetch with its reason.
pub proof fn failed_answer_changes_nothing(
    client: Client,
    before: PlayerState,
    uri: String,
    reason: String,
    after: PlayerState,
    step: Step,
    playlist_entries: Vec<PlaylistTrack>,
    album: FullAlbum,
    album_tracks: Vec<SimplifiedTrack>,
    artist: FullArtist,
    top_tracks: Vec<Track>,
    pending: ArtistAlbums,
)
    requires
        playlist_begins(client, before, uri, Err(reason), after, step) || playlist_goes_on(
            client,
            before,
            uri,
            playlist_entries,
            Err(reason),
            after,
            step,
        ) || album_begins(client, before, uri, Err(reason), after, step) || album_goes_on(
            client,
            before,
            uri,
            album,
            album_tracks,
            Err(reason),
            after,
            step,
        ) || artist_is_put(before, uri, artist, top_tracks, Err(reason), after, step)
            || artist_goes_on(client, before, uri, pending, Err(reason), after, step) || (after
            == before && artist_begins(uri, Err(reason), step)) || (after == before
            && top_tracks_go_on(uri, artist, Err(reason), step)),
    ensures
        after == before,
        step == Step::Failed(ClientError::Request(reason)),
{
}

/// With the answer that brings a playlist, it is put into the cache under its address with the
/// accessible tracks of its first page. The fetch goes on exactly where there is another page, with
/// all entries of the first.
pub proof fn playlist_is_put_with_its_first_page(
    client: Client,
    before: PlayerState,
    playlist_uri: String,
    playlist: FullPlaylist,
    after: PlayerState,
    step: Step,
)
    requires
        playlist_begins(client, before, playlist_uri, Ok(playlist), after, step),
    ensures
        puts(
            before,
            after,
            playlist_uri@,
            ContextView::Playlist(
                playlist.deep_view(),
                accessible_tracks(playlist.tracks.items.deep_view()),
            ),
        ),
        playlist.tracks.next is None ==> step == (Step::Done { update_playback: false }),
        playlist.tracks.next matches Some(url) ==> match step {
            Step::GetPlaylistTracks(uri, items, request) => {
                &&& uri == playlist_uri
                &&& items.deep_view() == playlist.tracks.items.deep_view()
                &&& client.requests(request, url@)
            },
            _ => false,
        },
{
}

/// A further page of a playlist adds all its entries behind the others. Nothing is noted before the
/// last page; with it the playlist, if it is in the cache, has the accessible tracks of all
/// entries, and every other context and all else stays as it is.
pub proof fn playlist_page_adds_all_its_entries(
    client: Client,
    before: PlayerState,
    playlist_uri: String,
    so_far: Vec<PlaylistTrack>,
    page: Page<PlaylistTrack>,
    after: PlayerState,
    step: Step,
    other: Seq<char>,
)
    requires
        playlist_goes_on(client, before, playlist_uri, so_far, Ok(page), after, step),
    ensures
        after.token == before.token,
        after.playback == before.playback,
        after.playback_last_updated == before.playback_last_updated,
        after.devices == before.devices,
        after.user_playlists == before.user_playlists,
        after.user_followed_artists == before.user_followed_artists,
        after.user_saved_albums == before.user_saved_albums,
        after.context_uri == before.context_uri,
        page.next matches Some(url) ==> after == before && match step {
            Step::GetPlaylistTracks(uri, items, request) => {
                &&& uri == playlist_uri
                &&& items@ == so_far@ + page.items@
                &&& client.requests(request, url@)
            },
            _ => false,
        },
        page.next is None ==> {
            let found = lookup(cache_entries(after.context_cache), playlist_uri@);
            &&& step == (Step::Done { update_playback: false })
            &&& keys(cache_entries(after.context_cache)) == keys(
                cache_entries(before.context_cache),
            )
            &&& other != playlist_uri@ ==> lookup(cache_entries(after.context_cache), other)
                == lookup(cache_entries(before.context_cache), other)
            &&& match lookup(cache_entries(before.context_cache), playlist_uri@) {
                Some(ContextView::Playlist(playlist, _)) => found == Some(
                    ContextView::Playlist(
                        playlist,
                        accessible_tracks(so_far.deep_view() + page.items.deep_view()),
                    ),
                ),
                unchanged => found == unchanged,
            }
        },
{
    noting_tracks_touches_one_playlist(
        cache_entries(before.context_cache),
        playlist_uri@,
        accessible_tracks(so_far.deep_view() + page.items.deep_view()),
        other,
    );
}

/// With the answer that brings an album, it is put into the cache with its tracks if there is no
/// further page of them. Otherwise nothing changes yet, and the fetch goes on with the album and
/// all tracks of the first page.
pub proof fn album_is_put_once_it_is_whole(
    client: Client,
    before: PlayerState,
    album_uri: String,
    album: FullAlbum,
    after: PlayerState,
    step: Step,
)
    requires
        album_begins(client, before, album_uri, Ok(album), after, step),
    ensures
        album.tracks.next is None ==> step == (Step::Done { update_playback: false }) && puts(
            before,
            after,
            album_uri@,
            ContextView::Album(
                album.deep_view(),
                tracks_on(album.deep_view(), album.tracks.items.deep_view()),
            ),
        ),
        album.tracks.next matches Some(url) ==> after == before && match step {
            Step::GetAlbumTracks(uri, same_album, items, request) => {
                &&& uri == album_uri
                &&& same_album == album
                &&& items.deep_view() == album.tracks.items.deep_view()
                &&& client.requests(request, url@)
            },
            _ => false,
        },
{
}

/// A further page of an album adds all its tracks behind the others. With the last page, the album
/// is put into the cache with all of them.
pub proof fn album_page_adds_all_its_tracks(
    client: Client,
    before: PlayerState,
    album_uri: String,
    album: FullAlbum,
    so_far: Vec<SimplifiedTrack>,
    page: Page<SimplifiedTrack>,
    after: PlayerState,
    step: Step,
)
    requires
        album_goes_on(client, before, album_uri, album, so_far, Ok(page), after, step),
    ensures
        page.next is None ==> step == (Step::Done { update_playback: false }) && puts(
            before,
            after,
            album_uri@,
            ContextView::Album(
                album.deep_view(),
                tracks_on(album.deep_view(), so_far.deep_view() + page.items.deep_view()),
            ),
        ),
        page.next matches Some(url) ==> after == before && match step {
            Step::GetAlbumTracks(uri, same_album, items, request) => {
                &&& uri == album_uri
                &&& same_album == album
                &&& items@ == so_far@ + page.items@
                &&& client.requests(request, url@)
            },
            _ => false,
        },
{
}

/// An artist is asked for in three steps, each by the same address, and each handing on what the
/// answers before it brought: the artist, all top tracks, and the related artists. With the last
/// the artist is put into the cache with all of these and no albums, and the singles are asked for.
pub proof fn artist_is_asked_for_in_three_steps(
    before: PlayerState,
    artist_uri: String,
    artist: FullArtist,
    listing: Vec<FullTrack>,
    top_tracks: Vec<Track>,
    related: Vec<FullArtist>,
    after: PlayerState,
    step: Step,
)
    ensures
        artist_begins(artist_uri, Ok(artist), step) ==> match step {
            Step::GetArtistTopTracks(uri, same_artist, query) => {
                &&& uri == artist_uri
                &&& same_artist == artist
                &&& asks_for_top_tracks(query, artist_uri@)
            },
            _ => false,
        },
        top_tracks_go_on(artist_uri, artist, Ok(listing), step) ==> match step {
            Step::GetRelatedArtists(uri, same_artist, tracks, query) => {
                &&& uri == artist_uri
                &&& same_artist == artist
                &&& tracks.deep_view() == tracks_of(listing.deep_view())
                &&& query.artist_uri@ == artist_uri@
            },
            _ => false,
        },
        artist_is_put(before, artist_uri, artist, top_tracks, Ok(related), after, step) ==> puts(
            before,
            after,
            artist_uri@,
            ContextView::Artist(
                artist.deep_view(),
                top_tracks.deep_view(),
                Seq::empty(),
                artists_of(related.deep_view()),
            ),
        ) && match step {
            Step::GetArtistAlbums(uri, pending) => uri == artist_uri && begins_artist_albums(
                pending,
                artist_uri@,
            ),
            _ => false,
        },
{
}

/// The albums of an artist are asked for by their address, in pages of fifty from the first on, and
/// in no particular country; the singles are asked for first, before anything is collected.
pub proof fn singles_are_asked_for_first(pending: ArtistAlbums, artist_uri: Seq<char>)
    requires
        begins_artist_albums(pending, artist_uri),
    ensures
        match pending {
            ArtistAlbums::Singles { singles, source: PageSource::First(query) } => {
                &&& singles@.len() == 0
                &&& query.artist_uri@ == artist_uri
                &&& query.album_type == Some(AlbumType::Single)
                &&& query.country is None
                &&& query.limit == Some(50u32)
                &&& query.offset is None
            },
            _ => false,
        },
{
}

/// A page of an artist's singles or albums adds all its items behind the others of its kind, and
/// leaves those of the other kind alone. Behind the last single the first albums are asked for, and
/// behind every other page the page after it. The listing is complete with the last page of the
/// albums, and then holds the albums and behind them the singles, cleaned up.
pub proof fn page_of_albums_adds_all_its_items(
    client: Client,
    artist_uri: Seq<char>,
    pending: ArtistAlbums,
    page: Page<SimplifiedAlbum>,
    paging: ArtistAlbumsPaging,
)
    requires
        artist_albums_go_on(client, artist_uri, pending, page, paging),
    ensures
        paging is Complete <==> pending is Albums && page.next is None,
        match (pending, paging) {
            (
                ArtistAlbums::Singles { singles: before, .. },
                ArtistAlbumsPaging::More(ArtistAlbums::Singles { singles, source }),
            ) => {
                &&& page.next is Some
                &&& singles@ == before@ + page.items@
                &&& source matches PageSource::Next(request)
                &&& client.requests(request, page.next->0@)
            },
            (
                ArtistAlbums::Singles { singles: before, .. },
                ArtistAlbumsPaging::More(ArtistAlbums::Albums { singles, albums, source }),
            ) => {
                &&& page.next is None
                &&& singles@ == before@ + page.items@
                &&& albums@.len() == 0
                &&& source matches PageSource::First(query)
                &&& query.artist_uri@ == artist_uri
                &&& query.album_type == Some(AlbumType::Album)
                &&& query.country is None
                &&& query.limit == Some(50u32)
                &&& query.offset is None
            },
            (
                ArtistAlbums::Albums { singles: same, albums: before, .. },
                ArtistAlbumsPaging::More(ArtistAlbums::Albums { singles, albums, source }),
            ) => {
                &&& page.next is Some
                &&& singles == same
                &&& albums@ == before@ + page.items@
                &&& source matches PageSource::Next(request)
                &&& client.requests(request, page.next->0@)
            },
            (
                ArtistAlbums::Albums { singles, albums, .. },
                ArtistAlbumsPaging::Complete(shown),
            ) => shown.deep_view() == cleaned_up(
                albums.deep_view() + page.items.deep_view() + singles.deep_view(),
            ),
            _ => false,
        },
{
}

/// A page of an artist's albums changes nothing before the last one. With it the artist, if they
/// are in the cache, has the cleaned-up albums and singles of all pages, and every other context
/// and all else stays as it is.
pub proof fn albums_are_noted_once_they_are_whole(
    client: Client,
    before: PlayerState,
    artist_uri: String,
    pending: ArtistAlbums,
    page: Page<SimplifiedAlbum>,
    after: PlayerState,
    step: Step,
    other: Seq<char>,
)
    requires
        artist_goes_on(client, before, artist_uri, pending, Ok(page), after, step),
    ensures
        after.token == before.token,
        after.playback == before.playback,
        after.playback_last_updated == before.playback_last_updated,
        after.devices == before.devices,
        after.user_playlists == before.user_playlists,
        after.user_followed_artists == before.user_followed_artists,
        after.user_saved_albums == before.user_saved_albums,
        after.context_uri == before.context_uri,
        !(pending is Albums && page.next is None) ==> after == before && match step {
            Step::GetArtistAlbums(uri, next) => uri == artist_uri && artist_albums_go_on(
                client,
                artist_uri@,
                pending,
                page,
                ArtistAlbumsPaging::More(next),
            ),
            _ => false,
        },
        page.next is None ==> match pending {
            ArtistAlbums::Albums { singles, albums, .. } => {
                let found = lookup(cache_entries(after.context_cache), artist_uri@);
                &&& step == (Step::Done { update_playback: false })
                &&& keys(cache_entries(after.context_cache)) == keys(
                    cache_entries(before.context_cache),
                )
                &&& other != artist_uri@ ==> lookup(cache_entries(after.context_cache), other)
                    == lookup(cache_entries(before.context_cache), other)
                &&& match lookup(cache_entries(before.context_cache), artist_uri@) {
                    Some(ContextView::Artist(artist, top_tracks, _, related)) => found == Some(
                        ContextView::Artist(
                            artist,
                            top_tracks,
                            albums_of(
                                cleaned_up(
                                    albums.deep_view() + page.items.deep_view()
                                        + singles.deep_view(),
                                ),
                            ),
                            related,
                        ),
                    ),
                    unchanged => found == unchanged,
                }
            },
            _ => true,
        },
{
    if let ArtistAlbums::Albums { singles, albums, .. } = pending {
        noting_albums_touches_one_artist(
            cache_entries(before.context_cache),
            artist_uri@,
            albums_of(
                cleaned_up(
                    albums.deep_view() + page.items.deep_view() + singles.deep_view(),
                ),
            ),
            other,
        );
    }
}

} // verus!
