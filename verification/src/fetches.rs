//! What holds of a fetch as a whole, from its first answer to its last. Between two answers the
//! state of the player may change in any way: other contexts may come into the cache, and the one
//! that is being fetched may be dropped from it.
use crate::albums::cleaned_up;
use crate::cache::{cache_entries, lookup};
use crate::client::{collected, Client};
use crate::contexts::{
    album_begins, album_goes_on, artist_begins, artist_goes_on, artist_is_put,
    begins_artist_albums, noting_albums_touches_one_artist, noting_tracks_touches_one_playlist,
    playlist_begins, playlist_goes_on, top_tracks_go_on, with_playlist_tracks,
};
use crate::handler::{user_followed_artists_go_on, user_playlists_go_on, user_saved_albums_go_on};
use crate::listing::{
    accessible_tracks, accessible_tracks_add_up, albums_of, artists_of, every_artist_is_listed,
    every_saved_album_is_listed, saved_albums_of, tracks_of, tracks_on,
};
use crate::model::{
    AlbumView, FullAlbum, FullArtist, FullPlaylist, FullTrack, Page, PlaylistTrack, SavedAlbum,
    SimplifiedAlbum, SimplifiedPlaylist, SimplifiedTrack,
};
use crate::request::{ArtistAlbums, PageSource, Step};
use crate::state::{ContextView, PlayerState};
use vstd::prelude::*;

verus! {

/// The answers to the requests of a fetch in turn, each with the state of the player before and
/// after it was taken in, and with the step that it led to.
pub struct Fetch<T> {
    pub pages: Seq<Page<T>>,
    pub before: Seq<PlayerState>,
    pub after: Seq<PlayerState>,
    pub steps: Seq<Step>,
}

impl<T> Fetch<T> {
    /// The fetch but for its last answer.
    pub open spec fn drop_last(self) -> Fetch<T> {
        Fetch {
            pages: self.pages.drop_last(),
            before: self.before.drop_last(),
            after: self.after.drop_last(),
            steps: self.steps.drop_last(),
        }
    }

    /// Whether there is an answer, and all that belongs to each.
    pub open spec fn complete(self) -> bool {
        &&& self.pages.len() > 0
        &&& self.before.len() == self.pages.len()
        &&& self.after.len() == self.pages.len()
        &&& self.steps.len() == self.pages.len()
    }

    /// Whether the state of an answer is the one that the answer before it left.
    pub open spec fn goes_on_from_the_last(self, i: int) -> bool {
        self.before[i] == self.after[i - 1]
    }

    /// Whether nothing else changes the state of the player between two answers.
    pub open spec fn undisturbed(self) -> bool {
        forall|i: int| 1 <= i < self.pages.len() ==> #[trigger] self.goes_on_from_the_last(i)
    }
}

/// The contents of some pages, in order.
pub open spec fn listed<T: DeepView>(pages: Seq<Page<T>>) -> Seq<T::V>
    decreases pages.len(),
{
    if pages.len() == 0 {
        Seq::empty()
    } else {
        listed(pages.drop_last()) + pages.last().items.deep_view()
    }
}

proof fn lemma_deep_view_of_sum<T: DeepView>(all: Vec<T>, a: Vec<T>, b: Vec<T>)
    requires
        all@ == a@ + b@,
    ensures
        all.deep_view() == a.deep_view() + b.deep_view(),
{
    assert(all.deep_view() =~= a.deep_view() + b.deep_view());
}

/// Whether an answer of a playlist's fetch follows from the step before it.
pub open spec fn playlist_page_follows(
    client: Client,
    fetch: Fetch<PlaylistTrack>,
    i: int,
) -> bool {
    match fetch.steps[i - 1] {
        Step::GetPlaylistTracks(uri, so_far, _) => playlist_goes_on(
            client,
            fetch.before[i],
            uri,
            so_far,
            Ok(fetch.pages[i]),
            fetch.after[i],
            fetch.steps[i],
        ),
        _ => false,
    }
}

/// Whether a playlist is fetched page by page. The first page comes with the playlist.
pub open spec fn playlist_fetched(
    client: Client,
    uri: String,
    playlist: FullPlaylist,
    fetch: Fetch<PlaylistTrack>,
) -> bool {
    &&& fetch.complete()
    &&& fetch.pages[0] == playlist.tracks
    &&& playlist_begins(
        client,
        fetch.before[0],
        uri,
        Ok(playlist),
        fetch.after[0],
        fetch.steps[0],
    )
    &&& forall|i: int|
        1 <= i < fetch.pages.len() ==> #[trigger] playlist_page_follows(client, fetch, i)
}

proof fn lemma_playlist_fetched(
    client: Client,
    uri: String,
    playlist: FullPlaylist,
    fetch: Fetch<PlaylistTrack>,
)
    requires
        playlist_fetched(client, uri, playlist, fetch),
    ensures
        match fetch.pages.last().next {
            Some(url) => {
                &&& fetch.steps.last() matches Step::GetPlaylistTracks(same_uri, items, request)
                &&& same_uri == uri
                &&& items.deep_view() == listed(fetch.pages)
                &&& client.requests(request, url@)
            },
            None => {
                &&& fetch.steps.last() == (Step::Done { update_playback: false })
                &&& fetch.pages.len() > 1 ==> cache_entries(fetch.after.last().context_cache)
                    == with_playlist_tracks(
                    cache_entries(fetch.before.last().context_cache),
                    uri@,
                    accessible_tracks(listed(fetch.pages)),
                )
                &&& fetch.pages.len() == 1 ==> listed(fetch.pages)
                    == playlist.deep_view().tracks.items
            },
        },
    decreases fetch.pages.len(),
{
    let rest = fetch.drop_last();
    if fetch.pages.len() == 1 {
        assert(rest.pages =~= Seq::empty());
        assert(listed(rest.pages) =~= Seq::empty());
        assert(listed(fetch.pages) =~= playlist.deep_view().tracks.items);
    } else {
        assert forall|i: int| 1 <= i < rest.pages.len() implies #[trigger] playlist_page_follows(
            client,
            rest,
            i,
        ) by {
            assert(playlist_page_follows(client, fetch, i));
        }
        lemma_playlist_fetched(client, uri, playlist, rest);
        let n = fetch.pages.len() - 1;
        assert(playlist_page_follows(client, fetch, n));
        assert(fetch.steps[n - 1] == rest.steps.last());
        if let Step::GetPlaylistTracks(_, so_far, _) = rest.steps.last() {
            if let Step::GetPlaylistTracks(_, items, _) = fetch.steps.last() {
                lemma_deep_view_of_sum(items, so_far, fetch.pages.last().items);
            }
        }
    }
}

/// A playlist is fetched whole. With the first answer, it is in the cache with the accessible
/// tracks of its first page. With the last answer, which is the page that has no next one, it has
/// the accessible tracks of all pages, in order, if it is still in the cache.
pub proof fn playlist_is_fetched_whole(
    client: Client,
    uri: String,
    playlist: FullPlaylist,
    fetch: Fetch<PlaylistTrack>,
)
    requires
        playlist_fetched(client, uri, playlist, fetch),
    ensures
        lookup(cache_entries(fetch.after[0].context_cache), uri@) == Some(
            ContextView::Playlist(
                playlist.deep_view(),
                accessible_tracks(playlist.deep_view().tracks.items),
            ),
        ),
        fetch.steps.last() is Done <==> fetch.pages.last().next is None,
        fetch.steps.last() is Done && fetch.pages.len() == 1 ==> lookup(
            cache_entries(fetch.after.last().context_cache),
            uri@,
        ) == Some(
            ContextView::Playlist(playlist.deep_view(), accessible_tracks(listed(fetch.pages))),
        ),
        fetch.steps.last() is Done && fetch.pages.len() > 1 ==> match lookup(
            cache_entries(fetch.before.last().context_cache),
            uri@,
        ) {
            Some(ContextView::Playlist(cached, _)) => lookup(
                cache_entries(fetch.after.last().context_cache),
                uri@,
            ) == Some(ContextView::Playlist(cached, accessible_tracks(listed(fetch.pages)))),
            unchanged => lookup(cache_entries(fetch.after.last().context_cache), uri@)
                == unchanged,
        },
{
    lemma_playlist_fetched(client, uri, playlist, fetch);
    noting_tracks_touches_one_playlist(
        cache_entries(fetch.before.last().context_cache),
        uri@,
        accessible_tracks(listed(fetch.pages)),
        uri@,
    );
}

proof fn lemma_playlist_stays(
    client: Client,
    uri: String,
    playlist: FullPlaylist,
    fetch: Fetch<PlaylistTrack>,
    i: int,
)
    requires
        playlist_fetched(client, uri, playlist, fetch),
        fetch.undisturbed(),
        1 <= i < fetch.pages.len(),
    ensures
        fetch.before[i] == fetch.after[0],
    decreases i,
{
    assert(fetch.goes_on_from_the_last(i));
    if i > 1 {
        lemma_playlist_stays(client, uri, playlist, fetch, i - 1);
        assert(playlist_page_follows(client, fetch, i - 1));
        assert(playlist_page_follows(client, fetch, i));
    }
}

/// Where nothing else changes the state of the player meanwhile, a fetch that is done has left the
/// playlist in the cache with the accessible tracks of all pages, in order.
pub proof fn playlist_ends_up_in_the_cache(
    client: Client,
    uri: String,
    playlist: FullPlaylist,
    fetch: Fetch<PlaylistTrack>,
)
    requires
        playlist_fetched(client, uri, playlist, fetch),
        fetch.undisturbed(),
        fetch.steps.last() is Done,
    ensures
        lookup(cache_entries(fetch.after.last().context_cache), uri@) == Some(
            ContextView::Playlist(playlist.deep_view(), accessible_tracks(listed(fetch.pages))),
        ),
{
    playlist_is_fetched_whole(client, uri, playlist, fetch);
    if fetch.pages.len() > 1 {
        lemma_playlist_stays(client, uri, playlist, fetch, fetch.pages.len() - 1);
    }
}

/// The tracks that are shown of a playlist after its first answer stay first when the others come
/// in behind them.
pub proof fn first_tracks_stay_first(
    client: Client,
    uri: String,
    playlist: FullPlaylist,
    fetch: Fetch<PlaylistTrack>,
)
    requires
        playlist_fetched(client, uri, playlist, fetch),
    ensures
        accessible_tracks(playlist.deep_view().tracks.items).is_prefix_of(
            accessible_tracks(listed(fetch.pages)),
        ),
{
    lemma_first_tracks_stay_first(fetch.pages);
}

proof fn lemma_first_tracks_stay_first(pages: Seq<Page<PlaylistTrack>>)
    requires
        pages.len() > 0,
    ensures
        accessible_tracks(pages[0].items.deep_view()).is_prefix_of(
            accessible_tracks(listed(pages)),
        ),
    decreases pages.len(),
{
    let rest = pages.drop_last();
    if rest.len() == 0 {
        assert(listed(rest) =~= Seq::empty());
        assert(listed(pages) =~= pages[0].items.deep_view());
    } else {
        lemma_first_tracks_stay_first(rest);
        accessible_tracks_add_up(listed(rest), pages.last().items.deep_view());
    }
}

/// Whether an answer of an album's fetch follows from the step before it.
pub open spec fn album_page_follows(
    client: Client,
    fetch: Fetch<SimplifiedTrack>,
    i: int,
) -> bool {
    match fetch.steps[i - 1] {
        Step::GetAlbumTracks(uri, album, so_far, _) => album_goes_on(
            client,
            fetch.before[i],
            uri,
            album,
            so_far,
            Ok(fetch.pages[i]),
            fetch.after[i],
            fetch.steps[i],
        ),
        _ => false,
    }
}

/// Whether an album is fetched page by page. The first page comes with the album.
pub open spec fn album_fetched(
    client: Client,
    uri: String,
    album: FullAlbum,
    fetch: Fetch<SimplifiedTrack>,
) -> bool {
    &&& fetch.complete()
    &&& fetch.pages[0] == album.tracks
    &&& album_begins(client, fetch.before[0], uri, Ok(album), fetch.after[0], fetch.steps[0])
    &&& forall|i: int|
        1 <= i < fetch.pages.len() ==> #[trigger] album_page_follows(client, fetch, i)
}

/// An album is fetched whole. Nothing comes into the cache before the last answer, which is the
/// page that has no next one. With it, the album is in the cache with the tracks of all pages, in
/// order, each of them with that album.
pub proof fn album_is_fetched_whole(
    client: Client,
    uri: String,
    album: FullAlbum,
    fetch: Fetch<SimplifiedTrack>,
)
    requires
        album_fetched(client, uri, album, fetch),
    ensures
        match fetch.pages.last().next {
            Some(url) => {
                &&& fetch.after.last() == fetch.before.last()
                &&& fetch.steps.last() matches Step::GetAlbumTracks(
                    same_uri,
                    same_album,
                    items,
                    request,
                )
                &&& same_uri == uri
                &&& same_album == album
                &&& items.deep_view() == listed(fetch.pages)
                &&& client.requests(request, url@)
            },
            None => {
                &&& fetch.steps.last() == (Step::Done { update_playback: false })
                &&& lookup(cache_entries(fetch.after.last().context_cache), uri@) == Some(
                    ContextView::Album(
                        album.deep_view(),
                        tracks_on(album.deep_view(), listed(fetch.pages)),
                    ),
                )
            },
        },
    decreases fetch.pages.len(),
{
    let rest = fetch.drop_last();
    if fetch.pages.len() == 1 {
        assert(rest.pages =~= Seq::empty());
        assert(listed(rest.pages) =~= Seq::empty());
        assert(listed(fetch.pages) =~= album.deep_view().tracks.items);
    } else {
        assert forall|i: int| 1 <= i < rest.pages.len() implies #[trigger] album_page_follows(
            client,
            rest,
            i,
        ) by {
            assert(album_page_follows(client, fetch, i));
        }
        album_is_fetched_whole(client, uri, album, rest);
        let n = fetch.pages.len() - 1;
        assert(album_page_follows(client, fetch, n));
        assert(fetch.steps[n - 1] == rest.steps.last());
        if let Step::GetAlbumTracks(_, _, so_far, _) = rest.steps.last() {
            if let Step::GetAlbumTracks(_, _, items, _) = fetch.steps.last() {
                lemma_deep_view_of_sum(items, so_far, fetch.pages.last().items);
            }
        }
    }
}

/// Whether an answer of the fetch of an artist's albums follows from the step before it.
pub open spec fn artist_page_follows(
    client: Client,
    fetch: Fetch<SimplifiedAlbum>,
    i: int,
) -> bool {
    match fetch.steps[i - 1] {
        Step::GetArtistAlbums(uri, pending) => artist_goes_on(
            client,
            fetch.before[i],
            uri,
            pending,
            Ok(fetch.pages[i]),
            fetch.after[i],
            fetch.steps[i],
        ),
        _ => false,
    }
}

/// Whether the albums of an artist are fetched page by page.
pub open spec fn artist_albums_fetched(
    client: Client,
    uri: String,
    begin: ArtistAlbums,
    fetch: Fetch<SimplifiedAlbum>,
) -> bool {
    &&& fetch.complete()
    &&& begins_artist_albums(begin, uri@)
    &&& artist_goes_on(
        client,
        fetch.before[0],
        uri,
        begin,
        Ok(fetch.pages[0]),
        fetch.after[0],
        fetch.steps[0],
    )
    &&& forall|i: int|
        1 <= i < fetch.pages.len() ==> #[trigger] artist_page_follows(client, fetch, i)
}

/// Whether pages are those of a whole listing: every page but the last has a next one.
pub open spec fn whole<T>(pages: Seq<Page<T>>) -> bool {
    &&& pages.len() > 0
    &&& pages.last().next is None
    &&& forall|i: int| 0 <= i < pages.len() - 1 ==> (#[trigger] pages[i]).next is Some
}

proof fn lemma_listed_next<T: DeepView>(pages: Seq<Page<T>>, i: int)
    requires
        0 <= i < pages.len(),
    ensures
        listed(pages.take(i + 1)) == listed(pages.take(i)) + pages[i].items.deep_view(),
{
    assert(pages.take(i + 1).drop_last() =~= pages.take(i));
}

proof fn lemma_singles_fetched(
    client: Client,
    uri: String,
    begin: ArtistAlbums,
    fetch: Fetch<SimplifiedAlbum>,
    singles: Seq<Page<SimplifiedAlbum>>,
    albums: Seq<Page<SimplifiedAlbum>>,
    i: int,
)
    requires
        artist_albums_fetched(client, uri, begin, fetch),
        fetch.pages == singles + albums,
        whole(singles),
        0 <= i < singles.len(),
    ensures
        match fetch.steps[i] {
            Step::GetArtistAlbums(
                same_uri,
                ArtistAlbums::Singles { singles: so_far, source: _ },
            ) => {
                &&& same_uri == uri
                &&& i < singles.len() - 1
                &&& so_far.deep_view() == listed(singles.take(i + 1))
            },
            Step::GetArtistAlbums(
                same_uri,
                ArtistAlbums::Albums { singles: all, albums: none, source: _ },
            ) => {
                &&& same_uri == uri
                &&& i == singles.len() - 1
                &&& all.deep_view() == listed(singles)
                &&& none@.len() == 0
            },
            _ => false,
        },
    decreases i,
{
    let page = singles[i];
    assert(fetch.pages[i] == page);
    lemma_listed_next(singles, i);
    assert(singles.take(0) =~= Seq::empty());
    assert(singles.take(singles.len() as int) =~= singles);
    let pending = if i == 0 {
        begin
    } else {
        lemma_singles_fetched(client, uri, begin, fetch, singles, albums, i - 1);
        assert(artist_page_follows(client, fetch, i));
        fetch.steps[i - 1]->GetArtistAlbums_1
    };
    if let ArtistAlbums::Singles { singles: before, source: _ } = pending {
        assert(before.deep_view() =~= listed(singles.take(i)));
        match fetch.steps[i] {
            Step::GetArtistAlbums(_, ArtistAlbums::Singles { singles: so_far, source: _ }) => {
                lemma_deep_view_of_sum(so_far, before, page.items);
            },
            Step::GetArtistAlbums(_, ArtistAlbums::Albums { singles: all, .. }) => {
                lemma_deep_view_of_sum(all, before, page.items);
            },
            _ => {},
        }
    }
}

proof fn lemma_albums_fetched(
    client: Client,
    uri: String,
    begin: ArtistAlbums,
    fetch: Fetch<SimplifiedAlbum>,
    singles: Seq<Page<SimplifiedAlbum>>,
    albums: Seq<Page<SimplifiedAlbum>>,
    i: int,
)
    requires
        artist_albums_fetched(client, uri, begin, fetch),
        fetch.pages == singles + albums,
        whole(singles),
        whole(albums),
        0 <= i < albums.len(),
    ensures
        match fetch.steps[singles.len() + i - 1] {
            Step::GetArtistAlbums(
                same_uri,
                ArtistAlbums::Albums { singles: all, albums: so_far, source: _ },
            ) => {
                &&& same_uri == uri
                &&& all.deep_view() == listed(singles)
                &&& so_far.deep_view() == listed(albums.take(i))
            },
            _ => false,
        },
    decreases i,
{
    assert(albums.take(0) =~= Seq::empty());
    if i == 0 {
        lemma_singles_fetched(client, uri, begin, fetch, singles, albums, singles.len() - 1);
        if let Step::GetArtistAlbums(_, ArtistAlbums::Albums { albums: none, .. }) =
            fetch.steps[singles.len() - 1] {
            assert(none.deep_view() =~= listed(albums.take(0)));
        }
    } else {
        let n = singles.len() + i - 1;
        lemma_albums_fetched(client, uri, begin, fetch, singles, albums, i - 1);
        assert(fetch.pages[n] == albums[i - 1]);
        assert(artist_page_follows(client, fetch, n));
        lemma_listed_next(albums, i - 1);
        if let Step::GetArtistAlbums(_, ArtistAlbums::Albums { albums: before, .. }) =
            fetch.steps[n - 1] {
            if let Step::GetArtistAlbums(_, ArtistAlbums::Albums { albums: so_far, .. }) =
                fetch.steps[n] {
                lemma_deep_view_of_sum(so_far, before, albums[i - 1].items);
            }
        }
    }
}

/// The albums of an artist are fetched whole: first all pages of the singles, then all pages of the
/// albums. With the last answer the artist, if they are still in the cache, has the albums and the
/// singles of all pages, cleaned up. The rest that is known of the artist stays as it is.
pub proof fn artist_albums_are_fetched_whole(
    client: Client,
    uri: String,
    begin: ArtistAlbums,
    fetch: Fetch<SimplifiedAlbum>,
    singles: Seq<Page<SimplifiedAlbum>>,
    albums: Seq<Page<SimplifiedAlbum>>,
)
    requires
        artist_albums_fetched(client, uri, begin, fetch),
        fetch.pages == singles + albums,
        whole(singles),
        whole(albums),
    ensures
        fetch.steps.last() == (Step::Done { update_playback: false }),
        forall|i: int| 0 <= i < fetch.steps.len() - 1 ==> #[trigger] fetch.steps[i] !is Done,
        lookup(cache_entries(fetch.after.last().context_cache), uri@) == match lookup(
            cache_entries(fetch.before.last().context_cache),
            uri@,
        ) {
            Some(ContextView::Artist(artist, top_tracks, _, related_artists)) => Some(
                ContextView::Artist(
                    artist,
                    top_tracks,
                    albums_of(cleaned_up(listed(albums) + listed(singles))),
                    related_artists,
                ),
            ),
            unchanged => unchanged,
        },
{
    let n = fetch.pages.len() - 1;
    let i = albums.len() - 1;
    lemma_albums_fetched(client, uri, begin, fetch, singles, albums, i);
    assert(fetch.pages[n] == albums[i]);
    assert(artist_page_follows(client, fetch, n));
    lemma_listed_next(albums, i);
    assert(albums.take(i + 1) =~= albums);
    noting_albums_touches_one_artist(
        cache_entries(fetch.before.last().context_cache),
        uri@,
        albums_of(cleaned_up(listed(albums) + listed(singles))),
        uri@,
    );
    assert forall|i: int|
        0 <= i < fetch.steps.len() - 1 implies #[trigger] fetch.steps[i] !is Done by {
        if i < singles.len() {
            lemma_singles_fetched(client, uri, begin, fetch, singles, albums, i);
        } else {
            lemma_albums_fetched(
                client,
                uri,
                begin,
                fetch,
                singles,
                albums,
                i + 1 - singles.len(),
            );
        }
    }
}

/// The answers to the requests for an artist that come before the pages of their albums, with the
/// steps that they led to, and with the state of the player before and after the last of them.
pub struct ArtistFetch {
    pub artist: FullArtist,
    pub artist_step: Step,
    pub top_tracks: Vec<FullTrack>,
    pub top_tracks_step: Step,
    pub related_artists: Vec<FullArtist>,
    pub related_artists_step: Step,
    pub before: PlayerState,
    pub after: PlayerState,
}

impl ArtistFetch {
    /// The artist with what the answers hold, and with given albums.
    pub open spec fn with_albums(self, albums: Seq<AlbumView>) -> ContextView {
        ContextView::Artist(
            self.artist.deep_view(),
            tracks_of(self.top_tracks.deep_view()),
            albums,
            artists_of(self.related_artists.deep_view()),
        )
    }
}

/// Whether an artist is fetched up to their albums: the artist first, then the top tracks, then the
/// related artists.
pub open spec fn artist_fetched(uri: String, fetch: ArtistFetch) -> bool {
    &&& artist_begins(uri, Ok(fetch.artist), fetch.artist_step)
    &&& fetch.artist_step matches Step::GetArtistTopTracks(next_uri, artist, _)
    &&& top_tracks_go_on(next_uri, artist, Ok(fetch.top_tracks), fetch.top_tracks_step)
    &&& fetch.top_tracks_step matches Step::GetRelatedArtists(last_uri, same_artist, tracks, _)
    &&& artist_is_put(
        fetch.before,
        last_uri,
        same_artist,
        tracks,
        Ok(fetch.related_artists),
        fetch.after,
        fetch.related_artists_step,
    )
}

/// Once the related artists are there, the artist is in the cache, as yet without albums, and the
/// albums are asked for.
pub proof fn artist_is_shown_before_the_albums(uri: String, fetch: ArtistFetch)
    requires
        artist_fetched(uri, fetch),
    ensures
        lookup(cache_entries(fetch.after.context_cache), uri@) == Some(
            fetch.with_albums(Seq::empty()),
        ),
        fetch.related_artists_step matches Step::GetArtistAlbums(same_uri, pending) && same_uri
            == uri && begins_artist_albums(pending, uri@),
{
}

proof fn lemma_artist_stays(
    client: Client,
    uri: String,
    begin: ArtistAlbums,
    fetch: Fetch<SimplifiedAlbum>,
    i: int,
)
    requires
        artist_albums_fetched(client, uri, begin, fetch),
        fetch.undisturbed(),
        0 <= i < fetch.pages.len(),
        forall|i: int| 0 <= i < fetch.steps.len() - 1 ==> #[trigger] fetch.steps[i] !is Done,
    ensures
        fetch.before[i] == fetch.before[0],
    decreases i,
{
    if i > 0 {
        lemma_artist_stays(client, uri, begin, fetch, i - 1);
        assert(fetch.goes_on_from_the_last(i));
        assert(fetch.steps[i - 1] !is Done);
        if i > 1 {
            assert(artist_page_follows(client, fetch, i - 1));
        }
    }
}

/// An artist is fetched whole. Where nothing else changes the state of the player meanwhile, the
/// artist ends up in the cache with their top tracks, the albums and singles of all pages, cleaned
/// up, and the related artists.
pub proof fn artist_is_fetched_whole(
    client: Client,
    uri: String,
    first: ArtistFetch,
    begin: ArtistAlbums,
    fetch: Fetch<SimplifiedAlbum>,
    singles: Seq<Page<SimplifiedAlbum>>,
    albums: Seq<Page<SimplifiedAlbum>>,
)
    requires
        artist_fetched(uri, first),
        first.related_artists_step == Step::GetArtistAlbums(uri, begin),
        artist_albums_fetched(client, uri, begin, fetch),
        fetch.pages == singles + albums,
        whole(singles),
        whole(albums),
        fetch.before[0] == first.after,
        fetch.undisturbed(),
    ensures
        fetch.steps.last() == (Step::Done { update_playback: false }),
        lookup(cache_entries(fetch.after.last().context_cache), uri@) == Some(
            first.with_albums(albums_of(cleaned_up(listed(albums) + listed(singles)))),
        ),
{
    artist_is_shown_before_the_albums(uri, first);
    artist_albums_are_fetched_whole(client, uri, begin, fetch, singles, albums);
    lemma_artist_stays(client, uri, begin, fetch, fetch.pages.len() - 1);
}

/// Whether an answer of the fetch of the user's playlists follows from the step before it.
pub open spec fn user_playlists_page_follows(
    client: Client,
    fetch: Fetch<SimplifiedPlaylist>,
    i: int,
) -> bool {
    match fetch.steps[i - 1] {
        Step::GetUserPlaylists(so_far, _) => user_playlists_go_on(
            client,
            fetch.before[i],
            so_far,
            Ok(fetch.pages[i]),
            fetch.after[i],
            fetch.steps[i],
        ),
        _ => false,
    }
}

/// Whether the playlists of the user are fetched page by page, from the step that the event for
/// them begins with.
pub open spec fn user_playlists_fetched(
    client: Client,
    begin: Vec<SimplifiedPlaylist>,
    fetch: Fetch<SimplifiedPlaylist>,
) -> bool {
    &&& fetch.complete()
    &&& begin@.len() == 0
    &&& user_playlists_go_on(
        client,
        fetch.before[0],
        begin,
        Ok(fetch.pages[0]),
        fetch.after[0],
        fetch.steps[0],
    )
    &&& forall|i: int|
        1 <= i < fetch.pages.len() ==> #[trigger] user_playlists_page_follows(client, fetch, i)
}

/// The playlists of the user are fetched whole. With the last answer, which is the page that has
/// no next one, the playlists of all pages are noted, in order.
pub proof fn user_playlists_are_fetched_whole(
    client: Client,
    begin: Vec<SimplifiedPlaylist>,
    fetch: Fetch<SimplifiedPlaylist>,
)
    requires
        user_playlists_fetched(client, begin, fetch),
    ensures
        match fetch.pages.last().next {
            Some(url) => {
                &&& fetch.after.last() == fetch.before.last()
                &&& fetch.steps.last() matches Step::GetUserPlaylists(
                    items,
                    PageSource::Next(request),
                )
                &&& items@ == collected(fetch.pages)
                &&& client.requests(request, url@)
            },
            None => {
                &&& fetch.steps.last() == (Step::Done { update_playback: false })
                &&& fetch.after.last().user_playlists@ == collected(fetch.pages)
            },
        },
    decreases fetch.pages.len(),
{
    let rest = fetch.drop_last();
    if fetch.pages.len() == 1 {
        assert(rest.pages =~= Seq::empty());
        assert(collected(rest.pages) =~= begin@);
    } else {
        assert forall|i: int|
            1 <= i < rest.pages.len() implies #[trigger] user_playlists_page_follows(
            client,
            rest,
            i,
        ) by {
            assert(user_playlists_page_follows(client, fetch, i));
        }
        user_playlists_are_fetched_whole(client, begin, rest);
        let n = fetch.pages.len() - 1;
        assert(user_playlists_page_follows(client, fetch, n));
        assert(fetch.steps[n - 1] == rest.steps.last());
    }
}

/// Whether an answer of the fetch of the user's followed artists follows from the step before it.
pub open spec fn user_followed_artists_page_follows(
    client: Client,
    fetch: Fetch<FullArtist>,
    i: int,
) -> bool {
    match fetch.steps[i - 1] {
        Step::GetUserFollowedArtists(so_far, _) => user_followed_artists_go_on(
            client,
            fetch.before[i],
            so_far,
            Ok(fetch.pages[i]),
            fetch.after[i],
            fetch.steps[i],
        ),
        _ => false,
    }
}

/// Whether the artists that the user follows are fetched page by page, from the step
/// that the event for them begins with.
pub open spec fn user_followed_artists_fetched(
    client: Client,
    begin: Vec<FullArtist>,
    fetch: Fetch<FullArtist>,
) -> bool {
    &&& fetch.complete()
    &&& begin@.len() == 0
    &&& user_followed_artists_go_on(
        client,
        fetch.before[0],
        begin,
        Ok(fetch.pages[0]),
        fetch.after[0],
        fetch.steps[0],
    )
    &&& forall|i: int|
        1 <= i < fetch.pages.len() ==> #[trigger] user_followed_artists_page_follows(
            client,
            fetch,
            i,
        )
}

/// The artists that the user follows are fetched whole. With the last answer, which is
/// the page that has no next one, the artists of all pages are noted, in order.
pub proof fn user_followed_artists_are_fetched_whole(
    client: Client,
    begin: Vec<FullArtist>,
    fetch: Fetch<FullArtist>,
)
    requires
        user_followed_artists_fetched(client, begin, fetch),
    ensures
        match fetch.pages.last().next {
            Some(url) => {
                &&& fetch.after.last() == fetch.before.last()
                &&& fetch.steps.last() matches Step::GetUserFollowedArtists(
                    items,
                    PageSource::Next(request),
                )
                &&& items.deep_view() == listed(fetch.pages)
                &&& client.requests(request, url@)
            },
            None => {
                &&& fetch.steps.last() == (Step::Done { update_playback: false })
                &&& fetch.after.last().user_followed_artists.deep_view() == artists_of(
                    listed(fetch.pages),
                )
            },
        },
    decreases fetch.pages.len(),
{
    let rest = fetch.drop_last();
    if fetch.pages.len() == 1 {
        assert(rest.pages =~= Seq::empty());
        assert(listed(rest.pages) =~= begin.deep_view());
        if let Step::GetUserFollowedArtists(items, _) = fetch.steps.last() {
            lemma_deep_view_of_sum(items, begin, fetch.pages[0].items);
        }
    } else {
        assert forall|i: int|
            1 <= i < rest.pages.len() implies #[trigger] user_followed_artists_page_follows(
            client,
            rest,
            i,
        ) by {
            assert(user_followed_artists_page_follows(client, fetch, i));
        }
        user_followed_artists_are_fetched_whole(client, begin, rest);
        let n = fetch.pages.len() - 1;
        assert(user_followed_artists_page_follows(client, fetch, n));
        assert(fetch.steps[n - 1] == rest.steps.last());
        if let Step::GetUserFollowedArtists(so_far, _) = rest.steps.last() {
            if let Step::GetUserFollowedArtists(items, _) = fetch.steps.last() {
                lemma_deep_view_of_sum(items, so_far, fetch.pages.last().items);
            }
        }
    }
}

/// Whether an answer of the fetch of the user's saved albums follows from the step before it.
pub open spec fn user_saved_albums_page_follows(
    client: Client,
    fetch: Fetch<SavedAlbum>,
    i: int,
) -> bool {
    match fetch.steps[i - 1] {
        Step::GetUserSavedAlbums(so_far, _) => user_saved_albums_go_on(
            client,
            fetch.before[i],
            so_far,
            Ok(fetch.pages[i]),
            fetch.after[i],
            fetch.steps[i],
        ),
        _ => false,
    }
}

/// Whether the albums in the user's library are fetched page by page, from the step
/// that the event for them begins with.
pub open spec fn user_saved_albums_fetched(
    client: Client,
    begin: Vec<SavedAlbum>,
    fetch: Fetch<SavedAlbum>,
) -> bool {
    &&& fetch.complete()
    &&& begin@.len() == 0
    &&& user_saved_albums_go_on(
        client,
        fetch.before[0],
        begin,
        Ok(fetch.pages[0]),
        fetch.after[0],
        fetch.steps[0],
    )
    &&& forall|i: int|
        1 <= i < fetch.pages.len() ==> #[trigger] user_saved_albums_page_follows(client, fetch, i)
}

/// The albums in the user's library are fetched whole. With the last answer, which is
/// the page that has no next one, the albums of all pages are noted, in order.
pub proof fn user_saved_albums_are_fetched_whole(
    client: Client,
    begin: Vec<SavedAlbum>,
    fetch: Fetch<SavedAlbum>,
)
    requires
        user_saved_albums_fetched(client, begin, fetch),
    ensures
        match fetch.pages.last().next {
            Some(url) => {
                &&& fetch.after.last() == fetch.before.last()
                &&& fetch.steps.last() matches Step::GetUserSavedAlbums(
                    items,
                    PageSource::Next(request),
                )
                &&& items.deep_view() == listed(fetch.pages)
                &&& client.requests(request, url@)
            },
            None => {
                &&& fetch.steps.last() == (Step::Done { update_playback: false })
                &&& fetch.after.last().user_saved_albums.deep_view() == saved_albums_of(
                    listed(fetch.pages),
                )
            },
        },
    decreases fetch.pages.len(),
{
    let rest = fetch.drop_last();
    if fetch.pages.len() == 1 {
        assert(rest.pages =~= Seq::empty());
        assert(listed(rest.pages) =~= begin.deep_view());
        if let Step::GetUserSavedAlbums(items, _) = fetch.steps.last() {
            lemma_deep_view_of_sum(items, begin, fetch.pages[0].items);
        }
    } else {
        assert forall|i: int|
            1 <= i < rest.pages.len() implies #[trigger] user_saved_albums_page_follows(
            client,
            rest,
            i,
        ) by {
            assert(user_saved_albums_page_follows(client, fetch, i));
        }
        user_saved_albums_are_fetched_whole(client, begin, rest);
        let n = fetch.pages.len() - 1;
        assert(user_saved_albums_page_follows(client, fetch, n));
        assert(fetch.steps[n - 1] == rest.steps.last());
        if let Step::GetUserSavedAlbums(so_far, _) = rest.steps.last() {
            if let Step::GetUserSavedAlbums(items, _) = fetch.steps.last() {
                lemma_deep_view_of_sum(items, so_far, fetch.pages.last().items);
            }
        }
    }
}

/// The contents of some pages and another are those of the pages and then those of the other.
pub proof fn listing_adds_up<T: DeepView>(pages: Seq<Page<T>>, page: Page<T>)
    ensures
        listed(Seq::<Page<T>>::empty()) == Seq::<T::V>::empty(),
        listed(pages.push(page)) == listed(pages) + page.items.deep_view(),
{
    assert(pages.push(page).drop_last() =~= pages);
}

/// Of the artists that the user follows, as many are noted as all pages list, and each noted artist
/// is the one listed at the same place.
pub proof fn every_followed_artist_is_noted(
    client: Client,
    begin: Vec<FullArtist>,
    fetch: Fetch<FullArtist>,
    i: int,
)
    requires
        user_followed_artists_fetched(client, begin, fetch),
        fetch.pages.last().next is None,
    ensures
        ({
            let noted = fetch.after.last().user_followed_artists@;
            let artists = listed(fetch.pages);
            &&& noted.len() == artists.len()
            &&& 0 <= i < artists.len() ==> {
                &&& noted[i].id matches Some(id) && id@ == artists[i].id
                &&& noted[i].uri matches Some(uri) && uri@ == artists[i].uri
                &&& noted[i].name@ == artists[i].name
            }
        }),
{
    user_followed_artists_are_fetched_whole(client, begin, fetch);
    every_artist_is_listed(listed(fetch.pages), i);
    let noted = fetch.after.last().user_followed_artists;
    assert(noted.deep_view().len() == noted@.len());
    if 0 <= i < noted@.len() {
        assert(noted.deep_view()[i] == noted@[i].deep_view());
    }
}

/// Of the albums in the user's library, as many are noted as all pages list, and each noted album is
/// the one listed at the same place.
pub proof fn every_saved_album_is_noted(
    client: Client,
    begin: Vec<SavedAlbum>,
    fetch: Fetch<SavedAlbum>,
    i: int,
)
    requires
        user_saved_albums_fetched(client, begin, fetch),
        fetch.pages.last().next is None,
    ensures
        ({
            let noted = fetch.after.last().user_saved_albums@;
            let albums = listed(fetch.pages);
            &&& noted.len() == albums.len()
            &&& 0 <= i < albums.len() ==> {
                &&& noted[i].id matches Some(id) && id@ == albums[i].album.id
                &&& noted[i].uri matches Some(uri) && uri@ == albums[i].album.uri
                &&& noted[i].name@ == albums[i].album.name
                &&& noted[i].artists.deep_view() == albums[i].album.artists
            }
        }),
{
    user_saved_albums_are_fetched_whole(client, begin, fetch);
    every_saved_album_is_listed(listed(fetch.pages), i);
    let noted = fetch.after.last().user_saved_albums;
    assert(noted.deep_view().len() == noted@.len());
    if 0 <= i < noted@.len() {
        assert(noted.deep_view()[i] == noted@[i].deep_view());
    }
}

} // verus!
