//! Conversion of whole listings.
use crate::model::{
    Album, AlbumView, Artist, ArtistView, FullAlbum, FullAlbumView, FullArtist, FullArtistView,
    FullTrack, FullTrackView, PlaylistTrack, PlaylistTrackView, SavedAlbum, SavedAlbumView,
    SimplifiedAlbum, SimplifiedAlbumView, SimplifiedTrack, SimplifiedTrackView, Track, TrackView,
};
use crate::positions::lemma_filter_positions;
use vstd::prelude::*;

verus! {

/// The artists of a listing, in order.
pub open spec fn artists_of(listing: Seq<FullArtistView>) -> Seq<ArtistView> {
    listing.map_values(|artist: FullArtistView| artist.artist())
}

/// The tracks of a listing, in order.
pub open spec fn tracks_of(listing: Seq<FullTrackView>) -> Seq<TrackView> {
    listing.map_values(|track: FullTrackView| track.track())
}

/// The albums of a listing, in order.
pub open spec fn albums_of(listing: Seq<SimplifiedAlbumView>) -> Seq<AlbumView> {
    listing.map_values(|album: SimplifiedAlbumView| album.album())
}

/// The albums of the user's library, in order.
pub open spec fn saved_albums_of(listing: Seq<SavedAlbumView>) -> Seq<AlbumView> {
    listing.map_values(|saved: SavedAlbumView| saved.album.album())
}

/// The tracks of an album, in order, each with that album.
pub open spec fn tracks_on(album: FullAlbumView, listing: Seq<SimplifiedTrackView>) -> Seq<
    TrackView,
> {
    listing.map_values(|track: SimplifiedTrackView| track.track(album.album()))
}

/// The tracks of a playlist that are neither inaccessible nor deleted, in order.
pub open spec fn accessible_tracks(entries: Seq<PlaylistTrackView>) -> Seq<TrackView> {
    entries.filter(|entry: PlaylistTrackView| entry.track is Some).map_values(
        |entry: PlaylistTrackView| entry.track->0.track(),
    )
}

/// Converts every artist of a listing.
pub fn into_artists(listing: Vec<FullArtist>) -> (artists: Vec<Artist>)
    ensures
        artists.deep_view() == artists_of(listing.deep_view()),
{
    let mut artists: Vec<Artist> = Vec::new();
    let ghost all = listing@;
    for artist in it: listing.into_iter()
        invariant
            it.seq() == all,
            artists@.len() == it.index(),
            forall|i: int|
                0 <= i < it.index() ==> (#[trigger] artists@[i]).deep_view()
                    == all[i].deep_view().artist(),
    {
        artists.push(artist.into_artist());
    }
    assert(artists.deep_view() =~= artists_of(listing.deep_view()));
    artists
}

/// Converts every track of a listing.
pub fn into_tracks(listing: Vec<FullTrack>) -> (tracks: Vec<Track>)
    ensures
        tracks.deep_view() == tracks_of(listing.deep_view()),
{
    let mut tracks: Vec<Track> = Vec::new();
    let ghost all = listing@;
    for track in it: listing.into_iter()
        invariant
            it.seq() == all,
            tracks@.len() == it.index(),
            forall|i: int|
                0 <= i < it.index() ==> (#[trigger] tracks@[i]).deep_view()
                    == all[i].deep_view().track(),
    {
        tracks.push(track.into_track());
    }
    assert(tracks.deep_view() =~= tracks_of(listing.deep_view()));
    tracks
}

/// Converts every album of a listing.
pub fn into_albums(listing: Vec<SimplifiedAlbum>) -> (albums: Vec<Album>)
    ensures
        albums.deep_view() == albums_of(listing.deep_view()),
{
    let mut albums: Vec<Album> = Vec::new();
    let ghost all = listing@;
    for album in it: listing.into_iter()
        invariant
            it.seq() == all,
            albums@.len() == it.index(),
            forall|i: int|
                0 <= i < it.index() ==> (#[trigger] albums@[i]).deep_view()
                    == all[i].deep_view().album(),
    {
        albums.push(album.into_album());
    }
    assert(albums.deep_view() =~= albums_of(listing.deep_view()));
    albums
}

/// Converts every album of the user's library.
pub fn into_saved_albums(listing: Vec<SavedAlbum>) -> (albums: Vec<Album>)
    ensures
        albums.deep_view() == saved_albums_of(listing.deep_view()),
{
    let mut albums: Vec<Album> = Vec::new();
    let ghost all = listing@;
    for saved in it: listing.into_iter()
        invariant
            it.seq() == all,
            albums@.len() == it.index(),
            forall|i: int|
                0 <= i < it.index() ==> (#[trigger] albums@[i]).deep_view()
                    == all[i].deep_view().album.album(),
    {
        albums.push(saved.album.to_album());
    }
    assert(albums.deep_view() =~= saved_albums_of(listing.deep_view()));
    albums
}

/// Converts every track of an album, and notes the album in each.
pub fn into_tracks_on(album: &FullAlbum, listing: Vec<SimplifiedTrack>) -> (tracks: Vec<Track>)
    ensures
        tracks.deep_view() == tracks_on(album.deep_view(), listing.deep_view()),
{
    let mut tracks: Vec<Track> = Vec::new();
    let ghost all = listing@;
    for track in it: listing.into_iter()
        invariant
            it.seq() == all,
            tracks@.len() == it.index(),
            forall|i: int|
                0 <= i < it.index() ==> (#[trigger] tracks@[i]).deep_view()
                    == all[i].deep_view().track(album.deep_view().album()),
    {
        tracks.push(track.into_track(album.to_album()));
    }
    assert(tracks.deep_view() =~= tracks_on(album.deep_view(), listing.deep_view()));
    tracks
}

/// Converts the entries of a playlist, and leaves out those without a track.
pub fn into_accessible_tracks(entries: Vec<PlaylistTrack>) -> (tracks: Vec<Track>)
    ensures
        tracks.deep_view() == accessible_tracks(entries.deep_view()),
{
    let mut tracks: Vec<Track> = Vec::new();
    let ghost all = entries@;
    let ghost all_views = entries.deep_view();
    assert(accessible_tracks(all_views.take(0)) =~= Seq::<TrackView>::empty()) by {
        reveal(Seq::filter);
    }
    assert(tracks.deep_view() =~= Seq::<TrackView>::empty());
    for entry in it: entries.into_iter()
        invariant
            it.seq() == all,
            all_views.len() == all.len(),
            forall|i: int| 0 <= i < all.len() ==> #[trigger] all_views[i] == all[i].deep_view(),
            tracks.deep_view() == accessible_tracks(all_views.take(it.index())),
    {
        let ghost seen = it.index();
        let ghost before = tracks.deep_view();
        proof {
            reveal(Seq::filter);
            assert(all_views.take(seen + 1).drop_last() =~= all_views.take(seen));
            assert(all_views[seen] == entry.deep_view());
        }
        match entry.track {
            Some(track) => {
                let ghost view = track.deep_view().track();
                tracks.push(track.into_track());
                assert(tracks.deep_view() =~= before.push(view));
                assert(accessible_tracks(all_views.take(seen + 1)) =~= before.push(view));
            },
            None => {},
        }
    }
    assert(all_views.take(all_views.len() as int) =~= all_views);
    tracks
}

/// The accessible tracks of two stretches of a playlist are those of the first and then those of
/// the second.
pub proof fn accessible_tracks_add_up(a: Seq<PlaylistTrackView>, b: Seq<PlaylistTrackView>)
    ensures
        accessible_tracks(a + b) == accessible_tracks(a) + accessible_tracks(b),
{
    Seq::filter_distributes_over_add(a, b, |entry: PlaylistTrackView| entry.track is Some);
    assert(accessible_tracks(a + b) =~= accessible_tracks(a) + accessible_tracks(b));
}

/// Every artist of a listing is there, in order, each with its own id, address and name.
pub proof fn every_artist_is_listed(listing: Seq<FullArtistView>, i: int)
    ensures
        artists_of(listing).len() == listing.len(),
        0 <= i < listing.len() ==> {
            let artist = artists_of(listing)[i];
            &&& artist.id == Some(listing[i].id)
            &&& artist.uri == Some(listing[i].uri)
            &&& artist.name == listing[i].name
        },
{
}

/// Every track of a listing is there, in order, each with all that the listing says of it, and with
/// the album that it is on.
pub proof fn every_track_is_listed(listing: Seq<FullTrackView>, i: int)
    ensures
        tracks_of(listing).len() == listing.len(),
        0 <= i < listing.len() ==> {
            let track = tracks_of(listing)[i];
            &&& track.id == listing[i].id
            &&& track.uri == listing[i].uri
            &&& track.name == listing[i].name
            &&& track.artists == listing[i].artists
            &&& track.duration_ms == listing[i].duration_ms
            &&& track.album.id == listing[i].album.id
            &&& track.album.uri == listing[i].album.uri
            &&& track.album.name == listing[i].album.name
            &&& track.album.artists == listing[i].album.artists
        },
{
}

/// Every album of a listing is there, in order, each with its own id, address, name and artists.
pub proof fn every_album_is_listed(listing: Seq<SimplifiedAlbumView>, i: int)
    ensures
        albums_of(listing).len() == listing.len(),
        0 <= i < listing.len() ==> {
            let album = albums_of(listing)[i];
            &&& album.id == listing[i].id
            &&& album.uri == listing[i].uri
            &&& album.name == listing[i].name
            &&& album.artists == listing[i].artists
        },
{
}

/// Every album of the user's library is there, in order, each with its own id, address, name and
/// artists.
pub proof fn every_saved_album_is_listed(listing: Seq<SavedAlbumView>, i: int)
    ensures
        saved_albums_of(listing).len() == listing.len(),
        0 <= i < listing.len() ==> {
            let album = saved_albums_of(listing)[i];
            &&& album.id == Some(listing[i].album.id)
            &&& album.uri == Some(listing[i].album.uri)
            &&& album.name == listing[i].album.name
            &&& album.artists == listing[i].album.artists
        },
{
}

/// Every track of an album is there, in order, each with all that the album's listing says of it,
/// and with the album itself.
pub proof fn every_track_of_an_album_is_listed(
    album: FullAlbumView,
    listing: Seq<SimplifiedTrackView>,
    i: int,
)
    ensures
        tracks_on(album, listing).len() == listing.len(),
        0 <= i < listing.len() ==> {
            let track = tracks_on(album, listing)[i];
            &&& track.id == listing[i].id
            &&& track.uri == listing[i].uri
            &&& track.name == listing[i].name
            &&& track.artists == listing[i].artists
            &&& track.duration_ms == listing[i].duration_ms
            &&& track.album.id == Some(album.id)
            &&& track.album.uri == Some(album.uri)
            &&& track.album.name == album.name
            &&& track.album.artists == album.artists
        },
{
}

/// Exactly the entries of a playlist that have a track are shown, in order, each with all that the
/// entry says of its track. The result is where each shown track comes from.
pub proof fn exactly_the_accessible_tracks_are_shown(entries: Seq<PlaylistTrackView>) -> (at: Seq<
    int,
>)
    ensures
        at.len() == accessible_tracks(entries).len(),
        forall|i: int, j: int| 0 <= i < j < at.len() ==> (#[trigger] at[i]) < (#[trigger] at[j]),
        forall|k: int|
            0 <= k < entries.len() && (#[trigger] entries[k]).track is Some ==> at.contains(k),
        forall|i: int|
            0 <= i < at.len() ==> {
                let track = accessible_tracks(entries)[i];
                &&& 0 <= (#[trigger] at[i]) < entries.len()
                &&& entries[at[i]].track matches Some(entry)
                &&& track.id == entry.id
                &&& track.uri == entry.uri
                &&& track.name == entry.name
                &&& track.artists == entry.artists
                &&& track.duration_ms == entry.duration_ms
                &&& track.album.id == entry.album.id
                &&& track.album.uri == entry.album.uri
                &&& track.album.name == entry.album.name
                &&& track.album.artists == entry.album.artists
            },
{
    lemma_filter_positions(entries, |entry: PlaylistTrackView| entry.track is Some)
}

/// A single entry is shown as its track, whatever the track is, and an entry without a track is not
/// shown.
pub proof fn an_entry_is_shown_as_its_track(track: FullTrackView)
    ensures
        accessible_tracks(seq![PlaylistTrackView { track: Some(track) }]) == seq![track.track()],
        accessible_tracks(seq![PlaylistTrackView { track: None }]) == Seq::<TrackView>::empty(),
{
    reveal_with_fuel(Seq::filter, 2);
    let some = seq![PlaylistTrackView { track: Some(track) }];
    let none = seq![PlaylistTrackView { track: None }];
    assert(some.drop_last() =~= Seq::empty());
    assert(none.drop_last() =~= Seq::empty());
    assert(accessible_tracks(some) =~= seq![track.track()]);
    assert(accessible_tracks(none) =~= Seq::<TrackView>::empty());
}

} // verus!
