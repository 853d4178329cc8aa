//! The listing of an artist's albums: newest first, each title once.
use crate::client::Client;
use crate::model::{SimplifiedAlbum, SimplifiedAlbumView};
use crate::positions::lemma_filter_positions;
use crate::text::{
    lemma_bytes_le_total, lemma_bytes_le_transitive, lemma_text_le_antisymmetric, string_le,
    text_le,
};
use vstd::hash_set::StringHashSet;
use vstd::prelude::*;
use vstd::utf8::encode_utf8;

verus! {

/// The albums of a listing that have a release date, in order.
pub open spec fn dated(albums: Seq<SimplifiedAlbumView>) -> Seq<SimplifiedAlbumView> {
    albums.filter(|album: SimplifiedAlbumView| album.release_date is Some)
}

/// Whether an album was not released after another. The dates are compared as texts.
pub open spec fn not_after(a: SimplifiedAlbumView, b: SimplifiedAlbumView) -> bool {
    text_le(a.release_date->0, b.release_date->0)
}

/// Puts an album into a listing that is ordered by date, behind those that were not released
/// after it.
pub open spec fn insert_by_date(
    ordered: Seq<SimplifiedAlbumView>,
    album: SimplifiedAlbumView,
) -> Seq<SimplifiedAlbumView>
    decreases ordered.len(),
{
    if ordered.len() == 0 || not_after(ordered.last(), album) {
        ordered.push(album)
    } else {
        insert_by_date(ordered.drop_last(), album).push(ordered.last())
    }
}

/// A listing in the order of its dates, oldest first; albums of the same date keep their order.
pub open spec fn sorted_by_date(albums: Seq<SimplifiedAlbumView>) -> Seq<SimplifiedAlbumView>
    decreases albums.len(),
{
    if albums.len() == 0 {
        albums
    } else {
        insert_by_date(sorted_by_date(albums.drop_last()), albums.last())
    }
}

/// Whether a listing holds an album of a given name.
pub open spec fn has_name(albums: Seq<SimplifiedAlbumView>, name: Seq<char>) -> bool {
    exists|i: int| 0 <= i < albums.len() && (#[trigger] albums[i]).name == name
}

proof fn lemma_has_name_of_pushed(
    albums: Seq<SimplifiedAlbumView>,
    album: SimplifiedAlbumView,
    name: Seq<char>,
)
    ensures
        has_name(albums.push(album), name) <==> has_name(albums, name) || album.name == name,
{
    let new = albums.push(album);
    assert(new[albums.len() as int] == album);
    if has_name(albums, name) {
        let i = choose|i: int| 0 <= i < albums.len() && (#[trigger] albums[i]).name == name;
        assert(new[i].name == name);
    }
    if has_name(new, name) {
        let i = choose|i: int| 0 <= i < new.len() && (#[trigger] new[i]).name == name;
        if i < albums.len() {
            assert(albums[i].name == name);
        }
    }
}

/// The first album of each name, in order.
pub open spec fn first_of_each_name(albums: Seq<SimplifiedAlbumView>) -> Seq<SimplifiedAlbumView>
    decreases albums.len(),
{
    if albums.len() == 0 {
        albums
    } else {
        let kept = first_of_each_name(albums.drop_last());
        if has_name(kept, albums.last().name) {
            kept
        } else {
            kept.push(albums.last())
        }
    }
}

/// The albums of an artist as they are shown: those with a release date, newest first, and of
/// those that share a name the newest alone.
pub open spec fn cleaned_up(albums: Seq<SimplifiedAlbumView>) -> Seq<SimplifiedAlbumView> {
    first_of_each_name(sorted_by_date(dated(albums)).reverse())
}

/// Leaves out the albums without a release date.
fn keep_dated(albums: Vec<SimplifiedAlbum>) -> (kept: Vec<SimplifiedAlbum>)
    ensures
        kept.deep_view() == dated(albums.deep_view()),
        forall|i: int| 0 <= i < kept@.len() ==> (#[trigger] kept@[i]).release_date is Some,
{
    let mut kept: Vec<SimplifiedAlbum> = Vec::new();
    let ghost all = albums@;
    let ghost views = albums.deep_view();
    assert(dated(views.take(0)) =~= Seq::<SimplifiedAlbumView>::empty()) by {
        reveal(Seq::filter);
    }
    assert(kept.deep_view() =~= Seq::<SimplifiedAlbumView>::empty());
    for album in it: albums.into_iter()
        invariant
            it.seq() == all,
            views.len() == all.len(),
            forall|i: int| 0 <= i < all.len() ==> #[trigger] views[i] == all[i].deep_view(),
            kept.deep_view() == dated(views.take(it.index())),
            forall|i: int| 0 <= i < kept@.len() ==> (#[trigger] kept@[i]).release_date is Some,
    {
        let ghost seen = it.index();
        let ghost before = kept.deep_view();
        proof {
            reveal(Seq::filter);
            assert(views.take(seen + 1).drop_last() =~= views.take(seen));
            assert(views[seen] == album.deep_view());
        }
        if album.release_date.is_some() {
            kept.push(album);
            assert(kept.deep_view() =~= before.push(views[seen]));
        }
    }
    assert(views.take(views.len() as int) =~= views);
    kept
}

/// Whether an album was not released after another.
fn is_not_after(a: &SimplifiedAlbum, b: &SimplifiedAlbum) -> (r: bool)
    requires
        a.release_date is Some,
        b.release_date is Some,
    ensures
        r == not_after(a.deep_view(), b.deep_view()),
{
    match (&a.release_date, &b.release_date) {
        (Some(date_a), Some(date_b)) => string_le(date_a, date_b),
        _ => true,
    }
}

/// Puts an album into a listing that is ordered by date.
fn insert_album(ordered: &mut Vec<SimplifiedAlbum>, album: SimplifiedAlbum)
    requires
        album.release_date is Some,
        forall|i: int|
            0 <= i < old(ordered)@.len() ==> (#[trigger] old(ordered)@[i]).release_date is Some,
    ensures
        final(ordered).deep_view() == insert_by_date(old(ordered).deep_view(), album.deep_view()),
        forall|i: int|
            0 <= i < final(ordered)@.len() ==> (#[trigger] final(ordered)@[i]).release_date is Some,
{
    let ghost before = ordered.deep_view();
    let ghost new = album.deep_view();
    let mut position: usize = ordered.len();
    assert(before.take(position as int) =~= before);
    assert(insert_by_date(before, new) =~= insert_by_date(before.take(position as int), new)
        + before.skip(position as int));
    while position > 0 && !is_not_after(&ordered[position - 1], &album)
        invariant
            position <= ordered@.len(),
            before == ordered.deep_view(),
            new == album.deep_view(),
            album.release_date is Some,
            forall|i: int|
                0 <= i < ordered@.len() ==> (#[trigger] ordered@[i]).release_date is Some,
            insert_by_date(before, new) == insert_by_date(before.take(position as int), new)
                + before.skip(position as int),
        decreases position,
    {
        let ghost front = before.take(position as int);
        assert(front.last() == ordered@[position - 1].deep_view());
        assert(front.drop_last() =~= before.take(position - 1));
        assert(seq![front.last()] + before.skip(position as int) =~= before.skip(position - 1));
        assert(insert_by_date(front, new) == insert_by_date(front.drop_last(), new).push(
            front.last(),
        ));
        assert(insert_by_date(front.drop_last(), new).push(front.last()) + before.skip(
            position as int,
        ) =~= insert_by_date(front.drop_last(), new) + (seq![front.last()] + before.skip(
            position as int,
        )));
        position -= 1;
    }
    proof {
        let front = before.take(position as int);
        if position > 0 {
            assert(front.last() == ordered@[position - 1].deep_view());
        }
        assert(insert_by_date(front, new) == front.push(new));
        assert(front.push(new) + before.skip(position as int) =~= before.insert(
            position as int,
            new,
        ));
    }
    ordered.insert(position, album);
    assert(ordered.deep_view() =~= before.insert(position as int, new));
}

/// Orders albums by date, oldest first; albums of the same date keep their order.
fn sort_by_date(albums: Vec<SimplifiedAlbum>) -> (ordered: Vec<SimplifiedAlbum>)
    requires
        forall|i: int| 0 <= i < albums@.len() ==> (#[trigger] albums@[i]).release_date is Some,
    ensures
        ordered.deep_view() == sorted_by_date(albums.deep_view()),
{
    let mut ordered: Vec<SimplifiedAlbum> = Vec::new();
    let ghost all = albums@;
    let ghost views = albums.deep_view();
    assert(views.take(0) =~= Seq::<SimplifiedAlbumView>::empty());
    assert(ordered.deep_view() =~= Seq::<SimplifiedAlbumView>::empty());
    for album in it: albums.into_iter()
        invariant
            it.seq() == all,
            views.len() == all.len(),
            forall|i: int| 0 <= i < all.len() ==> #[trigger] views[i] == all[i].deep_view(),
            forall|i: int| 0 <= i < all.len() ==> (#[trigger] all[i]).release_date is Some,
            ordered.deep_view() == sorted_by_date(views.take(it.index())),
            forall|i: int|
                0 <= i < ordered@.len() ==> (#[trigger] ordered@[i]).release_date is Some,
    {
        let ghost seen = it.index();
        assert(views.take(seen + 1).drop_last() =~= views.take(seen));
        assert(views.take(seen + 1).last() == views[seen]);
        assert(views[seen] == album.deep_view());
        assert(all[seen] == album);
        insert_album(&mut ordered, album);
    }
    assert(views.take(views.len() as int) =~= views);
    ordered
}

impl Client {
    /// Cleans up a listing of an artist's albums: leaves out those without a release date, orders
    /// the others from the newest to the oldest, and keeps of those that share a name the newest.
    pub fn clean_up_artist_albums(
        &self,
        albums: Vec<SimplifiedAlbum>,
    ) -> (shown: Vec<SimplifiedAlbum>)
        ensures
            shown.deep_view() == cleaned_up(albums.deep_view()),
    {
        let mut ordered: Vec<SimplifiedAlbum> = sort_by_date(keep_dated(albums));
        let ghost newest_first = ordered.deep_view().reverse();
        let mut shown: Vec<SimplifiedAlbum> = Vec::new();
        let mut visits: StringHashSet = StringHashSet::new();
        assert(newest_first.take(0) =~= Seq::<SimplifiedAlbumView>::empty());
        assert(shown.deep_view() =~= Seq::<SimplifiedAlbumView>::empty());
        while ordered.len() > 0
            invariant
                ordered@.len() <= newest_first.len(),
                forall|i: int|
                    0 <= i < ordered@.len() ==> (#[trigger] ordered@[i]).deep_view()
                        == newest_first[newest_first.len() - 1 - i],
                shown.deep_view() == first_of_each_name(
                    newest_first.take(newest_first.len() - ordered@.len()),
                ),
                forall|name: Seq<char>|
                    #[trigger] visits@.contains(name) <==> has_name(shown.deep_view(), name),
            decreases ordered@.len(),
        {
            let ghost seen = newest_first.len() - ordered@.len();
            let ghost before = shown.deep_view();
            if let Some(album) = ordered.pop() {
                assert(newest_first.take(seen + 1).drop_last() =~= newest_first.take(seen));
                assert(newest_first.take(seen + 1).last() == album.deep_view());
                if !visits.contains(album.name.as_str()) {
                    visits.insert(album.name.clone());
                    shown.push(album);
                    assert(shown.deep_view() =~= before.push(album.deep_view()));
                    assert forall|name: Seq<char>|
                        #[trigger] visits@.contains(name) <==> has_name(
                            shown.deep_view(),
                            name,
                        ) by {
                        lemma_has_name_of_pushed(before, album.deep_view(), name);
                    }
                }
            }
        }
        assert(newest_first.take(newest_first.len() as int) =~= newest_first);
        shown
    }
}

/// Whether a listing is ordered by date, oldest first.
pub open spec fn oldest_first(albums: Seq<SimplifiedAlbumView>) -> bool {
    forall|i: int, j: int|
        0 <= i <= j < albums.len() ==> not_after(#[trigger] albums[i], #[trigger] albums[j])
}

/// Whether a listing is ordered by date, newest first.
pub open spec fn newest_first(albums: Seq<SimplifiedAlbumView>) -> bool {
    forall|i: int, j: int|
        0 <= i <= j < albums.len() ==> not_after(#[trigger] albums[j], #[trigger] albums[i])
}

/// The albums of a listing that came out on a given date, in order.
pub open spec fn released_on(albums: Seq<SimplifiedAlbumView>, date: Seq<char>) -> Seq<
    SimplifiedAlbumView,
> {
    albums.filter(|album: SimplifiedAlbumView| album.release_date->0 == date)
}

proof fn lemma_not_after_itself(album: SimplifiedAlbumView)
    ensures
        not_after(album, album),
{
    lemma_bytes_le_total(
        encode_utf8(album.release_date->0),
        encode_utf8(album.release_date->0),
    );
}

proof fn lemma_insert_by_date(ordered: Seq<SimplifiedAlbumView>, album: SimplifiedAlbumView)
    requires
        oldest_first(ordered),
    ensures
        oldest_first(insert_by_date(ordered, album)),
        insert_by_date(ordered, album).to_multiset() == ordered.to_multiset().insert(album),
    decreases ordered.len(),
{
    let new = insert_by_date(ordered, album);
    broadcast use vstd::seq_lib::group_to_multiset_ensures;
    if ordered.len() == 0 || not_after(ordered.last(), album) {
        assert forall|i: int, j: int| 0 <= i <= j < new.len() implies not_after(
            #[trigger] new[i],
            #[trigger] new[j],
        ) by {
            if j == ordered.len() {
                if i < j {
                    lemma_bytes_le_transitive(
                        encode_utf8(ordered[i].release_date->0),
                        encode_utf8(ordered.last().release_date->0),
                        encode_utf8(album.release_date->0),
                    );
                } else {
                    lemma_not_after_itself(album);
                }
            }
        }
    } else {
        let rest = ordered.drop_last();
        lemma_insert_by_date(rest, album);
        let front = insert_by_date(rest, album);
        lemma_bytes_le_total(
            encode_utf8(ordered.last().release_date->0),
            encode_utf8(album.release_date->0),
        );
        assert(new == front.push(ordered.last()));
        assert(ordered =~= rest.push(ordered.last()));
        assert forall|i: int, j: int| 0 <= i <= j < new.len() implies not_after(
            #[trigger] new[i],
            #[trigger] new[j],
        ) by {
            if j == front.len() {
                if i < j {
                    assert(front.contains(front[i]));
                    assert(rest.to_multiset().insert(album).contains(front[i]));
                    if front[i] != album {
                        assert(rest.to_multiset().contains(front[i]));
                        assert(rest.contains(front[i]));
                        let k = choose|k: int| 0 <= k < rest.len() && rest[k] == front[i];
                        assert(ordered[k] == front[i]);
                        assert(not_after(ordered[k], ordered[ordered.len() - 1]));
                    }
                } else {
                    lemma_not_after_itself(new[i]);
                }
            }
        }
        assert(new.to_multiset() =~= ordered.to_multiset().insert(album));
    }
}

/// Sorting by date yields a listing that is ordered by date and holds the same albums.
pub proof fn sorting_orders_by_date(albums: Seq<SimplifiedAlbumView>)
    ensures
        oldest_first(sorted_by_date(albums)),
        sorted_by_date(albums).to_multiset() == albums.to_multiset(),
    decreases albums.len(),
{
    broadcast use vstd::seq_lib::group_to_multiset_ensures;
    if albums.len() > 0 {
        sorting_orders_by_date(albums.drop_last());
        lemma_insert_by_date(sorted_by_date(albums.drop_last()), albums.last());
        assert(albums =~= albums.drop_last().push(albums.last()));
    }
}

proof fn lemma_insert_by_date_is_stable(
    ordered: Seq<SimplifiedAlbumView>,
    album: SimplifiedAlbumView,
    date: Seq<char>,
)
    ensures
        released_on(insert_by_date(ordered, album), date) == if album.release_date->0 == date {
            released_on(ordered, date).push(album)
        } else {
            released_on(ordered, date)
        },
    decreases ordered.len(),
{
    reveal(Seq::filter);
    if ordered.len() == 0 || not_after(ordered.last(), album) {
        assert(ordered.push(album).drop_last() =~= ordered);
    } else {
        let front = insert_by_date(ordered.drop_last(), album);
        lemma_insert_by_date_is_stable(ordered.drop_last(), album, date);
        assert(front.push(ordered.last()).drop_last() =~= front);
        lemma_not_after_itself(album);
    }
}

/// Sorting by date is stable: albums that came out on the same date keep their order.
pub proof fn sorting_is_stable(albums: Seq<SimplifiedAlbumView>, date: Seq<char>)
    ensures
        released_on(sorted_by_date(albums), date) == released_on(albums, date),
    decreases albums.len(),
{
    reveal(Seq::filter);
    if albums.len() > 0 {
        sorting_is_stable(albums.drop_last(), date);
        lemma_insert_by_date_is_stable(sorted_by_date(albums.drop_last()), albums.last(), date);
    }
}

proof fn lemma_first_of_each_name(albums: Seq<SimplifiedAlbumView>)
    requires
        newest_first(albums),
    ensures
        newest_first(first_of_each_name(albums)),
        forall|i: int|
            0 <= i < first_of_each_name(albums).len() ==> albums.contains(
                #[trigger] first_of_each_name(albums)[i],
            ),
        forall|i: int, j: int|
            0 <= i < j < first_of_each_name(albums).len() ==> (
            #[trigger] first_of_each_name(albums)[i]).name != (
            #[trigger] first_of_each_name(albums)[j]).name,
        forall|k: int|
            0 <= k < albums.len() ==> shows_newer(
                first_of_each_name(albums),
                #[trigger] albums[k],
            ),
    decreases albums.len(),
{
    if albums.len() > 0 {
        let rest = albums.drop_last();
        let last = albums.last();
        assert(newest_first(rest));
        lemma_first_of_each_name(rest);
        let kept = first_of_each_name(rest);
        let new = first_of_each_name(albums);
        assert forall|i: int| 0 <= i < new.len() implies albums.contains(#[trigger] new[i]) by {
            if i < kept.len() {
                let k = choose|k: int| 0 <= k < rest.len() && rest[k] == kept[i];
                assert(rest.contains(kept[i]));
                assert(albums[k] == new[i]);
            } else {
                assert(albums[albums.len() - 1] == new[i]);
            }
        }
        assert forall|i: int, j: int| 0 <= i <= j < new.len() implies not_after(
            #[trigger] new[j],
            #[trigger] new[i],
        ) by {
            if j == kept.len() {
                assert(albums.contains(new[i]));
                let k = choose|k: int| 0 <= k < albums.len() && albums[k] == new[i];
                assert(not_after(albums[albums.len() - 1], albums[k]));
            }
        }
        assert forall|i: int, j: int| 0 <= i < j < new.len() implies (#[trigger] new[i]).name != (
        #[trigger] new[j]).name by {
            if j == kept.len() {
                assert(kept[i].name != last.name);
            }
        }
        assert forall|k: int| 0 <= k < albums.len() implies shows_newer(
            new,
            #[trigger] albums[k],
        ) by {
            if k < rest.len() {
                assert(rest[k] == albums[k]);
                assert(shows_newer(kept, rest[k]));
                let i = choose|i: int|
                    0 <= i < kept.len() && (#[trigger] kept[i]).name == rest[k].name && not_after(
                        rest[k],
                        kept[i],
                    );
                assert(new[i].name == albums[k].name && not_after(albums[k], new[i]));
            } else if has_name(kept, last.name) {
                let i = choose|i: int|
                    0 <= i < kept.len() && (#[trigger] kept[i]).name == last.name;
                assert(rest.contains(kept[i]));
                let m = choose|m: int| 0 <= m < rest.len() && rest[m] == kept[i];
                assert(not_after(albums[albums.len() - 1], albums[m]));
                assert(new[i].name == albums[k].name && not_after(albums[k], new[i]));
            } else {
                lemma_not_after_itself(last);
                assert(new[kept.len() as int].name == albums[k].name);
            }
        }
    }
}

/// Whether a listing shows an album of the same name that was not released before the given one.
pub open spec fn shows_newer(shown: Seq<SimplifiedAlbumView>, album: SimplifiedAlbumView) -> bool {
    exists|i: int|
        0 <= i < shown.len() && (#[trigger] shown[i]).name == album.name && not_after(
            album,
            shown[i],
        )
}

/// The cleaned-up listing is ordered from the newest album to the oldest.
pub proof fn shown_albums_are_newest_first(albums: Seq<SimplifiedAlbumView>)
    ensures
        newest_first(cleaned_up(albums)),
{
    lemma_reversed_is_newest_first(albums);
    lemma_first_of_each_name(sorted_by_date(dated(albums)).reverse());
}

/// No two albums of the cleaned-up listing share a name.
pub proof fn shown_names_are_distinct(albums: Seq<SimplifiedAlbumView>, i: int, j: int)
    requires
        0 <= i < j < cleaned_up(albums).len(),
    ensures
        cleaned_up(albums)[i].name != cleaned_up(albums)[j].name,
{
    lemma_reversed_is_newest_first(albums);
    lemma_first_of_each_name(sorted_by_date(dated(albums)).reverse());
}

/// Every album of the cleaned-up listing is one of the given albums and has a release date.
pub proof fn shown_albums_were_given(albums: Seq<SimplifiedAlbumView>, i: int)
    requires
        0 <= i < cleaned_up(albums).len(),
    ensures
        albums.contains(cleaned_up(albums)[i]),
        cleaned_up(albums)[i].release_date is Some,
{
    let ordered = sorted_by_date(dated(albums));
    let shown = cleaned_up(albums);
    broadcast use vstd::seq_lib::group_to_multiset_ensures;
    lemma_reversed_is_newest_first(albums);
    lemma_first_of_each_name(ordered.reverse());
    sorting_orders_by_date(dated(albums));
    assert(ordered.reverse().contains(shown[i]));
    let k = choose|k: int| 0 <= k < ordered.len() && ordered.reverse()[k] == shown[i];
    assert(ordered[ordered.len() - 1 - k] == shown[i]);
    assert(ordered.contains(shown[i]));
    assert(ordered.to_multiset().contains(shown[i]));
    assert(dated(albums).contains(shown[i]));
    let m = choose|m: int| 0 <= m < dated(albums).len() && dated(albums)[m] == shown[i];
    let is_dated = |album: SimplifiedAlbumView| album.release_date is Some;
    albums.lemma_filter_contains_rev(is_dated, shown[i]);
    broadcast use vstd::seq_lib::group_filter_ensures;
    assert(is_dated(dated(albums)[m]));
}

/// Of each given album with a release date, the cleaned-up listing shows one of the same name
/// that is at least as new.
pub proof fn newest_of_each_name_is_shown(albums: Seq<SimplifiedAlbumView>, k: int)
    requires
        0 <= k < albums.len(),
        albums[k].release_date is Some,
    ensures
        shows_newer(cleaned_up(albums), albums[k]),
{
    let ordered = sorted_by_date(dated(albums));
    broadcast use vstd::seq_lib::group_to_multiset_ensures;
    broadcast use vstd::seq_lib::group_filter_ensures;
    lemma_reversed_is_newest_first(albums);
    lemma_first_of_each_name(ordered.reverse());
    sorting_orders_by_date(dated(albums));
    assert(dated(albums).contains(albums[k]));
    assert(dated(albums).to_multiset().contains(albums[k]));
    assert(ordered.contains(albums[k]));
    let m = choose|m: int| 0 <= m < ordered.len() && ordered[m] == albums[k];
    assert(ordered.reverse()[ordered.len() - 1 - m] == albums[k]);
}

proof fn lemma_reversed_is_newest_first(albums: Seq<SimplifiedAlbumView>)
    ensures
        newest_first(sorted_by_date(dated(albums)).reverse()),
{
    sorting_orders_by_date(dated(albums));
}

/// Whether a listing holds no two different albums that came out on the same date.
pub open spec fn one_album_per_date(albums: Seq<SimplifiedAlbumView>) -> bool {
    forall|i: int, j: int|
        0 <= i < albums.len() && 0 <= j < albums.len() && (#[trigger] albums[i]).release_date == (
        #[trigger] albums[j]).release_date ==> albums[i] == albums[j]
}

/// Whether all albums of a listing have a release date.
pub open spec fn all_dated(albums: Seq<SimplifiedAlbumView>) -> bool {
    forall|i: int| 0 <= i < albums.len() ==> (#[trigger] albums[i]).release_date is Some
}

/// Whether no two albums of a listing share a name.
pub open spec fn distinct_names(albums: Seq<SimplifiedAlbumView>) -> bool {
    forall|i: int, j: int|
        0 <= i < j < albums.len() ==> (#[trigger] albums[i]).name != (#[trigger] albums[j]).name
}

proof fn lemma_same_members(a: Seq<SimplifiedAlbumView>, b: Seq<SimplifiedAlbumView>, i: int) -> (k:
    int)
    requires
        a.to_multiset() == b.to_multiset(),
        0 <= i < a.len(),
    ensures
        0 <= k < b.len(),
        b[k] == a[i],
{
    broadcast use vstd::seq_lib::group_to_multiset_ensures;
    assert(a.contains(a[i]));
    assert(b.to_multiset().contains(a[i]));
    assert(b.contains(a[i]));
    choose|k: int| 0 <= k < b.len() && b[k] == a[i]
}

/// There is one way only to order albums by date, where the date tells the albums apart.
proof fn lemma_oldest_first_is_unique(
    a: Seq<SimplifiedAlbumView>,
    b: Seq<SimplifiedAlbumView>,
)
    requires
        oldest_first(a),
        oldest_first(b),
        all_dated(a),
        one_album_per_date(a),
        a.to_multiset() == b.to_multiset(),
    ensures
        a == b,
    decreases a.len(),
{
    broadcast use vstd::seq_lib::group_to_multiset_ensures;
    assert(a.to_multiset().len() == a.len() && b.to_multiset().len() == b.len());
    if a.len() == 0 {
        assert(a =~= b);
    } else {
        let n = a.len() - 1;
        let k = lemma_same_members(a, b, n);
        let m = lemma_same_members(b, a, n);
        assert(not_after(b[k], b[n]));
        assert(not_after(a[m], a[n]));
        lemma_text_le_antisymmetric(a[n].release_date->0, a[m].release_date->0);
        assert(a[m] == a[n]);
        let rest_a = a.drop_last();
        let rest_b = b.drop_last();
        assert(a =~= rest_a.push(a[n]));
        assert(b =~= rest_b.push(a[n]));
        assert(rest_a.to_multiset() =~= a.to_multiset().remove(a[n]));
        assert(rest_b.to_multiset() =~= b.to_multiset().remove(a[n]));
        lemma_oldest_first_is_unique(rest_a, rest_b);
    }
}

proof fn lemma_count_of_dated(albums: Seq<SimplifiedAlbumView>, album: SimplifiedAlbumView)
    ensures
        dated(albums).to_multiset().count(album) == if album.release_date is Some {
            albums.to_multiset().count(album)
        } else {
            0
        },
    decreases albums.len(),
{
    broadcast use vstd::seq_lib::group_to_multiset_ensures;
    reveal(Seq::filter);
    if albums.len() == 0 {
        assert(dated(albums) =~= albums);
        assert(albums.to_multiset().len() == 0);
    } else {
        let rest = albums.drop_last();
        lemma_count_of_dated(rest, album);
        assert(albums =~= rest.push(albums.last()));
    }
}

proof fn lemma_dated_has_dates(albums: Seq<SimplifiedAlbumView>)
    ensures
        all_dated(dated(albums)),
        all_dated(albums) ==> dated(albums) == albums,
    decreases albums.len(),
{
    reveal(Seq::filter);
    if albums.len() > 0 {
        let rest = albums.drop_last();
        lemma_dated_has_dates(rest);
        if all_dated(albums) {
            assert(all_dated(rest));
            assert(albums[albums.len() - 1].release_date is Some);
            assert(dated(albums) =~= albums);
        }
    }
}

/// The order in which albums are given makes no difference to how they are shown, where the date
/// tells the albums apart.
pub proof fn order_of_albums_makes_no_difference(
    albums: Seq<SimplifiedAlbumView>,
    reordered: Seq<SimplifiedAlbumView>,
)
    requires
        albums.to_multiset() == reordered.to_multiset(),
        one_album_per_date(dated(albums)),
    ensures
        cleaned_up(albums) == cleaned_up(reordered),
{
    let a = dated(albums);
    let b = dated(reordered);
    assert forall|album: SimplifiedAlbumView|
        a.to_multiset().count(album) == b.to_multiset().count(album) by {
        lemma_count_of_dated(albums, album);
        lemma_count_of_dated(reordered, album);
    }
    assert(a.to_multiset() =~= b.to_multiset());
    sorting_orders_by_date(a);
    sorting_orders_by_date(b);
    lemma_dated_has_dates(albums);
    let ordered = sorted_by_date(a);
    lemma_permuted(a, ordered);
    lemma_oldest_first_is_unique(ordered, sorted_by_date(b));
}

proof fn lemma_permuted(a: Seq<SimplifiedAlbumView>, b: Seq<SimplifiedAlbumView>)
    requires
        a.to_multiset() == b.to_multiset(),
    ensures
        all_dated(a) ==> all_dated(b),
        one_album_per_date(a) ==> one_album_per_date(b),
{
    if all_dated(a) {
        assert forall|i: int| 0 <= i < b.len() implies (#[trigger] b[i]).release_date is Some by {
            let k = lemma_same_members(b, a, i);
        }
    }
    if one_album_per_date(a) {
        assert forall|i: int, j: int|
            0 <= i < b.len() && 0 <= j < b.len() && (#[trigger] b[i]).release_date == (
            #[trigger] b[j]).release_date implies b[i] == b[j] by {
            let k = lemma_same_members(b, a, i);
            let m = lemma_same_members(b, a, j);
            assert(a[k].release_date == a[m].release_date);
        }
    }
}

proof fn lemma_distinct_names_of_pushed(
    albums: Seq<SimplifiedAlbumView>,
    album: SimplifiedAlbumView,
)
    ensures
        distinct_names(albums.push(album)) <==> distinct_names(albums) && !has_name(
            albums,
            album.name,
        ),
{
    let new = albums.push(album);
    if distinct_names(new) {
        assert forall|i: int, j: int| 0 <= i < j < albums.len() implies (#[trigger] albums[i]).name
            != (#[trigger] albums[j]).name by {
            assert(new[i].name != new[j].name);
        }
        if has_name(albums, album.name) {
            let i = choose|i: int|
                0 <= i < albums.len() && (#[trigger] albums[i]).name == album.name;
            assert(new[i].name != new[albums.len() as int].name);
        }
    }
}

proof fn lemma_names_of_inserted(
    ordered: Seq<SimplifiedAlbumView>,
    album: SimplifiedAlbumView,
    name: Seq<char>,
)
    ensures
        has_name(insert_by_date(ordered, album), name) <==> has_name(ordered, name) || album.name
            == name,
        distinct_names(ordered) && !has_name(ordered, album.name) ==> distinct_names(
            insert_by_date(ordered, album),
        ),
    decreases ordered.len(),
{
    if ordered.len() == 0 || not_after(ordered.last(), album) {
        lemma_has_name_of_pushed(ordered, album, name);
        lemma_distinct_names_of_pushed(ordered, album);
    } else {
        let rest = ordered.drop_last();
        let last = ordered.last();
        let front = insert_by_date(rest, album);
        assert(ordered =~= rest.push(last));
        lemma_names_of_inserted(rest, album, name);
        lemma_names_of_inserted(rest, album, last.name);
        lemma_has_name_of_pushed(rest, last, name);
        lemma_has_name_of_pushed(rest, last, album.name);
        lemma_has_name_of_pushed(front, last, name);
        lemma_distinct_names_of_pushed(rest, last);
        lemma_distinct_names_of_pushed(front, last);
    }
}

proof fn lemma_names_of_sorted(albums: Seq<SimplifiedAlbumView>, name: Seq<char>)
    ensures
        has_name(sorted_by_date(albums), name) <==> has_name(albums, name),
        distinct_names(albums) ==> distinct_names(sorted_by_date(albums)),
    decreases albums.len(),
{
    if albums.len() > 0 {
        let rest = albums.drop_last();
        let last = albums.last();
        assert(albums =~= rest.push(last));
        lemma_names_of_sorted(rest, name);
        lemma_names_of_sorted(rest, last.name);
        lemma_names_of_inserted(sorted_by_date(rest), last, name);
        lemma_has_name_of_pushed(rest, last, name);
        lemma_distinct_names_of_pushed(rest, last);
    }
}

proof fn lemma_distinct_names_are_all_kept(albums: Seq<SimplifiedAlbumView>)
    requires
        distinct_names(albums),
    ensures
        first_of_each_name(albums) == albums,
    decreases albums.len(),
{
    if albums.len() > 0 {
        let rest = albums.drop_last();
        assert(albums =~= rest.push(albums.last()));
        lemma_distinct_names_of_pushed(rest, albums.last());
        lemma_distinct_names_are_all_kept(rest);
    }
}

proof fn lemma_released_on_reversed(albums: Seq<SimplifiedAlbumView>, date: Seq<char>)
    ensures
        released_on(albums.reverse(), date) == released_on(albums, date).reverse(),
    decreases albums.len(),
{
    reveal_with_fuel(Seq::filter, 2);
    let pred = |album: SimplifiedAlbumView| album.release_date->0 == date;
    if albums.len() == 0 {
        assert(albums.reverse() =~= albums);
        assert(released_on(albums, date).reverse() =~= released_on(albums, date));
    } else {
        let rest = albums.drop_last();
        let last = albums.last();
        let one = seq![last];
        lemma_released_on_reversed(rest, date);
        assert(albums.reverse() =~= one + rest.reverse());
        Seq::filter_distributes_over_add(one, rest.reverse(), pred);
        assert(one.drop_last() =~= Seq::empty());
        assert(one.filter(pred) =~= if pred(last) {
            one
        } else {
            Seq::empty()
        });
        assert(released_on(albums.reverse(), date) =~= released_on(albums, date).reverse());
    }
}

/// Cleaning up a listing a second time keeps its albums and the order of their dates. Albums of the
/// same date come in the reverse of the order that they had. Where the date tells the albums
/// apart, the listing stays as it is.
pub proof fn cleaning_up_again_turns_each_date_round(
    albums: Seq<SimplifiedAlbumView>,
    date: Seq<char>,
)
    ensures
        ({
            let once = cleaned_up(albums);
            let twice = cleaned_up(once);
            &&& twice.to_multiset() == once.to_multiset()
            &&& newest_first(twice)
            &&& released_on(twice, date) == released_on(once, date).reverse()
            &&& one_album_per_date(once) ==> twice == once
        }),
{
    let once = cleaned_up(albums);
    let twice = cleaned_up(once);
    let ordered = sorted_by_date(once);
    assert(all_dated(once)) by {
        assert forall|i: int| 0 <= i < once.len() implies (
        #[trigger] once[i]).release_date is Some by {
            shown_albums_were_given(albums, i);
        }
    }
    assert(distinct_names(once)) by {
        assert forall|i: int, j: int| 0 <= i < j < once.len() implies (#[trigger] once[i]).name != (
        #[trigger] once[j]).name by {
            shown_names_are_distinct(albums, i, j);
        }
    }
    lemma_dated_has_dates(once);
    lemma_names_of_sorted(once, Seq::empty());
    assert(distinct_names(ordered.reverse())) by {
        let back = ordered.reverse();
        assert forall|i: int, j: int| 0 <= i < j < back.len() implies (#[trigger] back[i]).name != (
        #[trigger] back[j]).name by {
            assert(ordered[ordered.len() - 1 - j].name != ordered[ordered.len() - 1 - i].name);
        }
    }
    lemma_distinct_names_are_all_kept(ordered.reverse());
    assert(twice == ordered.reverse());
    sorting_orders_by_date(once);
    ordered.lemma_reverse_to_multiset();
    shown_albums_are_newest_first(once);
    sorting_is_stable(once, date);
    lemma_released_on_reversed(ordered, date);
    if one_album_per_date(once) {
        shown_albums_are_newest_first(albums);
        once.lemma_reverse_to_multiset();
        lemma_permuted(once, ordered);
        lemma_oldest_first_is_unique(ordered, once.reverse());
        assert(twice =~= once);
    }
}

proof fn lemma_place_by_date(
    ordered: Seq<SimplifiedAlbumView>,
    album: SimplifiedAlbumView,
) -> (place: int)
    ensures
        0 <= place <= ordered.len(),
        insert_by_date(ordered, album) == ordered.insert(place, album),
        place > 0 ==> not_after(ordered[place - 1], album),
        forall|i: int| place <= i < ordered.len() ==> !not_after(#[trigger] ordered[i], album),
    decreases ordered.len(),
{
    if ordered.len() == 0 || not_after(ordered.last(), album) {
        assert(ordered.push(album) =~= ordered.insert(ordered.len() as int, album));
        ordered.len() as int
    } else {
        let rest = ordered.drop_last();
        let place = lemma_place_by_date(rest, album);
        assert(rest.insert(place, album).push(ordered.last()) =~= ordered.insert(place, album));
        assert forall|i: int| place <= i < ordered.len() implies !not_after(
            #[trigger] ordered[i],
            album,
        ) by {
            if i < rest.len() {
                assert(rest[i] == ordered[i]);
            }
        }
        place
    }
}

proof fn lemma_sorted_positions(albums: Seq<SimplifiedAlbumView>) -> (at: Seq<int>)
    ensures
        at.len() == sorted_by_date(albums).len(),
        forall|i: int|
            0 <= i < at.len() ==> 0 <= (#[trigger] at[i]) < albums.len() && sorted_by_date(
                albums,
            )[i] == albums[at[i]],
        forall|i: int, j: int|
            0 <= i < j < at.len() ==> text_le(
                albums[#[trigger] at[i]].release_date->0,
                albums[#[trigger] at[j]].release_date->0,
            ) && (text_le(albums[at[j]].release_date->0, albums[at[i]].release_date->0) ==> at[i]
                < at[j]),
        forall|k: int| 0 <= k < albums.len() ==> #[trigger] at.contains(k),
    decreases albums.len(),
{
    if albums.len() == 0 {
        Seq::empty()
    } else {
        let rest = albums.drop_last();
        let n = albums.len() - 1;
        let last = albums[n];
        let before = lemma_sorted_positions(rest);
        let ordered = sorted_by_date(rest);
        let place = lemma_place_by_date(ordered, last);
        let at = before.insert(place, n);
        assert(sorted_by_date(albums) == ordered.insert(place, last));
        sorting_orders_by_date(rest);
        assert forall|i: int| 0 <= i < at.len() implies 0 <= (#[trigger] at[i]) < albums.len()
            && sorted_by_date(albums)[i] == albums[at[i]] by {
            if i < place {
                assert(at[i] == before[i]);
            } else if i > place {
                assert(at[i] == before[i - 1]);
            }
        }
        assert forall|i: int, j: int| 0 <= i < j < at.len() implies text_le(
            albums[#[trigger] at[i]].release_date->0,
            albums[#[trigger] at[j]].release_date->0,
        ) && (text_le(albums[at[j]].release_date->0, albums[at[i]].release_date->0) ==> at[i]
            < at[j]) by {
            let a = if i < place {
                i
            } else {
                i - 1
            };
            let b = if j < place {
                j
            } else {
                j - 1
            };
            if i == place {
                assert(at[j] == before[b] && ordered[b] == rest[before[b]]);
                assert(!not_after(ordered[b], last));
                lemma_bytes_le_total(
                    encode_utf8(ordered[b].release_date->0),
                    encode_utf8(last.release_date->0),
                );
            } else if j == place {
                assert(at[i] == before[a] && ordered[a] == rest[before[a]]);
                assert(not_after(ordered[a], ordered[place - 1]));
                lemma_bytes_le_transitive(
                    encode_utf8(ordered[a].release_date->0),
                    encode_utf8(ordered[place - 1].release_date->0),
                    encode_utf8(last.release_date->0),
                );
            } else {
                assert(at[i] == before[a] && at[j] == before[b]);
                assert(rest[before[a]] == albums[at[i]] && rest[before[b]] == albums[at[j]]);
            }
        }
        assert forall|k: int| 0 <= k < albums.len() implies #[trigger] at.contains(k) by {
            if k == n {
                assert(at[place] == k);
            } else {
                assert(before.contains(k));
                let i = choose|i: int| 0 <= i < before.len() && before[i] == k;
                if i < place {
                    assert(at[i] == k);
                } else {
                    assert(at[i + 1] == k);
                }
            }
        }
        at
    }
}

proof fn lemma_kept_positions(albums: Seq<SimplifiedAlbumView>) -> (positions: (
    Seq<int>,
    Seq<int>,
))
    ensures
        positions.0.len() == first_of_each_name(albums).len(),
        positions.1.len() == albums.len(),
        forall|i: int|
            0 <= i < positions.0.len() ==> 0 <= (#[trigger] positions.0[i]) < albums.len()
                && first_of_each_name(albums)[i] == albums[positions.0[i]],
        forall|i: int, j: int|
            0 <= i < j < positions.0.len() ==> (#[trigger] positions.0[i]) < (
            #[trigger] positions.0[j]),
        forall|k: int|
            0 <= k < albums.len() ==> 0 <= (#[trigger] positions.1[k]) < positions.0.len()
                && positions.0[positions.1[k]] <= k && first_of_each_name(
                albums,
            )[positions.1[k]].name == albums[k].name,
    decreases albums.len(),
{
    if albums.len() == 0 {
        (Seq::empty(), Seq::empty())
    } else {
        let rest = albums.drop_last();
        let n = albums.len() - 1;
        let (at, by) = lemma_kept_positions(rest);
        let kept = first_of_each_name(rest);
        if has_name(kept, albums[n].name) {
            let i = choose|i: int|
                0 <= i < kept.len() && (#[trigger] kept[i]).name == albums[n].name;
            assert(0 <= at[i] < rest.len());
            (at, by.push(i))
        } else {
            (at.push(n), by.push(at.len() as int))
        }
    }
}

/// What is shown of an artist's albums, told by the positions that the shown albums were given at.
/// Each has a release date, and no two share a name. A later date comes before an earlier one; of
/// one date, what was given later comes first. Of the dated albums of a name, the one shown has the
/// latest date, and of those with that date it was given last. The second result is, for each given
/// album, the place at which one of its name is shown.
pub proof fn latest_album_of_each_name_is_shown(albums: Seq<SimplifiedAlbumView>) -> (positions: (
    Seq<int>,
    Seq<int>,
))
    ensures
        ({
            let at = positions.0;
            let shown_at = positions.1;
            &&& at.len() == cleaned_up(albums).len()
            &&& forall|i: int|
                0 <= i < at.len() ==> {
                    &&& 0 <= (#[trigger] at[i]) < albums.len()
                    &&& cleaned_up(albums)[i] == albums[at[i]]
                    &&& albums[at[i]].release_date is Some
                }
            &&& forall|i: int, j: int|
                0 <= i < j < at.len() ==> {
                    let newer = albums[#[trigger] at[i]];
                    let older = albums[#[trigger] at[j]];
                    &&& newer.name != older.name
                    &&& text_le(older.release_date->0, newer.release_date->0)
                    &&& older.release_date == newer.release_date ==> at[j] < at[i]
                }
            &&& forall|k: int|
                0 <= k < albums.len() && albums[k].release_date is Some ==> {
                    let shown = albums[at[#[trigger] shown_at[k]]];
                    &&& 0 <= shown_at[k] < at.len()
                    &&& shown.name == albums[k].name
                    &&& text_le(albums[k].release_date->0, shown.release_date->0)
                    &&& albums[k].release_date == shown.release_date ==> k <= at[shown_at[k]]
                }
        }),
{
    let dates = dated(albums);
    let given = lemma_filter_positions(
        albums,
        |album: SimplifiedAlbumView| album.release_date is Some,
    );
    let ordered = sorted_by_date(dates);
    let sorted = lemma_sorted_positions(dates);
    let back = ordered.reverse();
    let (kept, kept_by) = lemma_kept_positions(back);
    let shown = cleaned_up(albums);
    let n = ordered.len() as int;
    let at = Seq::new(kept.len(), |i: int| given[sorted[n - 1 - kept[i]]]);
    let shown_at = Seq::new(
        albums.len(),
        |k: int| kept_by[n - 1 - sorted.index_of(given.index_of(k))],
    );
    assert forall|i: int| 0 <= i < at.len() implies {
        &&& 0 <= (#[trigger] at[i]) < albums.len()
        &&& shown[i] == albums[at[i]]
        &&& albums[at[i]].release_date is Some
    } by {
        let m = n - 1 - kept[i];
        assert(back[kept[i]] == ordered[m]);
        assert(ordered[m] == dates[sorted[m]]);
        assert(dates[sorted[m]] == albums[given[sorted[m]]]);
    }
    assert forall|i: int, j: int| 0 <= i < j < at.len() implies {
        let newer = albums[#[trigger] at[i]];
        let older = albums[#[trigger] at[j]];
        &&& newer.name != older.name
        &&& text_le(older.release_date->0, newer.release_date->0)
        &&& older.release_date == newer.release_date ==> at[j] < at[i]
    } by {
        let a = n - 1 - kept[i];
        let b = n - 1 - kept[j];
        assert(kept[i] < kept[j]);
        shown_names_are_distinct(albums, i, j);
        assert(shown[i] == albums[at[i]] && shown[j] == albums[at[j]]);
        assert(albums[given[sorted[a]]] == dates[sorted[a]]);
        assert(albums[given[sorted[b]]] == dates[sorted[b]]);
        assert(text_le(dates[sorted[b]].release_date->0, dates[sorted[a]].release_date->0));
    }
    assert forall|k: int| 0 <= k < albums.len() && albums[k].release_date is Some implies {
        let chosen = albums[at[#[trigger] shown_at[k]]];
        &&& 0 <= shown_at[k] < at.len()
        &&& chosen.name == albums[k].name
        &&& text_le(albums[k].release_date->0, chosen.release_date->0)
        &&& albums[k].release_date == chosen.release_date ==> k <= at[shown_at[k]]
    } by {
        assert(given.contains(k));
        let d = given.index_of(k);
        assert(sorted.contains(d));
        let b = sorted.index_of(d);
        let m = n - 1 - b;
        let i = kept_by[m];
        let a = n - 1 - kept[i];
        assert(back[m] == ordered[b] && ordered[b] == dates[sorted[b]]);
        assert(dates[given.index_of(k)] == albums[given[d]]);
        assert(shown[i] == albums[at[i]]);
        assert(at[i] == given[sorted[a]]);
        assert(dates[sorted[a]] == albums[given[sorted[a]]]);
        if a == b {
            lemma_not_after_itself(albums[k]);
        } else {
            assert(text_le(dates[sorted[b]].release_date->0, dates[sorted[a]].release_date->0));
        }
    }
    (at, shown_at)
}

} // verus!
