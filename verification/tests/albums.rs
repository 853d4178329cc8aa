use spotify_player::client::Client;
use spotify_player::model::SimplifiedAlbum;

fn album(name: &str, id: &str, release_date: Option<&str>) -> SimplifiedAlbum {
    SimplifiedAlbum {
        id: Some(id.to_string()),
        uri: None,
        name: name.to_string(),
        artists: vec![],
        release_date: release_date.map(|date| date.to_string()),
    }
}

fn cleaned_up_ids(albums: Vec<SimplifiedAlbum>) -> Vec<String> {
    let client = Client { access_token: None };
    client
        .clean_up_artist_albums(albums)
        .into_iter()
        .map(|album| album.id.unwrap())
        .collect()
}

#[test]
fn no_albums_stay_no_albums() {
    assert!(cleaned_up_ids(vec![]).is_empty());
}

#[test]
fn albums_are_shown_newest_first() {
    let ids = cleaned_up_ids(vec![
        album("a", "1", Some("2001-05-01")),
        album("b", "2", Some("2019-01-31")),
        album("c", "3", Some("1998")),
        album("d", "4", Some("2019-01")),
    ]);
    assert_eq!(ids, vec!["2", "4", "1", "3"]);
}

#[test]
fn albums_without_a_date_are_left_out() {
    let ids = cleaned_up_ids(vec![
        album("a", "1", None),
        album("b", "2", Some("2019")),
        album("c", "3", None),
    ]);
    assert_eq!(ids, vec!["2"]);
}

#[test]
fn an_empty_date_is_a_date() {
    let ids = cleaned_up_ids(vec![album("a", "1", Some("")), album("b", "2", Some("0"))]);
    assert_eq!(ids, vec!["2", "1"]);
}

#[test]
fn the_newest_album_of_a_name_is_shown() {
    let ids = cleaned_up_ids(vec![
        album("same", "1", Some("2010")),
        album("same", "2", Some("2012")),
        album("other", "3", Some("2011")),
        album("same", "4", Some("2009")),
    ]);
    assert_eq!(ids, vec!["2", "3"]);
}

#[test]
fn of_albums_of_one_name_and_date_the_last_is_shown() {
    let ids = cleaned_up_ids(vec![
        album("same", "1", Some("2010")),
        album("same", "2", Some("2010")),
    ]);
    assert_eq!(ids, vec!["2"]);
}

#[test]
fn albums_of_one_date_come_in_reverse_order() {
    let ids = cleaned_up_ids(vec![
        album("a", "1", Some("2010")),
        album("b", "2", Some("2010")),
        album("c", "3", Some("2010")),
    ]);
    assert_eq!(ids, vec!["3", "2", "1"]);
}

#[test]
fn the_order_of_albums_with_different_dates_makes_no_difference() {
    let given = vec![
        album("a", "1", Some("2010")),
        album("b", "2", Some("2008")),
        album("a", "3", Some("2012")),
        album("c", "4", None),
    ];
    let mut reordered = given.clone();
    reordered.reverse();
    assert_eq!(cleaned_up_ids(given), vec!["3", "2"]);
    assert_eq!(cleaned_up_ids(reordered), vec!["3", "2"]);
}

#[test]
fn cleaning_up_again_turns_round_the_albums_of_one_date() {
    let client = Client { access_token: None };
    let once = client.clean_up_artist_albums(vec![
        album("a", "1", Some("2010")),
        album("b", "2", Some("2010")),
        album("c", "3", Some("2011")),
    ]);
    assert_eq!(cleaned_up_ids(once), vec!["3", "1", "2"]);
}

#[test]
fn names_differ_by_case() {
    let ids = cleaned_up_ids(vec![
        album("Name", "1", Some("2010")),
        album("name", "2", Some("2011")),
    ]);
    assert_eq!(ids, vec!["2", "1"]);
}

#[test]
fn an_undated_album_hides_no_other() {
    let ids = cleaned_up_ids(vec![
        album("same", "1", None),
        album("same", "2", Some("2011")),
    ]);
    assert_eq!(ids, vec!["2"]);
}

#[test]
fn cleaning_up_keeps_all_of_an_album() {
    let client = Client { access_token: None };
    let given = album("a", "1", Some("2010"));
    let shown = client.clean_up_artist_albums(vec![given.clone()]);
    assert_eq!(shown, vec![given]);
}
