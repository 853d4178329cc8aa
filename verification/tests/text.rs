use spotify_player::text::string_le;

#[test]
fn strings_are_ordered_by_their_bytes() {
    assert!(string_le(&String::from("2019"), &String::from("2019-01")));
    assert!(!string_le(&String::from("2020"), &String::from("2019-12-31")));
}
