use std::borrow::Cow;
use twitch_message::{parse_emotes, Emote, Tags};

fn emote<'a>(id: &'a str, name: &'a str, byte_pos: (usize, usize)) -> Emote<'a> {
    Emote {
        id: Cow::from(id),
        name: Cow::from(name),
        byte_pos,
    }
}

#[test]
fn kappa_twice() {
    let emotes = parse_emotes("25:0-4,14-18", "Kappa testing Kappa");
    assert_eq!(emotes, vec![emote("25", "Kappa", (0, 5)), emote("25", "Kappa", (14, 19))]);
    for e in &emotes {
        assert!(matches!(e.id, Cow::Borrowed("25")));
        assert!(matches!(e.name, Cow::Borrowed("Kappa")));
    }
}

#[test]
fn from_tags_reads_the_emotes_tag() {
    let tags = Tags::builder().add("emotes", "25:0-4,14-18").finish();
    let data = "Kappa testing Kappa";
    let expected = [emote("25", "Kappa", (0, 5)), emote("25", "Kappa", (14, 19))];
    assert_eq!(Emote::from_tags(&tags, data), expected);
    for e in Emote::from_tags(&tags, data) {
        assert_eq!(&data[e.byte_pos.0..e.byte_pos.1], e.name);
    }
    assert_eq!(Emote::from_tags(&Tags::default(), data), Vec::<Emote>::new());
    let empty = Tags::builder().add("emotes", "").finish();
    assert_eq!(Emote::from_tags(&empty, data), Vec::<Emote>::new());
}

#[test]
fn several_ids() {
    let emotes = parse_emotes("25:0-4/1902:6-10", "Kappa Keepo");
    assert_eq!(emotes, vec![emote("25", "Kappa", (0, 5)), emote("1902", "Keepo", (6, 11))]);
}

#[test]
fn positions_count_characters_and_byte_pos_counts_bytes() {
    let data = "héllo Kappa ✓ Kappa";
    let emotes = parse_emotes("25:6-10,14-18", data);
    assert_eq!(emotes, vec![emote("25", "Kappa", (7, 12)), emote("25", "Kappa", (17, 22))]);
    for e in &emotes {
        assert_eq!(&data[e.byte_pos.0..e.byte_pos.1], e.name);
    }
    // one character of each width
    let data = "a\u{e9}\u{2713}\u{1F600}b";
    let emotes = parse_emotes("x:0-0,1-1,2-2,3-3,4-4", data);
    assert_eq!(
        emotes.iter().map(|e| e.byte_pos).collect::<Vec<_>>(),
        vec![(0, 1), (1, 3), (3, 6), (6, 10), (10, 11)]
    );
}

#[test]
fn name_is_the_range_and_no_more() {
    let emotes = parse_emotes("25:14-18", "Kappa testing Kappa and more");
    assert_eq!(emotes, vec![emote("25", "Kappa", (14, 19))]);
}

#[test]
fn range_beyond_the_text_is_dropped() {
    let data = "Kappa";
    assert_eq!(parse_emotes("25:0-4,100-104", data), vec![emote("25", "Kappa", (0, 5))]);
    assert_eq!(parse_emotes("25:0-5", data), Vec::<Emote>::new());
    assert_eq!(parse_emotes("25:3-7,0-4", data), vec![emote("25", "Kappa", (0, 5))]);
    assert_eq!(parse_emotes("25:0-4", ""), Vec::<Emote>::new());
}

#[test]
fn range_that_ends_before_it_starts_is_dropped() {
    assert_eq!(parse_emotes("25:4-0,1-1", "Kappa"), vec![emote("25", "a", (1, 2))]);
}

#[test]
fn what_is_no_range_is_dropped() {
    let data = "Kappa Kappa";
    assert_eq!(parse_emotes("25:a-b,0-4,5,-,6-,-10,6-10", data), vec![
        emote("25", "Kappa", (0, 5)),
        emote("25", "Kappa", (6, 11)),
    ]);
    assert_eq!(parse_emotes("25", data), Vec::<Emote>::new());
    assert_eq!(parse_emotes("", data), Vec::<Emote>::new());
    assert_eq!(parse_emotes("/25:0-4/", data), vec![emote("25", "Kappa", (0, 5))]);
    assert_eq!(parse_emotes("25:99999999999999999999999999-4", data), Vec::<Emote>::new());
}

#[test]
fn piece_of_a_text_at_an_emote() {
    let data = "héllo Kappa ✓ Kappa";
    for e in parse_emotes("25:6-10,14-18/x:1-1,12-12", data) {
        assert_eq!(e.piece_of(data), Some(e.name.as_ref()));
        assert_eq!(e.piece_of(data), Some(&data[e.byte_pos.0..e.byte_pos.1]));
    }
    let at = |from: usize, to: usize| emote("25", "", (from, to));
    assert_eq!(at(0, 0).piece_of(data), Some(""));
    assert_eq!(at(0, 1).piece_of(data), Some("h"));
    assert_eq!(at(1, 3).piece_of(data), Some("é"));
    assert_eq!(at(0, data.len()).piece_of(data), Some(data));
    assert_eq!(at(data.len(), data.len()).piece_of(data), Some(""));
    // within a character
    assert_eq!(at(2, 3).piece_of(data), None);
    assert_eq!(at(1, 2).piece_of(data), None);
    assert_eq!(at(13, 15).piece_of(data), None);
    // beyond the end
    assert_eq!(at(0, data.len() + 1).piece_of(data), None);
    assert_eq!(at(data.len() + 1, data.len() + 1).piece_of(data), None);
    assert_eq!(at(0, usize::MAX).piece_of(data), None);
    assert_eq!(at(0, 1).piece_of(""), None);
    // the end before the start
    assert_eq!(at(3, 1).piece_of(data), None);
    // another text than the one that the emote was found in
    let emotes = parse_emotes("25:0-4", "Kappa");
    assert_eq!(emotes[0].piece_of("Keepo!"), Some("Keepo"));
    assert_eq!(emotes[0].piece_of("Kap"), None);
}
