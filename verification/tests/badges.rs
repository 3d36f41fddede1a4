use std::borrow::Cow;
use twitch_message::badges::Precedence;
use twitch_message::{parse_badges, Badge};

fn badge<'a>(set_id: &'a str, id: &'a str) -> Badge<'a> {
    Badge {
        set_id: Cow::from(set_id),
        id: Cow::from(id),
    }
}

#[test]
fn composite_ordering() {
    let badges = "premium/1,broadcaster/1,subscriber/5,subscriber/4,subscriber/12";
    let mut badges: Vec<_> = parse_badges(badges);

    let expected = [
        ("premium", "1"),
        ("broadcaster", "1"),
        ("subscriber", "5"),
        ("subscriber", "4"),
        ("subscriber", "12"),
    ]
    .into_iter()
    .map(|(k, v)| badge(k, v))
    .collect::<Vec<_>>();

    assert_eq!(badges, expected);

    badges.sort_by(|a, b| a.cmp(b));

    let expected = [
        ("broadcaster", "1"),
        ("subscriber", "4"),
        ("subscriber", "5"),
        ("subscriber", "12"),
        ("premium", "1"),
    ]
    .into_iter()
    .map(|(k, v)| badge(k, v))
    .collect::<Vec<_>>();

    assert_eq!(
        badges, expected,
        "\ngot: {badges:#?}\n\nexpected: {expected:#?}\n"
    );
}

#[test]
fn badge_ordering() {
    let parse = |s: &'static str| parse_badges(s).into_iter().next().unwrap();

    assert!(parse("subscriber/12") > parse("subscriber/9"));
    assert!(parse("subscriber/0") < parse("subscriber/1"));
    let mut badges: Vec<_> = parse_badges("bits/1,staff/1,broadcaster/1");
    badges.sort_by(|a, b| a.cmp(b));
    assert_eq!(
        badges.iter().map(|b| b.set_id.as_ref()).collect::<Vec<_>>(),
        vec!["staff", "broadcaster", "bits",]
    );

    let mut badges: Vec<_> = parse_badges("aaa/1,zzz/1,staff/1");
    badges.sort_by(|a, b| a.cmp(b));
    assert_eq!(
        badges.iter().map(|b| b.set_id.as_ref()).collect::<Vec<_>>(),
        vec!["staff", "aaa", "zzz"]
    );
}

#[test]
fn badge_list_in_order() {
    let input = "broadcaster/1,foo/bar";
    let expected = [badge("broadcaster", "1"), badge("foo", "bar")];
    assert_eq!(parse_badges(input), expected);
}

#[test]
fn entry_without_slash_is_skipped() {
    assert_eq!(parse_badges("staff,vip/1,"), vec![badge("vip", "1")]);
    assert_eq!(parse_badges(""), Vec::<Badge>::new());
}

#[test]
fn id_keeps_what_follows_the_first_slash() {
    assert_eq!(parse_badges("a/b/c"), vec![badge("a", "b/c")]);
}

#[test]
fn escaped_comma_in_id() {
    assert_eq!(parse_badges("predictions/blue\u{2E1D}1"), vec![badge("predictions", "blue,1")]);
    assert_eq!(Badge::unescape("a\u{2E1D}b\u{2E1D}"), "a,b,");
    assert_eq!(Badge::unescape("plain"), "plain");
    assert!(matches!(Badge::unescape("plain"), Cow::Borrowed("plain")));
    assert!(matches!(Badge::unescape("a\u{2E1D}b"), Cow::Owned(_)));
    let badges = parse_badges("vip/1,predictions/blue\u{2E1D}1");
    assert!(matches!(badges[0].set_id, Cow::Borrowed("vip")));
    assert!(matches!(badges[0].id, Cow::Borrowed("1")));
    assert!(matches!(badges[1].id, Cow::Owned(_)));
}

#[test]
fn subscriber_goes_before_premium() {
    let input = "@badge-info=;badges=premium/1,subscriber/4 :museun!museun@museun.tmi.twitch.tv PRIVMSG #museun :hi\r\n";
    let post = twitch_message::parse_as::<twitch_message::messages::Privmsg>(input).unwrap();
    let mut badges = post.badges();
    assert_eq!(badges, vec![badge("premium", "1"), badge("subscriber", "4")]);
    badges.sort_by(|a, b| a.cmp(b));
    assert_eq!(badges, vec![badge("subscriber", "4"), badge("premium", "1")]);
}

#[test]
fn rank_follows_the_list() {
    let list = [
        "staff",
        "admin",
        "global-moderator",
        "broadcaster",
        "vip",
        "moderator",
        "partner",
        "subscriber",
        "artist",
        "turbo",
        "premium",
        "bits-leader",
        "bits",
    ];
    for i in 0..list.len() {
        for j in 0..list.len() {
            let expected = if i < j {
                Precedence::Before
            } else if i > j {
                Precedence::After
            } else {
                Precedence::Same
            };
            assert_eq!(badge(list[i], "1").precedence(&badge(list[j], "1")), expected);
        }
        assert_eq!(badge(list[i], "1").precedence(&badge("zzz", "1")), Precedence::Before);
        assert_eq!(badge("aaa", "1").precedence(&badge(list[i], "1")), Precedence::After);
    }
}

#[test]
fn ids_of_digits_go_by_number() {
    assert_eq!(badge("u", "5").precedence(&badge("u", "11")), Precedence::Before);
    assert_eq!(badge("u", "11").precedence(&badge("u", "5")), Precedence::After);
    assert_eq!(badge("u", "007").precedence(&badge("u", "8")), Precedence::Before);
    // the same number: the texts decide
    assert_eq!(badge("u", "01").precedence(&badge("u", "1")), Precedence::Before);
    assert_eq!(badge("u", "1").precedence(&badge("u", "1")), Precedence::Same);
    // numbers beyond any machine integer
    assert_eq!(
        badge("u", "99999999999999999999999999").precedence(&badge("u", "100000000000000000000000000")),
        Precedence::Before
    );
}

#[test]
fn other_ids_go_as_texts() {
    assert_eq!(badge("u", "1U").precedence(&badge("u", "5")), Precedence::Before);
    assert_eq!(badge("u", "11").precedence(&badge("u", "1U")), Precedence::Before);
    assert_eq!(badge("u", "b").precedence(&badge("u", "a")), Precedence::After);
    assert_eq!(badge("u", "").precedence(&badge("u", "a")), Precedence::Before);
}

#[test]
fn exactly_one_of_less_equal_greater() {
    let sample = parse_badges("bits/1,staff/1,staff/2,aaa/1,aaa/x,zzz/10,zzz/9,zzz/09,vip/,vip/0");
    assert_eq!(sample.len(), 10);
    for a in &sample {
        for b in &sample {
            let held = [a < b, a == b, a > b];
            assert_eq!(held.iter().filter(|x| **x).count(), 1, "{a:?} {b:?}");
            assert_eq!(a.partial_cmp(b), Some(a.cmp(b)));
            assert_eq!(a.cmp(b), b.cmp(a).reverse());
        }
    }
}

#[test]
fn from_tags_reads_the_badges_tag() {
    let tags = twitch_message::Tags::builder().add("badges", "broadcaster/1,foo/bar").finish();
    assert_eq!(Badge::from_tags(&tags), vec![badge("broadcaster", "1"), badge("foo", "bar")]);
    let none = twitch_message::Tags::builder().add("badges", "").finish();
    assert_eq!(Badge::from_tags(&none), Vec::<Badge>::new());
}

#[test]
fn order_of_digit_ids_is_transitive() {
    let sample = parse_badges(
        "bits/1,staff/1,staff/2,staff/10,staff/010,aaa/1,aaa/7,zzz/10,zzz/9,zzz/09,vip/,vip/0,admin/5",
    );
    for a in &sample {
        for b in &sample {
            for c in &sample {
                if a < b && b < c {
                    assert!(a < c, "{a:?} {b:?} {c:?}");
                }
            }
        }
    }
    let mut sorted = sample.clone();
    sorted.sort_by(|a, b| a.cmp(b));
    for pair in sorted.windows(2) {
        assert!(pair[0] < pair[1]);
    }
}

#[test]
fn listed_set_goes_before_one_that_is_not() {
    assert_eq!(badge("global-moderator", "1").precedence(&badge("aaa", "1")), Precedence::Before);
    assert_eq!(badge("aaa", "1").precedence(&badge("global-moderator", "1")), Precedence::After);
    assert_eq!(badge("artist", "1").precedence(&badge("aaa", "1")), Precedence::Before);
    assert_eq!(badge("aaa", "1").precedence(&badge("artist", "1")), Precedence::After);
    assert!(badge("global-moderator", "9") < badge("aaa", "1"));
    assert!(badge("artist", "9") < badge("zzz", "1"));
    // the ids play no part between two sets
    assert!(badge("staff", "9") < badge("bits", "1"));
    assert!(badge("aaa", "9") < badge("aab", "1"));
    // a set that is not in the list goes as a text, whatever it looks like
    assert_eq!(badge("global_mod", "1").precedence(&badge("aaa", "1")), Precedence::After);
    assert_eq!(badge("artist-badge", "1").precedence(&badge("aaa", "1")), Precedence::After);
    assert_eq!(badge("global_mod", "1").precedence(&badge("staff", "1")), Precedence::After);
}

#[test]
fn id_ordering() {
    let badges = "U/1U,U/11,U/5";

    let badges: Vec<_> = parse_badges(badges);

    let expected = [("U", "1U"), ("U", "11"), ("U", "5")]
        .into_iter()
        .map(|(k, v)| badge(k, v))
        .collect::<Vec<_>>();

    assert_eq!(badges, expected);

    let (mixed, eleven, five) = (&badges[0], &badges[1], &badges[2]);
    // an id that is not made of digits goes as a text against any other
    assert!(mixed < five);
    assert!(five > mixed);
    assert!(eleven < mixed);
    assert!(mixed > eleven);
    // two ids made of digits go by their numbers
    assert!(five < eleven);
    assert!(eleven > five);
    for a in &badges {
        for b in &badges {
            assert_eq!(a.partial_cmp(b), Some(a.cmp(b)));
            assert_eq!(a == b, a.cmp(b) == std::cmp::Ordering::Equal);
        }
    }
}
