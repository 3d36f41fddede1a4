use std::borrow::Cow;
use twitch_message::builders::{PrivmsgBuilder, PrivmsgBuilderError, TagsBuilder};
use twitch_message::messages::{MessageKind, Privmsg};
use twitch_message::{Color, Prefix, Tags};

#[test]
fn builder_adds_and_finishes() {
    let tags = TagsBuilder::default().add("foo", "bar").add("baz", "42").finish();
    assert_eq!(tags.get("foo"), Some("bar"));
    assert_eq!(tags.parsed("baz"), Some(Some(42)));
    assert_eq!(tags.number("baz"), Some(42));
    assert_eq!(tags.parsed("foo"), Some(None));
    assert_eq!(tags.parsed("nope"), None);
    assert_eq!(tags.number("foo"), None);
    assert_eq!(tags.len(), 2);
}

#[test]
fn builder_has() {
    let builder = Tags::builder().add("foo", "");
    assert!(builder.has("foo"));
    assert!(!builder.has("bar"));
    let tags = builder.finish();
    assert_eq!(tags.get("foo"), None);
    assert_eq!(tags.lookup("foo"), Some(""));
}

#[test]
fn builder_unescapes_values() {
    let tags = Tags::builder().add("k", "a\\sb\\:c").finish();
    assert_eq!(tags.get("k"), Some("a b;c"));
}

#[test]
fn builder_replaces() {
    let tags = Tags::builder().add("k", "1").add("k", "2").finish();
    assert_eq!(tags.get("k"), Some("2"));
    assert_eq!(tags.len(), 1);
}

#[test]
fn insert_replaces_or_adds() {
    let tags = Tags::new()
        .insert(Cow::from("a"), Cow::from("1"))
        .insert(Cow::from("b"), Cow::from("2"))
        .insert(Cow::from("a"), Cow::from("3"));
    assert_eq!(tags.len(), 2);
    assert_eq!(tags.get("a"), Some("3"));
    assert_eq!(tags.get("b"), Some("2"));
}

#[test]
fn flags() {
    let tags = Tags::builder().add("mod", "1").add("turbo", "0").add("x", "true").finish();
    assert!(tags.bool("mod"));
    assert!(!tags.bool("turbo"));
    assert!(!tags.bool("x"));
    assert!(!tags.bool("absent"));
}

#[test]
fn numbers() {
    let tags = Tags::builder()
        .add("a", "0")
        .add("b", "+7")
        .add("c", "-1")
        .add("d", "007")
        .add("e", "1e3")
        .add("f", "340282366920938463463374607431768211456")
        .add("g", "+")
        .finish();
    assert_eq!(tags.number("a"), Some(0));
    assert_eq!(tags.number("b"), Some(7));
    assert_eq!(tags.number("c"), None);
    assert_eq!(tags.number("d"), Some(7));
    assert_eq!(tags.number("e"), None);
    assert_eq!(tags.number("f"), None);
    assert_eq!(tags.number("g"), None);
    let max = usize::MAX.to_string();
    let tags = Tags::builder().add("max", &max).finish();
    assert_eq!(tags.number("max"), Some(usize::MAX));
}

#[test]
fn color_tag() {
    let tags = Tags::builder().add("color", "#008000").finish();
    assert_eq!(tags.color(), Some(Color(0x00, 0x80, 0x00)));
    assert_eq!(Tags::builder().add("color", "green").finish().color(), None);
    assert_eq!(Tags::builder().add("color", "").finish().color(), None);
    assert_eq!(Tags::default().color(), None);
}

#[test]
fn written_in_front_of_a_line() {
    assert_eq!(Tags::default().to_raw(), "");
    assert_eq!(Tags::builder().add("foo", "bar").finish().to_raw(), "@foo=bar");
    assert_eq!(Tags::builder().add("k", "a b;c").finish().to_raw(), "@k=a\\sb\\:c");
    assert_eq!(Tags::builder().add("k", "").finish().to_raw(), "@k=");
    let raw = Tags::builder().add("a", "1").add("b", "2").finish().to_raw();
    assert!(raw == "@a=1;b=2" || raw == "@b=2;a=1");
}

#[test]
fn written_tags_parse_back() {
    let tags = Tags::builder().add("a", "x y").add("b", "").add("c", "\\\\;").finish();
    assert_eq!(tags.get("c"), Some("\\;"));
    let line = format!("{} PING :1\r\n", tags.to_raw());
    let message = twitch_message::parse(&line).unwrap().message;
    assert_eq!(message.tags, tags);
}

#[test]
fn equality_ignores_the_order() {
    let one = Tags::builder().add("a", "1").add("b", "2").finish();
    let other = Tags::builder().add("b", "2").add("a", "1").finish();
    assert_eq!(one, other);
    assert_eq!(one.clone(), one);
    assert_ne!(one, Tags::builder().add("a", "1").finish());
    assert_ne!(one, Tags::builder().add("a", "1").add("b", "3").finish());
    assert_ne!(one, Tags::builder().add("a", "1").add("c", "2").finish());
    assert_ne!(Tags::builder().add("a", "1").finish(), one);
    assert_eq!(Tags::default(), Tags::new());
}

#[test]
fn post_builder() {
    let builder = PrivmsgBuilder::default()
        .channel("museun")
        .sender("shaken_bot")
        .data("~ Kappa");

    let expected = ":shaken_bot!shaken_bot@shaken_bot.tmi.twitch.tv PRIVMSG #museun :~ Kappa\r\n";

    let msg = builder.clone().finish_message().unwrap();
    assert_eq!(msg.raw, expected);
    assert_eq!(msg.kind, MessageKind::Privmsg);
    assert_eq!(msg.args, vec![Cow::from("museun")]);
    assert_eq!(msg.data.as_deref(), Some("~ Kappa"));
    assert_eq!(
        msg.prefix,
        Prefix::User {
            name: Cow::from("shaken_bot"),
            user: Cow::from("shaken_bot"),
            host: Cow::from("shaken_bot"),
        }
    );

    let pm: Privmsg<'_> = builder.finish_privmsg().unwrap();
    assert_eq!(pm.raw, expected);
    assert_eq!(pm.channel, "museun");
    assert_eq!(pm.sender, "shaken_bot");
    assert_eq!(pm.data, "~ Kappa");
}

#[test]
fn post_builder_with_tags_and_octothorpe() {
    let tags = Tags::builder().add("id", "abc").finish();
    let msg = Privmsg::builder()
        .tags(tags.clone())
        .channel("#museun")
        .sender("bot")
        .data("hi")
        .finish_message()
        .unwrap();
    assert_eq!(msg.raw, "@id=abc :bot!bot@bot.tmi.twitch.tv PRIVMSG #museun :hi\r\n");
    assert_eq!(msg.tags, tags);
}

#[test]
fn post_builder_lacks() {
    let e = PrivmsgBuilder::new().finish_message().unwrap_err();
    assert_eq!(e, PrivmsgBuilderError::MissingSender);
    assert_eq!(e.to_string(), "Missing sender");
    let e = PrivmsgBuilder::new().sender("bot").finish_message().unwrap_err();
    assert_eq!(e, PrivmsgBuilderError::MissingChannel);
    assert_eq!(e.to_string(), "Missing channel");
    let e = PrivmsgBuilder::new().sender("bot").channel("c").finish_privmsg().unwrap_err();
    assert_eq!(e, PrivmsgBuilderError::MissingData);
    assert_eq!(e.to_string(), "Missing data");
    let e = PrivmsgBuilder::new().sender("").channel("c").data("d").finish_message().unwrap_err();
    assert_eq!(e, PrivmsgBuilderError::MissingSender);
    let e = PrivmsgBuilder::new().sender("s").channel("c").data("").finish_message().unwrap_err();
    assert_eq!(e, PrivmsgBuilderError::MissingData);
}
