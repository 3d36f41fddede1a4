use std::borrow::Cow;
use twitch_message::messages::{Join, Message, MessageKind, Ping, Privmsg};
use twitch_message::parse::Parse;
use twitch_message::typed_messages::TypedMessageMarker;
use twitch_message::{parse, parse_as, parse_many, Error, Prefix};

fn message(input: &str) -> Message<'_> {
    parse(input).unwrap().message
}

fn texts(items: &[&str]) -> Vec<String> {
    items.iter().map(|s| s.to_string()).collect()
}

#[test]
fn ping_line() {
    let result = parse("PING :1234567890\r\n").unwrap();
    assert_eq!(result.remaining, "");
    assert_eq!(result.message.kind, MessageKind::Ping);
    assert_eq!(result.message.raw, "PING :1234567890");
    assert_eq!(result.message.args, Vec::<String>::new());
    assert_eq!(result.message.data.as_deref(), Some("1234567890"));
    let ping = result.message.as_typed_message::<Ping>().unwrap();
    assert_eq!(ping.token, "1234567890");
}

#[test]
fn chat_post_line() {
    let post = parse_as::<Privmsg>(
        ":museun!museun@museun.tmi.twitch.tv PRIVMSG #museun :hello world\r\n",
    )
    .unwrap();
    assert_eq!(post.channel, "#museun");
    assert_eq!(post.sender, "museun");
    assert_eq!(post.data, "hello world");
    assert!(!post.action);
    assert!(!post.is_action());
}

#[test]
fn raw_is_the_line_without_its_terminator() {
    for line in [
        "PING :1234567890",
        ":tmi.twitch.tv RECONNECT",
        "@a=b;c=d :nick!user@host PRIVMSG #chan :some text \\ with : marks",
        "FOO",
        "text with a lone \r in it",
        "text with a lone \n in it",
    ] {
        let input = format!("{line}\r\n");
        let result = parse(&input).unwrap();
        assert_eq!(result.message.raw, line);
        assert!(matches!(result.message.raw, Cow::Borrowed(_)));
        assert_eq!(result.remaining, "");
    }
}

#[test]
fn whole_input_is_the_line_without_a_terminator() {
    let result = parse("PING :1234567890").unwrap();
    assert_eq!(result.message.raw, "PING :1234567890");
    assert_eq!(result.remaining, "");
}

#[test]
fn remaining_points_behind_the_first_line() {
    let mut raw_line =
        ":tmi.twitch.tv PING :12345\r\n:tmi.twitch.tv PING :12346\r\n:tmi.twitch.tv PING :12347\r\n";

    let res = parse(raw_line).unwrap();
    assert_eq!(
        res.remaining,
        ":tmi.twitch.tv PING :12346\r\n:tmi.twitch.tv PING :12347\r\n"
    );
    raw_line = res.remaining;

    let res = parse(raw_line).unwrap();
    assert_eq!(res.remaining, ":tmi.twitch.tv PING :12347\r\n");
    raw_line = res.remaining;

    let res = parse(raw_line).unwrap();
    assert_eq!(res.remaining, "");
}

#[test]
fn three_pings_in_one_buffer() {
    let buffer = "PING :1\r\nPING :2\r\nPING :3\r\n";
    let results = parse_many(buffer);
    assert_eq!(results.len(), 3);
    let tokens: Vec<Cow<'_, str>> = results
        .into_iter()
        .map(|r| r.unwrap().as_typed_message::<Ping>().unwrap().token)
        .collect();
    assert_eq!(tokens, texts(&["1", "2", "3"]));

    let mut rest = buffer;
    for _ in 0..3 {
        rest = parse(rest).unwrap().remaining;
    }
    assert_eq!(rest, "");
}

#[test]
fn parse_many_stops_at_the_end() {
    assert_eq!(parse_many("").len(), 0);
    assert_eq!(parse_many("\r\n").len(), 0);
    assert_eq!(parse_many("\n").len(), 0);
    assert_eq!(parse_many("PING :1").len(), 1);
    assert_eq!(parse_many("PING :1\r\n\r\n").len(), 1);
    assert_eq!(parse_many("PING :1\r\n\n").len(), 1);
}

#[test]
fn parse_many_goes_on_behind_an_error() {
    let results = parse_many("PING :1\r\n\r\nPING :2\r\n");
    assert_eq!(results.len(), 3);
    assert_eq!(results[0].as_ref().unwrap().data.as_deref(), Some("1"));
    assert_eq!(results[1], Err(Error::MalformedMessage));
    assert_eq!(results[2].as_ref().unwrap().data.as_deref(), Some("2"));

    let results = parse_many("70000 x\r\n\r\n\r\nPING :1");
    assert_eq!(results.len(), 4);
    assert_eq!(results[0], Err(Error::InvalidNumeric));
    assert_eq!(results[1], Err(Error::MalformedMessage));
    assert_eq!(results[2], Err(Error::MalformedMessage));
    assert_eq!(results[3].as_ref().unwrap().kind, MessageKind::Ping);

    // a terminator alone at the end is the end, not a line
    assert_eq!(parse_many("70000\r\n\r\n").len(), 1);
    assert_eq!(parse_many("\r\n\r\n").len(), 1);
}

#[test]
fn no_command_is_malformed() {
    assert_eq!(parse("").unwrap_err(), Error::MalformedMessage);
    assert_eq!(parse("\r\nPING :1\r\n").unwrap_err(), Error::MalformedMessage);
    assert_eq!(parse(":tmi.twitch.tv ").unwrap_err(), Error::MalformedMessage);
    assert_eq!(parse("@a=b ").unwrap_err(), Error::MalformedMessage);
    assert_eq!(parse(" PING").unwrap_err(), Error::MalformedMessage);
}

#[test]
fn numeric_replies() {
    assert_eq!(message("372 museun :motd").kind, MessageKind::Numeric(372));
    assert_eq!(message("0").kind, MessageKind::Numeric(0));
    assert_eq!(message("65535").kind, MessageKind::Numeric(65535));
    assert_eq!(message("0000000000000000000042").kind, MessageKind::Numeric(42));
    assert_eq!(parse("65536").unwrap_err(), Error::InvalidNumeric);
    assert_eq!(parse("99999999999999999999999 x").unwrap_err(), Error::InvalidNumeric);
    assert_eq!(message("001 museun :hi").kind, MessageKind::IrcReady);
    assert_eq!(message("376 museun :>").kind, MessageKind::Ready);
}

#[test]
fn commands_of_the_table() {
    for (command, kind) in [
        ("CAP", MessageKind::Capability),
        ("PING", MessageKind::Ping),
        ("PONG", MessageKind::Pong),
        ("001", MessageKind::IrcReady),
        ("376", MessageKind::Ready),
        ("GLOBALUSERSTATE", MessageKind::GlobalUserState),
        ("USERSTATE", MessageKind::UserState),
        ("ROOMSTATE", MessageKind::RoomState),
        ("PRIVMSG", MessageKind::Privmsg),
        ("NOTICE", MessageKind::Notice),
        ("CLEARCHAT", MessageKind::ClearChat),
        ("CLEARMSG", MessageKind::ClearMsg),
        ("HOSTTARGET", MessageKind::HostTarget),
        ("USERNOTICE", MessageKind::UserNotice),
        ("WHISPER", MessageKind::Whisper),
        ("RECONNECT", MessageKind::Reconnect),
        ("JOIN", MessageKind::Join),
        ("PART", MessageKind::Part),
    ] {
        assert_eq!(message(&format!("{command} #chan :text\r\n")).kind, kind);
    }
}

#[test]
fn unknown_commands_are_kept() {
    assert_eq!(message("FOO bar").kind, MessageKind::Unknown(Cow::from("FOO")));
    assert_eq!(message("ping").kind, MessageKind::Unknown(Cow::from("ping")));
    assert_eq!(message("12a").kind, MessageKind::Unknown(Cow::from("12a")));
    assert_eq!(message("+12").kind, MessageKind::Unknown(Cow::from("+12")));
}

#[test]
fn kind_names() {
    assert_eq!(MessageKind::Privmsg.as_str(), "Privmsg");
    assert_eq!(MessageKind::GlobalUserState.as_str(), "GlobalUserState");
    assert_eq!(MessageKind::Numeric(5).as_str(), "Numeric");
    assert_eq!(MessageKind::Unknown(Cow::from("X")).as_str(), "Unknown");
}

#[test]
fn arguments_and_text() {
    let m = message("CMD a b  c :trailing text");
    assert_eq!(m.args, texts(&["a", "b", "c"]));
    assert_eq!(m.data.as_deref(), Some("trailing text"));

    let m = message("CMD solo");
    assert_eq!(m.args, texts(&["solo"]));
    assert_eq!(m.data, None);

    let m = message("CMD two words");
    assert_eq!(m.args, texts(&["two words"]));
    assert_eq!(m.data, None);

    let m = message("CMD");
    assert_eq!(m.args, texts(&[""]));
    assert_eq!(m.data, None);

    let m = message("CMD :only text");
    assert_eq!(m.args, Vec::<String>::new());
    assert_eq!(m.data.as_deref(), Some("only text"));

    let m = message("CMD a :");
    assert_eq!(m.args, texts(&["a"]));
    assert_eq!(m.data, None);

    let m = message("CMD a\tb :x :y");
    assert_eq!(m.args, texts(&["a", "b"]));
    assert_eq!(m.data.as_deref(), Some("x :y"));
}

#[test]
fn prefixes() {
    assert_eq!(message("PING :1").prefix, Prefix::Absent);
    assert_eq!(
        message(":tmi.twitch.tv PING :1").prefix,
        Prefix::Server { host: Cow::from("tmi.twitch.tv") }
    );
    assert_eq!(
        message(":nick!user@host PING :1").prefix,
        Prefix::User {
            name: Cow::from("nick"),
            user: Cow::from("user"),
            host: Cow::from("host"),
        }
    );
    // a `!` without an `@`: nobody is named, but the token is read
    let m = message(":nick!user PING :1");
    assert_eq!(m.prefix, Prefix::Absent);
    assert_eq!(m.kind, MessageKind::Ping);
    // no space behind the prefix: it is the command
    let m = message(":lonely");
    assert_eq!(m.prefix, Prefix::Absent);
    assert_eq!(m.kind, MessageKind::Unknown(Cow::from(":lonely")));
}

#[test]
fn prefix_questions() {
    let user = message(":nick!user@host PING :1").prefix;
    assert!(user.is_user());
    assert!(!user.is_server());
    assert_eq!(user.as_name_str(), Some("nick"));
    let server = message(":tmi.twitch.tv PING :1").prefix;
    assert!(!server.is_user());
    assert!(server.is_server());
    assert_eq!(server.as_name_str(), Some("tmi.twitch.tv"));
    assert!(!Prefix::Absent.is_user());
    assert!(!Prefix::Absent.is_server());
    assert_eq!(Prefix::Absent.as_name_str(), None);
    assert_eq!(Prefix::default(), Prefix::Absent);
}

#[test]
fn tag_block() {
    let m = message("@a=b;c=d\\sx;e;f=;g==h :srv CMD");
    assert_eq!(m.tags.get("a"), Some("b"));
    assert_eq!(m.tags.get("c"), Some("d x"));
    assert_eq!(m.tags.get("e"), None);
    assert_eq!(m.tags.lookup("e"), None);
    assert_eq!(m.tags.get("f"), None);
    assert_eq!(m.tags.lookup("f"), Some(""));
    assert_eq!(m.tags.get("g"), Some("=h"));
    assert_eq!(m.tags.len(), 4);
    assert_eq!(m.prefix, Prefix::Server { host: Cow::from("srv") });
}

#[test]
fn later_tag_wins() {
    let m = message("@a=1;b=2;a=3 CMD");
    assert_eq!(m.tags.get("a"), Some("3"));
    assert_eq!(m.tags.get("b"), Some("2"));
    assert_eq!(m.tags.len(), 2);
}

#[test]
fn tag_block_without_a_space_is_the_command() {
    let m = message("@a=b");
    assert_eq!(m.tags.len(), 0);
    assert_eq!(m.kind, MessageKind::Unknown(Cow::from("@a=b")));
}

#[test]
fn wrong_view_gives_the_message_back() {
    let join = message(":nick!user@host JOIN #chan\r\n");
    assert_eq!(join.kind, MessageKind::Join);

    assert_eq!(join.as_typed_message::<Privmsg>(), None);
    assert_eq!(Privmsg::from_ref(&join), Err(&join));
    assert_eq!(join.clone().into_typed_message::<Privmsg>(), Err(join.clone()));
    assert_eq!(Privmsg::from_message(join.clone()), Err(join.clone()));

    // the right view, but a part is missing
    let bare = message("JOIN #chan\r\n");
    assert_eq!(bare.as_typed_message::<Join>(), None);
    assert_eq!(bare.clone().into_typed_message::<Join>(), Err(bare.clone()));

    // the right parts, but another kind
    let ping = message(":nick!user@host PING #chan :text\r\n");
    assert!(Privmsg::from_ref(&ping).is_ok());
    assert_eq!(ping.as_typed_message::<Privmsg>(), None);
    assert_eq!(ping.clone().into_typed_message::<Privmsg>(), Err(ping));
}

#[test]
fn parse_as_names_both_kinds() {
    let e = parse_as::<Privmsg>(":nick!user@host JOIN #chan\r\n").unwrap_err();
    assert_eq!(e, Error::IncorrectMessageType { expected: "Privmsg", got: "Join" });
    assert_eq!(e.to_string(), "got Join, expected: Privmsg");
    assert_eq!(parse_as::<Privmsg>("").unwrap_err(), Error::MalformedMessage);
    assert_eq!(parse_as::<Privmsg>("70000").unwrap_err(), Error::InvalidNumeric);
}

#[test]
fn error_sentences() {
    assert_eq!(Error::MalformedMessage.to_string(), "the message was malformed");
    assert_eq!(Error::InvalidNumeric.to_string(), "invalid message numeric");
}

#[test]
fn consuming_and_borrowing_agree() {
    for input in [
        "PING :1234567890\r\n",
        ":tmi.twitch.tv 376 museun :>\r\n",
        ":museun!museun@museun.tmi.twitch.tv PRIVMSG #museun :hello world\r\n",
        "@room-id=1 :tmi.twitch.tv CLEARCHAT #museun :shaken_bot\r\n",
        ":tmi.twitch.tv HOSTTARGET #museun :shaken_bot 10\r\n",
        ":tmi.twitch.tv FOO #museun\r\n",
        "PRIVMSG #museun :no prefix\r\n",
    ] {
        let m = message(input);
        assert_eq!(m.as_enum(), m.clone().into_enum());
    }
}

#[test]
fn parsed_text_is_borrowed_from_the_line() {
    let line = String::from("@a=b;c=d\\se :nick!user@host PRIVMSG #chan extra :some text\r\nrest");
    let result = parse(&line).unwrap();
    assert_eq!(result.remaining, "rest");
    let within = |piece: &str| {
        let start = line.as_ptr() as usize;
        let at = piece.as_ptr() as usize;
        start <= at && at + piece.len() <= start + line.len()
    };
    assert!(within(result.remaining));
    let m = result.message;
    assert!(matches!(m.raw, Cow::Borrowed(piece) if within(piece)));
    assert!(matches!(&m.prefix, Prefix::User {
        name: Cow::Borrowed(name),
        user: Cow::Borrowed(user),
        host: Cow::Borrowed(host),
    } if within(name) && within(user) && within(host)));
    assert_eq!(m.args.len(), 2);
    for arg in &m.args {
        assert!(matches!(arg, Cow::Borrowed(piece) if within(piece)));
    }
    assert!(matches!(m.data, Some(Cow::Borrowed(piece)) if within(piece)));
    // a value without an escape is a piece of the line, one with an escape is not
    let pairs = m.tags.pairs();
    assert_eq!(pairs.len(), 2);
    for (key, value) in &pairs {
        assert!(matches!(key, Cow::Borrowed(piece) if within(piece)));
        if key == "a" {
            assert!(matches!(value, Cow::Borrowed(piece) if within(piece)));
        } else {
            assert!(matches!(value, Cow::Owned(text) if text == "d e"));
        }
    }
    // a view that takes the message over takes its pieces over
    let post = m.clone().as_typed_message::<Privmsg>().unwrap();
    assert!(matches!(post.channel, Cow::Borrowed(piece) if within(piece)));
    assert!(matches!(post.data, Cow::Borrowed(piece) if within(piece)));
    let post = Privmsg::from_message(m).unwrap();
    assert!(matches!(post.sender, Cow::Borrowed(piece) if within(piece)));
}

#[test]
fn cursor_moves_past_what_was_read() {
    let mut input = "@a=b :nick!user@host PRIVMSG #chan :text";
    let tags = <twitch_message::Tags as Parse>::parse(&mut input).unwrap();
    assert_eq!(tags.get("a"), Some("b"));
    assert_eq!(input, ":nick!user@host PRIVMSG #chan :text");
    let prefix = <Prefix as Parse>::parse(&mut input);
    assert!(prefix.is_user());
    assert_eq!(input, "PRIVMSG #chan :text");
    let kind = <MessageKind as Parse>::parse(&mut input).unwrap();
    assert_eq!(kind, MessageKind::Privmsg);
    assert_eq!(input, "#chan :text");

    let mut input = "PING :1";
    let message = <Message as Parse>::parse(&mut input).unwrap();
    assert_eq!(message.kind, MessageKind::Ping);
    assert_eq!(input, "");

    // what is no tag block, and no prefix, is left where it is
    let mut input = "PING :1";
    assert_eq!(<twitch_message::Tags as Parse>::parse(&mut input), None);
    assert_eq!(<Prefix as Parse>::parse(&mut input), Prefix::Absent);
    assert_eq!(input, "PING :1");

    // reading stops behind a command that is an error
    let mut input = "70000 rest of it";
    assert_eq!(<Message as Parse>::parse(&mut input), Err(Error::InvalidNumeric));
    assert_eq!(input, "rest of it");
}

#[test]
fn messages_one_at_a_time() {
    let buffer = "PING :1\r\nPING :2\r\n\r\nPING :3\r\n";
    let mut lines = twitch_message::ParseMany::new(buffer);
    assert_eq!(lines.rest(), buffer);
    let first = lines.next().unwrap().unwrap();
    assert_eq!(first.data.as_deref(), Some("1"));
    assert_eq!(lines.rest(), "PING :2\r\n\r\nPING :3\r\n");
    let second = lines.next().unwrap().unwrap();
    assert_eq!(second.data.as_deref(), Some("2"));
    assert_eq!(lines.rest(), "\r\nPING :3\r\n");
    // the empty line is an error, and is left behind like any other line
    assert_eq!(lines.next(), Some(Err(Error::MalformedMessage)));
    assert_eq!(lines.rest(), "PING :3\r\n");
    let third = lines.next().unwrap().unwrap();
    assert_eq!(third.data.as_deref(), Some("3"));
    assert_eq!(lines.rest(), "");
    assert_eq!(lines.next(), None);
    assert_eq!(lines.rest(), "");

    // no line is looked at twice: every call moves on, so the lines run out
    let mut lines = twitch_message::ParseMany::new("\r\n\r\n70000\r\nx");
    let mut seen = 0;
    while let Some(result) = lines.next() {
        seen += 1;
        assert!(seen <= 4);
        assert_eq!(result.is_ok(), seen == 4);
    }
    assert_eq!(seen, 4);

    let mut lines = twitch_message::ParseMany::new("PING :1\r\n\r\n");
    assert!(lines.next().is_some());
    assert_eq!(lines.rest(), "\r\n");
    assert_eq!(lines.next(), None);
    assert_eq!(lines.next(), None);
    assert_eq!(lines.rest(), "\r\n");
}
