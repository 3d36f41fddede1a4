use std::borrow::Cow;
use twitch_message::encode::{self, Capability, Encodable, Encode, Format, Formattable};
use twitch_message::messages::{Ping, Pong, Privmsg, Whisper};
use twitch_message::parse::Parse;
use twitch_message::{Tags, parse_as};

fn line(input: &str) -> Cow<'_, str> {
    Cow::from(&input[..input.len() - 2])
}

fn line_and_tags(input: &str) -> (Cow<'_, str>, Tags<'_>) {
    let s = &mut &input[..input.find(' ').unwrap() + 1];
    (line(input), <Tags as Parse>::parse(s).unwrap())
}

#[test]
fn join() {
    let mut out = String::new();
    let join = encode::join("museun");
    join.format(&mut out);
    assert_eq!(out, "JOIN #museun\r\n");
}

#[test]
fn join_std() {
    let mut out = vec![];
    let join = encode::join("museun");
    join.encode(&mut out);
    assert_eq!(out, b"JOIN #museun\r\n");
}

#[test]
fn part_part() {
    let mut out = String::new();
    let part = encode::part("museun");
    part.format(&mut out);
    assert_eq!(out, "PART #museun\r\n");
}

#[test]
fn part_display() {
    let raw = encode::part("museun");
    assert_eq!(raw.to_string(), "PART #museun\r\n");
}

#[test]
fn part_std() {
    let mut out = vec![];
    let part = encode::part("museun");
    part.encode(&mut out);
    assert_eq!(out, b"PART #museun\r\n");
}

#[test]
fn ping_ping() {
    let mut out = String::new();
    let ping = encode::ping("1234567890");
    ping.format(&mut out);
    assert_eq!(out, "PING 1234567890\r\n");

    let input = "PING :1234567890\r\n";
    assert_eq!(
        parse_as::<Ping>(input).unwrap(),
        Ping {
            token: Cow::from("1234567890"),
            raw: line(input),
        }
    );
}

#[test]
fn ping_std() {
    let mut out = vec![];
    let ping = encode::ping("1234567890");
    ping.encode(&mut out);
    assert_eq!(out, b"PING 1234567890\r\n");
}

#[test]
fn pong_pong() {
    let mut out = String::new();
    let pong = encode::pong("1234567890");
    pong.format(&mut out);
    assert_eq!(out, "PONG :1234567890\r\n");

    let input = "PONG :1234567890\r\n";
    assert_eq!(
        parse_as::<Pong>(input).unwrap(),
        Pong {
            token: Cow::from("1234567890"),
            raw: line(input),
        }
    );
}

#[test]
fn pong_std() {
    let mut out = vec![];
    let pong = encode::pong("1234567890");
    pong.encode(&mut out);
    assert_eq!(out, b"PONG :1234567890\r\n");
}

#[test]
fn privmsg_privmsg() {
    let mut out = String::new();
    let privmsg = encode::privmsg("test", "hello, world");
    privmsg.format(&mut out);
    assert_eq!(out, "PRIVMSG #test :hello, world\r\n");

    let input = "@badge-info=;\
        badges=broadcaster/1,premium/1;\
        color=#008000;\
        display-name=museun;\
        emotes=;\
        first-msg=0;\
        flags=;\
        id=43113387-1686-42d9-9067-3b94eabf6eed;\
        mod=0;\
        returning-chatter=0;\
        room-id=23196011;\
        subscriber=0;\
        tmi-sent-ts=1674286550222;\
        turbo=0;\
        user-id=23196011;\
        user-type= :museun!museun@museun.tmi.twitch.tv PRIVMSG #museun :testing\r\n";

    let (raw, tags) = line_and_tags(input);
    assert_eq!(
        parse_as::<Privmsg>(input).unwrap(),
        Privmsg {
            raw,
            tags,
            channel: Cow::from("#museun"),
            sender: Cow::from("museun"),
            data: Cow::from("testing"),
            action: false,
        }
    );
}

#[test]
fn privmsg_std() {
    let mut out = vec![];
    let privmsg = encode::privmsg("test", "hello, world");
    privmsg.encode(&mut out);
    assert_eq!(out, b"PRIVMSG #test :hello, world\r\n");
}

#[test]
fn reply() {
    let mut out = String::new();
    let reply = encode::reply("123456", "test", "Kappa");
    reply.format(&mut out);
    assert_eq!(out, "@reply-parent-msg-id=123456 PRIVMSG #test :Kappa\r\n");
}

#[test]
fn reply_std() {
    let mut out = vec![];
    let reply = encode::reply("123456", "test", "Kappa");
    reply.encode(&mut out);
    assert_eq!(out, b"@reply-parent-msg-id=123456 PRIVMSG #test :Kappa\r\n");
}

#[test]
fn quit() {
    let mut out = String::new();
    let quit = encode::quit("leaving this server");
    quit.format(&mut out);
    assert_eq!(out, "QUIT :leaving this server\r\n");
}

#[test]
fn quit_display() {
    let raw = encode::quit("leaving this server");
    assert_eq!(raw.to_string(), "QUIT :leaving this server\r\n");
}

#[test]
fn quit_std() {
    let mut out = vec![];
    let quit = encode::quit("leaving this server");
    quit.encode(&mut out);
    assert_eq!(out, b"QUIT :leaving this server\r\n");
}

#[test]
fn raw() {
    let mut out = String::new();
    let raw = encode::raw("hello world");
    raw.format(&mut out);
    assert_eq!(out, "hello world\r\n");
}

#[test]
fn raw_std() {
    let mut out = vec![];
    let raw = encode::raw("hello world");
    raw.encode(&mut out);
    assert_eq!(out, b"hello world\r\n");
}

#[test]
fn register() {
    let mut out = String::new();
    let register = encode::register("test", "password", [Capability::Tags]);
    register.format(&mut out);
    assert_eq!(
        out,
        "CAP REQ twitch.tv/tags\r\nPASS password\r\nNICK test\r\n"
    );
}

#[test]
fn register_std() {
    let mut out = vec![];
    let register = encode::register("test", "password", [Capability::Tags]);
    register.encode(&mut out);
    assert_eq!(
        out,
        b"CAP REQ twitch.tv/tags\r\nPASS password\r\nNICK test\r\n"
    );
}

#[test]
fn whisper_whisper() {
    let mut out = String::new();
    let whisper = encode::whisper("museun", "hello, world");
    whisper.format(&mut out);
    assert_eq!(out, "PRIVMSG jtv :/w museun hello, world\r\n");

    let input =
        "@room-id=12345678;tmi-sent-ts=1642715695392 :museun!museun@museun.tmi.twitch.tv WHISPER shaken_bot :this is a test\r\n";

    let (raw, tags) = line_and_tags(input);

    assert_eq!(
        parse_as::<Whisper>(input).unwrap(),
        Whisper {
            raw,
            tags,
            to_user: Cow::from("museun"),
            from_user: Cow::from("shaken_bot"),
            data: Cow::from("this is a test")
        }
    );
}

#[test]
fn whisper_display() {
    let raw = encode::whisper("museun", "hello, world");
    assert_eq!(raw.to_string(), "PRIVMSG jtv :/w museun hello, world\r\n");
}

#[test]
fn whisper_std() {
    let mut out = vec![];
    let whisper = encode::whisper("museun", "hello, world");
    whisper.encode(&mut out);
    assert_eq!(out, b"PRIVMSG jtv :/w museun hello, world\r\n");
}

#[test]
fn sinks_take_messages() {
    let mut buf = String::new();
    encode::privmsg("museun", "Kappa").format(&mut buf);
    buf.format_msg(encode::privmsg("museun", "VoHiYo"));
    assert_eq!(buf, "PRIVMSG #museun :Kappa\r\nPRIVMSG #museun :VoHiYo\r\n");

    let mut bytes = Vec::new();
    bytes.encode_msg(encode::ping("a"));
    bytes.encode_msg(encode::raw("ünïcödé"));
    assert_eq!(bytes, "PING a\r\nünïcödé\r\n".as_bytes());
}

#[test]
fn octothorpe_is_added_once() {
    assert_eq!(encode::octo("museun"), "#");
    assert_eq!(encode::octo("#museun"), "");
    assert_eq!(encode::octo(""), "#");
    assert_eq!(encode::join("#museun").to_string(), "JOIN #museun\r\n");
    assert_eq!(encode::part("#museun").to_string(), "PART #museun\r\n");
    assert_eq!(encode::privmsg("#museun", "hi").to_string(), "PRIVMSG #museun :hi\r\n");
}

#[test]
fn capabilities() {
    assert_eq!(Capability::Commands.as_str(), "twitch.tv/commands");
    assert_eq!(Capability::Membership.as_str(), "twitch.tv/membership");
    assert_eq!(Capability::Tags.as_str(), "twitch.tv/tags");
    assert_eq!(
        encode::ALL_CAPABILITIES,
        [Capability::Commands, Capability::Membership, Capability::Tags]
    );
    assert_eq!(
        encode::register("name", "pass", encode::ALL_CAPABILITIES).to_string(),
        "CAP REQ twitch.tv/commands\r\nCAP REQ twitch.tv/membership\r\nCAP REQ twitch.tv/tags\r\nPASS pass\r\nNICK name\r\n"
    );
    assert_eq!(encode::register("name", "pass", []).to_string(), "PASS pass\r\nNICK name\r\n");
}

#[test]
fn anonymous_login() {
    let (name, pass) = twitch_message::ANONYMOUS_LOGIN;
    assert_eq!(
        encode::register(name, pass, [Capability::Tags]).to_string(),
        "CAP REQ twitch.tv/tags\r\nPASS justinfan1234\r\nNICK justinfan1234\r\n"
    );
    assert_eq!(twitch_message::TWITCH_IRC_ADDRESS, "irc.chat.twitch.tv:6667");
    assert_eq!(twitch_message::TWITCH_TLS_DOMAIN, "irc.chat.twitch.tv");
}
