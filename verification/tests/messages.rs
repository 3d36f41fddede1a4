use twitch_message::messages::{
    Capability, ClearChat, ClearChatTarget, ClearMsg, GlobalUserState, HostMode, HostTarget,
    IrcReady, Join, Notice, Ping, Pong, Privmsg, Ready, Reconnect, RoomState, TwitchMessage,
    UserNotice, UserState, Whisper,
};
use std::borrow::Cow;
use twitch_message::parse::Parse;
use twitch_message::typed_messages::TypedMessageMarker;
use twitch_message::{parse, parse_as, Tags};

fn typed<'a, T: TypedMessageMarker<'a>>(input: &'a str) -> T {
    match parse_as::<T>(input) {
        Ok(view) => view,
        Err(e) => panic!("{}", e.to_string()),
    }
}

fn raw(input: &str) -> Cow<'_, str> {
    Cow::from(&input[..input.len() - 2])
}

fn raw_and_tags(input: &str) -> (Cow<'_, str>, Tags<'_>) {
    let s = &mut &input[..input.find(' ').unwrap() + 1];
    (raw(input), <Tags as Parse>::parse(s).unwrap())
}

#[test]
fn capability_acknowledged() {
    let input = ":tmi.twitch.tv CAP * ACK :foobar\r\n";
    let raw = raw(input);

    assert_eq!(
        typed::<Capability>(input),
        Capability {
            acknowledged: true,
            kind: Cow::from("foobar"),
            raw,
        }
    );
}

#[test]
fn capability_failed() {
    let input = ":tmi.twitch.tv CAP * NAK :foobar\r\n";
    let raw = raw(input);

    assert_eq!(
        typed::<Capability>(input),
        Capability {
            acknowledged: false,
            kind: Cow::from("foobar"),
            raw,
        }
    );
}

#[test]
fn clear_chat_all() {
    let input = "@room-id=12345678;tmi-sent-ts=1642715695392 :tmi.twitch.tv CLEARCHAT #museun\r\n";

    let (raw, tags) = raw_and_tags(input);
    assert_eq!(
        typed::<ClearChat>(input),
        ClearChat {
            raw,
            tags,
            channel: Cow::from("#museun"),
            target: ClearChatTarget::All
        }
    );
}

#[test]
fn clear_chat() {
    let input = "@room-id=12345678;tmi-sent-ts=1642715695392 :tmi.twitch.tv CLEARCHAT #museun :shaken_bot\r\n";

    let (raw, tags) = raw_and_tags(input);
    assert_eq!(
        typed::<ClearChat>(input),
        ClearChat {
            raw,
            tags,
            channel: Cow::from("#museun"),
            target: ClearChatTarget::User(Cow::from("shaken_bot"))
        }
    );
}

#[test]
fn clear_msg() {
    let input =
        "@room-id=12345678;tmi-sent-ts=1642715695392 :tmi.twitch.tv CLEARMSG #museun :Kappa\r\n";

    let (raw, tags) = raw_and_tags(input);
    assert_eq!(
        typed::<ClearMsg>(input),
        ClearMsg {
            raw,
            tags,
            channel: Cow::from("#museun"),
            message: Cow::from("Kappa")
        }
    );
}

#[test]
fn global_user_state() {
    let input = "@badge-info=;\
        badges=premium/1;\
        color=#008000;\
        display-name=museun;\
        emote-sets=0,19194,300374282,300597048,301337952,460515209,537206155,564265402,592920959,610186276;\
        user-id=23196011;\
        user-type= \
        :tmi.twitch.tv GLOBALUSERSTATE\r\n";

    let (raw, tags) = raw_and_tags(input);
    assert_eq!(
        typed::<GlobalUserState>(input),
        GlobalUserState { raw, tags }
    );
}

#[test]
fn host_target_start() {
    let input = ":tmi.twitch.tv HOSTTARGET #museun :shaken_bot 10\r\n";
    let raw = raw(input);

    assert_eq!(
        typed::<HostTarget>(input),
        HostTarget {
            raw,
            hosting_channel: Cow::from("#museun"),
            host_mode: HostMode::Start {
                channel: (0, "shaken_bot".len()),
                viewers: 10
            }
        }
    );
}

#[test]
fn host_target_end() {
    let input = ":tmi.twitch.tv HOSTTARGET #museun :- 10\r\n";
    let raw = raw(input);

    assert_eq!(
        typed::<HostTarget>(input),
        HostTarget {
            raw,
            hosting_channel: Cow::from("#museun"),
            host_mode: HostMode::End { viewers: 10 }
        }
    );
}

#[test]
fn irc_ready() {
    let input = ":tmi.twitch.tv 001 museun :Welcome, GLHF!\r\n";
    let raw = raw(input);
    assert_eq!(
        typed::<IrcReady>(input),
        IrcReady {
            name: Cow::from("museun"),
            raw,
        }
    );
}

#[test]
fn join_part() {
    let input = ":justinfan1234!justinfan1234@justinfan1234.tmi.twitch.tv JOIN #some_channel\r\n";

    assert_eq!(
        typed::<Join>(input),
        Join {
            channel: Cow::from("#some_channel"),
            user: Cow::from("justinfan1234")
        }
    );
}

#[test]
fn notice() {
    let input =
        "@room-id=12345678;tmi-sent-ts=1642715695392 :tmi.twitch.tv NOTICE #museun :TOS ban.\r\n";

    let (raw, tags) = raw_and_tags(input);
    assert_eq!(
        typed::<Notice>(input),
        Notice {
            raw,
            tags,
            channel: Cow::from("#museun"),
            message: Cow::from("TOS ban.")
        }
    );
}

#[test]
fn action() {
    let input =
        ":test!test@test.tmi.twitch.tv PRIVMSG #testing :\u{1}ACTION @Foo does something.\u{1}";

    assert_eq!(
        typed::<Privmsg>(input),
        Privmsg {
            raw: Cow::from(input),
            tags: Tags::default(),
            channel: Cow::from("#testing"),
            sender: Cow::from("test"),
            data: Cow::from("@Foo does something."),
            action: true,
        }
    );
}

#[test]
fn ready() {
    let input = ":tmi.twitch.tv 376 museun :>\r\n";

    let raw = raw(input);
    assert_eq!(
        typed::<Ready>(input),
        Ready {
            name: Cow::from("museun"),
            raw,
        }
    );
}

#[test]
fn reconnect() {
    let input = ":tmi.twitch.tv RECONNECT\r\n";
    let raw = raw(input);
    assert_eq!(typed::<Reconnect>(input), Reconnect { raw });
}

#[test]
fn room_state() {
    let input = "@emote-only=0;followers-only=-1;r9k=0;room-id=23196011;slow=0;subs-only=0 :tmi.twitch.tv ROOMSTATE #museun\r\n";

    let (raw, tags) = raw_and_tags(input);

    assert_eq!(
        typed::<RoomState>(input),
        RoomState {
            raw,
            tags,
            channel: Cow::from("#museun")
        }
    );
}

#[test]
fn conversion() {
    let inputs = [
"@emote-only=0;followers-only=-1;r9k=0;room-id=23196011;slow=0;subs-only=0 :tmi.twitch.tv ROOMSTATE #museun\r\n",
":tmi.twitch.tv RECONNECT\r\n",
":tmi.twitch.tv 376 museun :>\r\n",
"PONG :1234567890\r\n",
"PING :1234567890\r\n",
":tmi.twitch.tv 001 museun :Welcome, GLHF!\r\n",
":tmi.twitch.tv HOSTTARGET #museun :shaken_bot 10\r\n",
"@room-id=12345678;tmi-sent-ts=1642715695392 :tmi.twitch.tv CLEARCHAT #museun :shaken_bot\r\n",
"@room-id=12345678;tmi-sent-ts=1642715695392 :tmi.twitch.tv CLEARMSG #museun :Kappa\r\n",
":tmi.twitch.tv CAP * ACK :foobar\r\n",
"@emote-only=0;followers-only=-1;r9k=0;room-id=23196011;slow=0;subs-only=0 :tmi.twitch.tv ROOMSTATE #museun\r\n",
":museun!museun@museun.tmi.twitch.tv PRIVMSG #museun :hello world\r\n",
"@room-id=12345678;tmi-sent-ts=1642715695392 :museun!museun@museun.tmi.twitch.tv WHISPER shaken_bot :this is a test\r\n",
"@badge-info=;badges=premium/1;color=#008000;display-name=museun;emote-sets=0,19194,300374282,300597048,301337952,460515209,537206155,564265402,592920959,610186276;user-id=23196011;user-type= :tmi.twitch.tv GLOBALUSERSTATE\r\n"
    ];

    let expected = vec![
        TwitchMessage::RoomState(RoomState {
            tags: Tags::default(),
            raw: Cow::default(),
            channel: Cow::default(),
        }),
        TwitchMessage::Reconnect(Reconnect {
            raw: Cow::default(),
        }),
        TwitchMessage::Ready(Ready {
            name: Cow::default(),
            raw: Cow::default(),
        }),
        TwitchMessage::Pong(Pong {
            token: Cow::default(),
            raw: Cow::default(),
        }),
        TwitchMessage::Ping(Ping {
            token: Cow::default(),
            raw: Cow::default(),
        }),
        TwitchMessage::IrcReady(IrcReady {
            name: Cow::default(),
            raw: Cow::default(),
        }),
        TwitchMessage::HostTarget(HostTarget {
            raw: Cow::default(),
            hosting_channel: Cow::default(),
            host_mode: HostMode::End { viewers: 0 },
        }),
        TwitchMessage::ClearChat(ClearChat {
            raw: Cow::default(),
            channel: Cow::default(),
            target: ClearChatTarget::All,
            tags: Tags::default(),
        }),
        TwitchMessage::ClearMsg(ClearMsg {
            raw: Cow::default(),
            channel: Cow::default(),
            message: Cow::default(),
            tags: Tags::default(),
        }),
        TwitchMessage::Capability(Capability {
            acknowledged: false,
            kind: Cow::default(),
            raw: Cow::default(),
        }),
        TwitchMessage::RoomState(RoomState {
            tags: Tags::default(),
            raw: Cow::default(),
            channel: Cow::default(),
        }),
        TwitchMessage::Privmsg(Privmsg {
            channel: Cow::default(),
            sender: Cow::default(),
            tags: Tags::default(),
            data: Cow::default(),
            action: false,
            raw: Cow::default(),
        }),
        TwitchMessage::Whisper(Whisper {
            raw: Cow::default(),
            from_user: Cow::default(),
            to_user: Cow::default(),
            data: Cow::default(),
            tags: Tags::default(),
        }),
        TwitchMessage::GlobalUserState(GlobalUserState {
            tags: Tags::default(),
            raw: Cow::default(),
        }),
    ];

    let expected = expected.iter().map(std::mem::discriminant);

    for (input, discriminant) in inputs.into_iter().zip(expected) {
        let res = parse(input).unwrap();
        assert!(res.remaining.is_empty());

        let e = res.message.as_enum();
        assert_eq!(std::mem::discriminant(&e), discriminant);

        let e = res.message.into_enum();
        assert_eq!(std::mem::discriminant(&e), discriminant)
    }
}

#[test]
fn user_notice() {
    let inputs = [
            "@badge-info=;badges=staff/1,broadcaster/1,turbo/1;color=#008000;display-name=ronni;emotes=;id=db25007f-7a18-43eb-9379-80131e44d633;login=ronni;mod=0;msg-id=resub;msg-param-cumulative-months=6;msg-param-streak-months=2;msg-param-should-share-streak=1;msg-param-sub-plan=Prime;msg-param-sub-plan-name=Prime;room-id=12345678;subscriber=1;system-msg=ronni\\shas\\ssubscribed\\sfor\\s6\\smonths!;tmi-sent-ts=1507246572675;turbo=1;user-id=87654321;user-type=staff :tmi.twitch.tv USERNOTICE #dallas :Great stream -- keep it up!\r\n",
            "@badge-info=;badges=staff/1,premium/1;color=#0000FF;display-name=TWW2;emotes=;id=e9176cd8-5e22-4684-ad40-ce53c2561c5e;login=tww2;mod=0;msg-id=subgift;msg-param-months=1;msg-param-recipient-display-name=Mr_Woodchuck;msg-param-recipient-id=55554444;msg-param-recipient-name=mr_woodchuck;msg-param-sub-plan-name=House\\sof\\sNyoro~n;msg-param-sub-plan=1000;room-id=19571752;subscriber=0;system-msg=TWW2\\sgifted\\sa\\sTier\\s1\\ssub\\sto\\sMr_Woodchuck!;tmi-sent-ts=1521159445153;turbo=0;user-id=87654321;user-type=staff :tmi.twitch.tv USERNOTICE #forstycup\r\n",
            "@badge-info=;badges=turbo/1;color=#9ACD32;display-name=TestChannel;emotes=;id=3d830f12-795c-447d-af3c-ea05e40fbddb;login=testchannel;mod=0;msg-id=raid;msg-param-displayName=TestChannel;msg-param-login=testchannel;msg-param-viewerCount=15;room-id=33332222;subscriber=0;system-msg=15\\sraiders\\sfrom\\sTestChannel\\shave\\sjoined\\n!;tmi-sent-ts=1507246572675;turbo=1;user-id=123456;user-type= :tmi.twitch.tv USERNOTICE #othertestchannel\r\n",
            "@badge-info=;badges=;color=;display-name=SevenTest1;emotes=30259:0-6;id=37feed0f-b9c7-4c3a-b475-21c6c6d21c3d;login=seventest1;mod=0;msg-id=ritual;msg-param-ritual-name=new_chatter;room-id=87654321;subscriber=0;system-msg=Seventoes\\sis\\snew\\shere!;tmi-sent-ts=1508363903826;turbo=0;user-id=77776666;user-type= :tmi.twitch.tv USERNOTICE #seventoes :HeyGuys\r\n",
    ];

    for (input, (channel, data)) in inputs.into_iter().zip([
        ("#dallas", Some("Great stream -- keep it up!")),
        ("#forstycup", None),
        ("#othertestchannel", None),
        ("#seventoes", Some("HeyGuys")),
    ]) {
        let (raw, tags) = raw_and_tags(input);
        assert_eq!(
            typed::<UserNotice>(input),
            UserNotice {
                raw,
                tags,
                channel: Cow::from(channel),
                data: data.map(Cow::from)
            }
        );
    }
}

#[test]
fn user_state() {
    let input = "@badge-info=;\
        badges=broadcaster/1,premium/1;\
        color=#008000;\
        display-name=museun;\
        emote-sets=0,19194,300374282,300597048,301337952,460515209,537206155,564265402,592920959,610186276;\
        mod=0;\
        subscriber=0;\
        user-type= :tmi.twitch.tv USERSTATE #museun\r\n";

    let (raw, tags) = raw_and_tags(input);
    assert_eq!(
        typed::<UserState>(input),
        UserState {
            raw,
            tags,
            channel: Cow::from("#museun")
        }
    );
}

#[test]
fn priv_msg_privmsg() {
    let input = "@badge-info=;\
        badges=broadcaster/1,premium/1;\
        color=#008000;\
        display-name=museun;\
        emotes=;\
        first-msg=0;\
        flags=;\
        id=43113387-1686-42d9-9067-3b94eabf6eed;\
        mod=0;\
        returning-chatter=0;\
        room-id=23196011;\
        subscriber=0;\
        tmi-sent-ts=1674286550222;\
        turbo=0;\
        user-id=23196011;\
        user-type= :museun!museun@museun.tmi.twitch.tv PRIVMSG #museun :testing\r\n";

    let (raw, tags) = raw_and_tags(input);
    assert_eq!(
        typed::<Privmsg>(input),
        Privmsg {
            raw,
            tags,
            channel: Cow::from("#museun"),
            sender: Cow::from("museun"),
            data: Cow::from("testing"),
            action: false,
        }
    );
}
