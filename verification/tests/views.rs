use std::borrow::Cow;
use twitch_message::messages::{
    ClearChat, GlobalUserState, HostMode, HostTarget, Notice, NoticeKind, Part, Privmsg,
    RoomState, UserNotice, UserNoticeId, UserState, UserType, Whisper,
};
use twitch_message::typed_messages::TypedMessageMarker;
use twitch_message::{parse, parse_as, Badge, Color, Emote, IntoStatic};

fn badge<'a>(set_id: &'a str, id: &'a str) -> Badge<'a> {
    Badge {
        set_id: Cow::from(set_id),
        id: Cow::from(id),
    }
}

const POST: &str = "@badge-info=subscriber/8;badges=broadcaster/1,subscriber/6;bits=100;color=#008000;display-name=Museun;emotes=25:0-4;first-msg=1;id=43113387-1686-42d9-9067-3b94eabf6eed;mod=0;returning-chatter=0;room-id=23196011;reply-parent-msg-id=abc;reply-parent-user-id=7;reply-parent-user-login=other;reply-parent-display-name=Other;reply-parent-msg-body=hi\\sthere;tmi-sent-ts=1674286550222;user-id=23196011;user-type=staff :museun!museun@museun.tmi.twitch.tv PRIVMSG #museun :Kappa testing\r\n";

#[test]
fn post_accessors() {
    let post = parse_as::<Privmsg>(POST).unwrap();
    assert_eq!(post.badge_info(), vec![badge("subscriber", "8")]);
    assert_eq!(post.badges(), vec![badge("broadcaster", "1"), badge("subscriber", "6")]);
    assert_eq!(post.bits(), Some(100));
    assert_eq!(post.color(), Some(Color(0, 0x80, 0)));
    assert_eq!(post.display_name(), Some("Museun"));
    assert_eq!(
        post.emotes(),
        vec![Emote { id: Cow::from("25"), name: Cow::from("Kappa"), byte_pos: (0, 5) }]
    );
    assert!(post.first_msg_from_user());
    assert!(!post.returning_chatter());
    assert_eq!(post.msg_id(), Some("43113387-1686-42d9-9067-3b94eabf6eed"));
    assert_eq!(post.room_id(), Some("23196011"));
    assert_eq!(post.reply_parent_msg_id(), Some("abc"));
    assert_eq!(post.reply_parent_user_id(), Some("7"));
    assert_eq!(post.reply_parent_user_login(), Some("other"));
    assert_eq!(post.reply_parent_display_name(), Some("Other"));
    assert_eq!(post.reply_parent_msg_body(), Some("hi there"));
    assert_eq!(post.tmi_sent_ts(), Some("1674286550222"));
    assert_eq!(post.user_id(), Some("23196011"));
    assert_eq!(post.user_type(), UserType::Staff);
    assert!(post.is_from_broadcaster());
    assert!(post.is_from_subscriber());
    assert!(!post.is_from_moderator());
    assert!(!post.is_from_vip());
    assert!(!post.is_from_staff());
    assert!(!post.is_from_turbo());
    assert!(!post.is_from_global_moderator());
    assert!(!post.is_from_admin());
}

#[test]
fn post_without_tags() {
    let post =
        parse_as::<Privmsg>(":museun!museun@museun.tmi.twitch.tv PRIVMSG #museun :hi\r\n").unwrap();
    assert_eq!(post.badges(), Vec::<Badge>::new());
    assert_eq!(post.bits(), None);
    assert_eq!(post.color(), None);
    assert_eq!(post.display_name(), None);
    assert_eq!(post.emotes(), Vec::<Emote>::new());
    assert!(!post.first_msg_from_user());
    assert_eq!(post.user_type(), UserType::Normal);
    assert!(!post.is_from_broadcaster());
}

#[test]
fn actions() {
    let cases = [
        ("\u{1}ACTION waves\u{1}", true, "waves"),
        ("\u{1}ACTION  \t waves  \u{a0}\u{1}", true, "waves"),
        ("\u{1}ACTION\u{1}", true, ""),
        ("\u{1}ACTIONwaves\u{1}", true, "waves"),
        ("\u{1}ACTION waves", false, "\u{1}ACTION waves"),
        ("\u{1}ACTION", false, "\u{1}ACTION"),
        ("ACTION waves\u{1}", false, "ACTION waves\u{1}"),
        ("\u{1}action waves\u{1}", false, "\u{1}action waves\u{1}"),
        (" plain ", false, " plain "),
    ];
    for (data, action, text) in cases {
        assert_eq!(Privmsg::parse_action(Cow::from(data)), (action, Cow::from(text)));
        let line = format!(":a!b@c PRIVMSG #d :{data}\r\n");
        let post = parse_as::<Privmsg>(&line).unwrap();
        assert_eq!(post.is_action(), action);
        assert_eq!(post.data, text);
    }
}

#[test]
fn room_settings() {
    let room = parse_as::<RoomState>(
        "@emote-only=0;followers-only=-1;r9k=1;room-id=23196011;slow=30;subs-only=0 :tmi.twitch.tv ROOMSTATE #museun\r\n",
    )
    .unwrap();
    assert!(!room.emote_only());
    assert_eq!(room.followers_only(), None);
    assert!(room.r9k());
    assert_eq!(room.room_id(), Some("23196011"));
    assert_eq!(room.slow(), Some(30));
    assert!(!room.subs_only());
    assert_eq!(room.channel, "#museun");
}

#[test]
fn user_states() {
    let state = parse_as::<UserState>(
        "@badge-info=;badges=moderator/1;color=;display-name=bot;emote-sets=0,19194;id=x;mod=1;subscriber=0;turbo=1;user-type=global_mod :tmi.twitch.tv USERSTATE #museun\r\n",
    )
    .unwrap();
    assert_eq!(state.badge_info(), Vec::<Badge>::new());
    assert_eq!(state.badges(), vec![badge("moderator", "1")]);
    assert_eq!(state.color(), None);
    assert_eq!(state.display_name(), Some("bot"));
    assert_eq!(state.emote_sets(), vec!["0", "19194"]);
    assert_eq!(state.msg_id(), Some("x"));
    assert!(state.is_moderator());
    assert!(!state.is_subscriber());
    assert!(state.is_turbo());
    assert_eq!(state.user_type(), UserType::GlobalMod);

    let global = parse_as::<GlobalUserState>(
        "@badges=premium/1;color=#008000;display-name=museun;emote-sets=0;turbo=0;user-id=23196011;user-type=admin :tmi.twitch.tv GLOBALUSERSTATE\r\n",
    )
    .unwrap();
    assert_eq!(global.badges(), vec![badge("premium", "1")]);
    assert_eq!(global.badge_info(), Vec::<Badge>::new());
    assert_eq!(global.color(), Some(Color(0, 0x80, 0)));
    assert_eq!(global.display_name(), Some("museun"));
    assert_eq!(global.emote_sets(), vec!["0"]);
    assert!(!global.is_turbo());
    assert_eq!(global.user_id(), Some("23196011"));
    assert_eq!(global.user_type(), UserType::Admin);
    assert_eq!(
        parse_as::<GlobalUserState>(":tmi.twitch.tv GLOBALUSERSTATE\r\n").unwrap().emote_sets(),
        Vec::<&str>::new()
    );
}

#[test]
fn user_types() {
    assert_eq!(UserType::parse("admin"), UserType::Admin);
    assert_eq!(UserType::parse("global_mod"), UserType::GlobalMod);
    assert_eq!(UserType::parse("staff"), UserType::Staff);
    assert_eq!(UserType::parse(""), UserType::Normal);
    assert_eq!(UserType::parse("mod"), UserType::Normal);
    assert_eq!(UserType::default(), UserType::Normal);
}

#[test]
fn events() {
    let event = parse_as::<UserNotice>(
        "@badges=staff/1;color=#008000;display-name=ronni;emotes=25:0-4;id=db25;login=ronni;mod=0;msg-id=resub;msg-param-cumulative-months=6;msg-param-streak-months=2;msg-param-should-share-streak=1;msg-param-sub-plan=Prime;msg-param-sub-plan-name=Prime;room-id=1337;subscriber=1;system-msg=ronni\\shas\\ssubscribed\\sfor\\s6\\smonths!;tmi-sent-ts=1507246572675;turbo=1;user-id=1337;user-type=staff :tmi.twitch.tv USERNOTICE #dallas :Kappa stream\r\n",
    )
    .unwrap();
    assert_eq!(event.msg_id(), Some(UserNoticeId::Resub));
    assert_eq!(event.system_msg(), Some("ronni has subscribed for 6 months!"));
    assert_eq!(event.msg_param_cumulative_months(), Some("6"));
    assert_eq!(event.msg_param_streak_months(), Some("2"));
    assert_eq!(event.msg_param_should_share_streak(), Some("1"));
    assert_eq!(event.msg_param_sub_plan(), Some("Prime"));
    assert_eq!(event.msg_param_sub_plan_name(), Some("Prime"));
    assert_eq!(event.login(), Some("ronni"));
    assert_eq!(event.id(), Some("db25"));
    assert_eq!(event.user_id(), Some("1337"));
    assert_eq!(event.tmi_sent_ts(), Some("1507246572675"));
    assert_eq!(event.display_name(), Some("ronni"));
    assert_eq!(event.color(), Some(Color(0, 0x80, 0)));
    assert_eq!(event.badges(), vec![badge("staff", "1")]);
    assert_eq!(event.badge_info(), Vec::<Badge>::new());
    assert!(!event.is_moderator());
    assert!(event.is_subscriber());
    assert!(event.is_turbo());
    assert_eq!(event.user_type(), UserType::Staff);
    assert_eq!(
        event.emotes(),
        vec![Emote { id: Cow::from("25"), name: Cow::from("Kappa"), byte_pos: (0, 5) }]
    );
    // this one is asked for under a key of its own spelling
    assert_eq!(event.room_id(), None);
    assert_eq!(event.msg_param_viewer_count(), None);

    let raid = parse_as::<UserNotice>(
        "@msg-id=raid;msg-param-displayName=TestChannel;msg-param-login=testchannel;msg-param-viewerCount=15;emotes=25:0-4 :tmi.twitch.tv USERNOTICE #other\r\n",
    )
    .unwrap();
    assert_eq!(raid.msg_id(), Some(UserNoticeId::Raid));
    assert_eq!(raid.msg_param_display_name(), Some("TestChannel"));
    assert_eq!(raid.msg_param_login(), Some("testchannel"));
    assert_eq!(raid.msg_param_viewer_count(), Some("15"));
    assert_eq!(raid.data, None);
    assert_eq!(raid.emotes(), Vec::<Emote>::new());

    let other = parse_as::<UserNotice>(
        "@msg-id=brand_new;msg-param-display-name=Lower :tmi.twitch.tv USERNOTICE #other\r\n",
    )
    .unwrap();
    assert_eq!(other.msg_id(), Some(UserNoticeId::Unknown));
    assert_eq!(other.msg_param_display_name(), Some("Lower"));
    let none = parse_as::<UserNotice>(":tmi.twitch.tv USERNOTICE #other\r\n").unwrap();
    assert_eq!(none.msg_id(), None);
}

#[test]
fn event_ids() {
    for (id, kind) in [
        ("sub", UserNoticeId::Sub),
        ("resub", UserNoticeId::Resub),
        ("subgift", UserNoticeId::Subgift),
        ("submysterygift", UserNoticeId::SubMysteryGift),
        ("giftpaidupgrade", UserNoticeId::GiftPaidUpgrade),
        ("rewardgift", UserNoticeId::RewardGift),
        ("anongiftpaidupgrade", UserNoticeId::AnonGiftPaidUpgrade),
        ("raid", UserNoticeId::Raid),
        ("unraid", UserNoticeId::Unraid),
        ("ritual", UserNoticeId::Ritual),
        ("bitsbadgetier", UserNoticeId::BitsBadgeTier),
        ("", UserNoticeId::Unknown),
        ("SUB", UserNoticeId::Unknown),
    ] {
        assert_eq!(UserNoticeId::parse(id), kind);
    }
    assert_eq!(UserNoticeId::default(), UserNoticeId::Unknown);
}

#[test]
fn notices() {
    let notice = parse_as::<Notice>(
        "@msg-id=tos_ban;target-user-id=42 :tmi.twitch.tv NOTICE #museun :TOS ban.\r\n",
    )
    .unwrap();
    assert_eq!(notice.notice_kind(), NoticeKind::TosBan);
    assert_eq!(notice.target_user_id(), Some("42"));
    let plain = parse_as::<Notice>(":tmi.twitch.tv NOTICE #museun :hello\r\n").unwrap();
    assert_eq!(plain.notice_kind(), NoticeKind::Unknown);
    assert_eq!(plain.target_user_id(), None);
}

#[test]
fn notice_kinds() {
    for (id, kind) in [
        ("already_banned", NoticeKind::AlreadyBanned),
        ("bad_vip_grantee_already_vip", NoticeKind::BadVipGranteeAlreadyVip),
        ("msg_requires_verified_phone_number", NoticeKind::MsgRequiresVerifiedPhoneNumber),
        ("r9k_off", NoticeKind::R9kOff),
        ("slow_on", NoticeKind::SlowOn),
        ("usage_vip", NoticeKind::UsageVip),
        ("usage_vips", NoticeKind::UsageVips),
        ("whisper_restricted_recipient", NoticeKind::WhisperRestrictedRecipient),
        ("", NoticeKind::Unknown),
        ("slow_onn", NoticeKind::Unknown),
        ("Slow_On", NoticeKind::Unknown),
    ] {
        assert_eq!(NoticeKind::parse(id), kind);
    }
    assert_eq!(NoticeKind::default(), NoticeKind::Unknown);
}

#[test]
fn host_modes() {
    assert_eq!(HostTarget::parse_host_mode("- 10"), Some(HostMode::End { viewers: 10 }));
    assert_eq!(HostTarget::parse_host_mode("- 0"), Some(HostMode::End { viewers: 0 }));
    assert_eq!(HostTarget::parse_host_mode("- "), None);
    assert_eq!(HostTarget::parse_host_mode("- x"), None);
    assert_eq!(HostTarget::parse_host_mode("-"), None);
    assert_eq!(
        HostTarget::parse_host_mode("shaken_bot 10"),
        Some(HostMode::Start { channel: (0, 10), viewers: 10 })
    );
    assert_eq!(
        HostTarget::parse_host_mode("é 3"),
        Some(HostMode::Start { channel: (0, 2), viewers: 3 })
    );
    assert_eq!(
        HostTarget::parse_host_mode(" 3"),
        Some(HostMode::Start { channel: (0, 0), viewers: 3 })
    );
    assert_eq!(HostTarget::parse_host_mode("shaken_bot"), None);
    assert_eq!(HostTarget::parse_host_mode("shaken_bot ten"), None);
    assert_eq!(HostTarget::parse_host_mode("shaken_bot 1 2"), None);
    assert_eq!(HostTarget::parse_host_mode(""), None);

    let m = parse(":tmi.twitch.tv HOSTTARGET #museun :nothing\r\n").unwrap().message;
    assert_eq!(m.as_typed_message::<HostTarget>(), None);
    assert_eq!(HostTarget::from_message(m.clone()), Err(m));
}

#[test]
fn removals() {
    let ban = parse_as::<ClearChat>(
        "@ban-duration=600;room-id=1;target-user-id=2;tmi-sent-ts=3 :tmi.twitch.tv CLEARCHAT #museun :shaken_bot\r\n",
    )
    .unwrap();
    assert_eq!(ban.ban_duration(), Some(600));
    assert_eq!(ban.room_id(), Some("1"));
    assert_eq!(ban.target_user_id(), Some("2"));
    assert_eq!(ban.tmi_sent_ts(), Some("3"));
}

#[test]
fn private_messages() {
    let whisper = parse_as::<Whisper>(
        "@badges=staff/1;color=#8A2BE2;display-name=Museun;emotes=25:0-4;message-id=306;thread-id=1_2;turbo=0;user-id=1;user-type= :museun!museun@museun.tmi.twitch.tv WHISPER shaken_bot :Kappa\r\n",
    )
    .unwrap();
    assert_eq!(whisper.badges(), vec![badge("staff", "1")]);
    assert_eq!(whisper.color(), Some(Color(0x8A, 0x2B, 0xE2)));
    assert_eq!(whisper.display_name(), Some("Museun"));
    assert_eq!(whisper.emotes().len(), 1);
    assert_eq!(whisper.msg_id(), Some("306"));
    assert_eq!(whisper.thread_id(), Some("1_2"));
    assert_eq!(whisper.user_id(), Some("1"));
    assert!(!whisper.is_turbo());
    assert_eq!(whisper.user_type(), UserType::Normal);
}

#[test]
fn parting() {
    let part = parse_as::<Part>(":nick!user@host PART #chan\r\n").unwrap();
    assert_eq!(part, Part { user: Cow::from("nick"), channel: Cow::from("#chan") });
    assert!(parse_as::<Part>(":tmi.twitch.tv PART #chan\r\n").is_err());
}

#[test]
fn view_names_and_kinds() {
    assert_eq!(Privmsg::kind(), "Privmsg");
    assert_eq!(HostTarget::kind(), "HostTarget");
    let m = parse("PING :1\r\n").unwrap().message;
    assert!(twitch_message::messages::Ping::is_kind(&m.kind));
    assert!(!twitch_message::messages::Pong::is_kind(&m.kind));
    assert!(!Privmsg::is_kind(&m.kind));
}

#[test]
fn lifting_keeps_every_part() {
    let message = parse(POST).unwrap().message;
    let once = (&message).into_static();
    assert_eq!(once, message);
    let twice = once.clone().into_static();
    assert_eq!(twice, once);

    let post = message.as_typed_message::<Privmsg>().unwrap();
    let once = post.clone().into_static();
    assert_eq!(once, post);
    assert_eq!(once.clone().into_static(), once);

    let union = message.as_enum();
    assert_eq!(union.clone().into_static().into_static(), union);

    assert_eq!("text".into_static(), Cow::from("text"));
    assert!(matches!("text".into_static(), Cow::Owned(_)));
    assert!(matches!(Cow::Borrowed("text").into_static(), Cow::Owned(_)));
    assert!(matches!(message.raw, Cow::Borrowed(_)));
    assert!(matches!((&message).into_static().raw, Cow::Owned(_)));
    assert!(matches!((&message).into_static().data, Some(Cow::Owned(_))));
    assert!((&message).into_static().args.iter().all(|arg| matches!(arg, Cow::Owned(_))));
    assert_eq!("text".into_static().into_static(), "text".into_static());
    assert_eq!((&message.tags).into_static(), message.tags);
    assert_eq!((&message.prefix).into_static(), message.prefix);
    assert_eq!((&message.kind).into_static(), message.kind);
}

#[test]
fn removed_message() {
    let removed = parse_as::<twitch_message::messages::ClearMsg>(
        "@login=foo;room-id=1;target-msg-id=94e6c7ff;tmi-sent-ts=1642720582342 :tmi.twitch.tv CLEARMSG #bar :what a great day\r\n",
    )
    .unwrap();
    assert_eq!(removed.login(), Some("foo"));
    assert_eq!(removed.room_id(), Some("1"));
    assert_eq!(removed.target_msg_id(), Some("94e6c7ff"));
    assert_eq!(removed.tmi_sent_ts(), Some("1642720582342"));
    assert_eq!(removed.message, "what a great day");
}

#[test]
fn event_parameters() {
    let keys = [
        "msg-param-months",
        "msg-param-promo-gift-total",
        "msg-param-promo-name",
        "msg-param-recipient-display-name",
        "msg-param-recipient-id",
        "msg-param-recipient-user-name",
        "msg-param-sender-login",
        "msg-param-sender-name",
        "msg-param-ritual-name",
        "msg-param-threshold",
        "msg-param-gift-months",
        "msg-param-domain",
        "msg-param-trigger-type",
        "msg-param-selected-count",
        "msg-param-total-reward-count",
        "msg-param-trigger-amount",
    ];
    let block: Vec<String> = keys.iter().enumerate().map(|(i, k)| format!("{k}=v{i}")).collect();
    let line = format!("@{} :tmi.twitch.tv USERNOTICE #chan\r\n", block.join(";"));
    let event = parse_as::<UserNotice>(&line).unwrap();
    let got = [
        event.msg_param_months(),
        event.msg_param_promo_gift_total(),
        event.msg_param_promo_name(),
        event.msg_param_recipient_display_name(),
        event.msg_param_recipient_id(),
        event.msg_param_recipient_user_name(),
        event.msg_param_sender_login(),
        event.msg_param_sender_name(),
        event.msg_param_ritual_name(),
        event.msg_param_threshold(),
        event.msg_param_gift_months(),
        event.msg_param_domain(),
        event.msg_param_trigger_type(),
        event.msg_param_selected_count(),
        event.msg_param_total_reward_count(),
        event.msg_param_trigger_amount(),
    ];
    for (i, value) in got.into_iter().enumerate() {
        assert_eq!(value, Some(format!("v{i}").as_str()));
    }
}

#[test]
fn lent_or_owned_message_is_lifted() {
    let message = parse(POST).unwrap().message;
    let from_lent = twitch_message::messages::Message::from(Cow::Borrowed(&message));
    assert_eq!(from_lent, message);
    assert!(matches!(from_lent.raw, Cow::Owned(_)));
    let from_owned = twitch_message::messages::Message::from(Cow::Owned(message.clone()));
    assert_eq!(from_owned, message);
    assert!(matches!(from_owned.raw, Cow::Owned(_)));
}
