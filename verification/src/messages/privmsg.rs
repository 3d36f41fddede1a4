//! Chat posts.
use std::borrow::Cow;
use vstd::pervasive::unreached;
use vstd::prelude::*;
use vstd::string::{StrSliceExecFns, StringExecFns};
use crate::badges::{badge_models, has_badge, tag_badges, Badge};
use crate::builders::{PrivmsgBuilder, PrivmsgBuilderModel};
use crate::color::Color;
use crate::emotes::{emote_models, tag_emotes, Emote};
use crate::message::{Message, MessageModel};
use crate::message_kind::{KindModel, MessageKind};
use crate::messages::user_type::{tag_user_type, UserType};
use crate::prefix::Prefix;
use crate::tags::{tag_color, tag_flag, tag_number, tag_value, Tags};
use crate::text::{as_str, chars_of, copy_text, lift_text, opt_str, str_trim, trim};
use crate::typed_messages::{Sealed, TypedMessageMarker};

verus! {

/// `PRIVMSG`: a user posts a message to a channel.
#[derive(Debug, PartialEq, Eq)]
pub struct Privmsg<'a> {
    /// The channel that the message was posted to, with its `#`.
    pub channel: Cow<'a, str>,
    /// The author of the message.
    pub sender: Cow<'a, str>,
    /// Metadata attached to the message.
    pub tags: Tags<'a>,
    /// The text of the message.
    pub data: Cow<'a, str>,
    /// Whether the message was posted as an action (`/me`).
    pub action: bool,
    /// The line itself.
    pub raw: Cow<'a, str>,
}

/// What the view holds, as plain text.
pub struct PrivmsgModel {
    pub channel: Seq<char>,
    pub sender: Seq<char>,
    pub tags: Map<Seq<char>, Seq<char>>,
    pub data: Seq<char>,
    pub action: bool,
    pub raw: Seq<char>,
}

impl<'a> View for Privmsg<'a> {
    type V = PrivmsgModel;

    open spec fn view(&self) -> PrivmsgModel {
        PrivmsgModel {
            channel: self.channel@,
            sender: self.sender@,
            tags: self.tags@,
            data: self.data@,
            action: self.action,
            raw: self.raw@,
        }
    }
}

/// What stands before the text of an action.
pub open spec fn action_mark() -> Seq<char> {
    seq!['\u{1}', 'A', 'C', 'T', 'I', 'O', 'N']
}

/// The text of the action that `data` holds: what stands between the mark at
/// its beginning and the `\u{1}` at its end, without the whitespace around it.
/// `None` where `data` is no action.
pub open spec fn action_of(data: Seq<char>) -> Option<Seq<char>> {
    if data.len() >= 8 && data.take(7) == action_mark() && data.last() == '\u{1}' {
        Some(trim(data.subrange(7, data.len() - 1)))
    } else {
        None
    }
}

/// The text that a post shows.
pub open spec fn shown_text(data: Seq<char>) -> Seq<char> {
    match action_of(data) {
        Some(text) => text,
        None => data,
    }
}

impl<'a> Clone for Privmsg<'a> {
    fn clone(&self) -> (r: Privmsg<'a>)
        ensures
            r@ == self@,
    {
        Privmsg {
            channel: copy_text(&self.channel),
            sender: copy_text(&self.sender),
            tags: self.tags.clone(),
            data: copy_text(&self.data),
            action: self.action,
            raw: copy_text(&self.raw),
        }
    }
}

/// The text of the action that `data` holds, as a piece of `data`.
fn action_in<'b>(data: &'b str) -> (r: Option<&'b str>)
    ensures
        opt_str(r) == action_of(data@),
{
    let chars = chars_of(data);
    let s = chars.as_slice();
    let n: usize = s.len();
    if n >= 8 && s[0] == '\u{1}' && s[1] == 'A' && s[2] == 'C' && s[3] == 'T' && s[4] == 'I'
        && s[5] == 'O' && s[6] == 'N' && s[n - 1] == '\u{1}' {
        assert(s@.take(7) =~= action_mark());
        Some(str_trim(data.substring_char(7, n - 1)))
    } else {
        proof {
            if n >= 8 && s@.take(7) == action_mark() {
                assert(s@.take(7)[0] == s@[0]);
                assert(s@.take(7)[1] == s@[1]);
                assert(s@.take(7)[2] == s@[2]);
                assert(s@.take(7)[3] == s@[3]);
                assert(s@.take(7)[4] == s@[4]);
                assert(s@.take(7)[5] == s@[5]);
                assert(s@.take(7)[6] == s@[6]);
            }
        }
        None
    }
}

impl<'a> Privmsg<'a> {
    /// Every text of this view is a text of its own: nothing is borrowed.
    pub open spec fn is_owned(&self) -> bool {
        self.channel is Owned
            && self.sender is Owned
            && self.tags.is_owned()
            && self.data is Owned
            && self.raw is Owned
    }

    /// This view with text of its own, which no longer borrows from the
    /// line that it was parsed from.
    pub fn lifted(self) -> (r: Privmsg<'static>)
        ensures
            r@ == self@,
            r.is_owned(),
    {
        Privmsg {
            channel: lift_text(self.channel),
            sender: lift_text(self.sender),
            tags: self.tags.lifted(),
            data: lift_text(self.data),
            action: self.action,
            raw: lift_text(self.raw),
        }
    }

    /// Whether `message` has every part that this view needs.
    pub fn fits(message: &Message<'a>) -> (r: bool)
        ensures
            r == (Self::narrowed(message@) is Some),
    {
        assert(message@.args.len() == message.args@.len());
        message.prefix.is_user() && message.data.is_some() && message.args.len() > 0
    }

    /// Tells an action from a plain post, and takes the text out of an
    /// action. The text of an action that was borrowed is a piece of it.
    pub fn parse_action(data: Cow<'a, str>) -> (r: (bool, Cow<'a, str>))
        ensures
            r.0 == (action_of(data@) is Some),
            r.1@ == shown_text(data@),
            data is Borrowed ==> r.1 is Borrowed,
    {
        match data {
            Cow::Borrowed(piece) => match action_in(piece) {
                Some(text) => (true, Cow::Borrowed(text)),
                None => (false, Cow::Borrowed(piece)),
            },
            Cow::Owned(own) => {
                let found = match action_in(own.as_str()) {
                    Some(text) => Some(String::from_str(text)),
                    None => None,
                };
                match found {
                    Some(text) => (true, Cow::Owned(text)),
                    None => (false, Cow::Owned(own)),
                }
            },
        }
    }

    /// Whether the message was posted as an action.
    pub fn is_action(&self) -> (r: bool)
        ensures
            r == self.action,
    {
        self.action
    }

    /// Metadata of the badges, such as the number of months of a
    /// subscription.
    pub fn badge_info(&self) -> (r: Vec<Badge<'_>>)
        ensures
            badge_models(r@) == tag_badges(self.tags@, "badge-info"@),
    {
        Badge::from_tag(&self.tags, "badge-info")
    }

    /// The badges of the user in the channel.
    pub fn badges(&self) -> (r: Vec<Badge<'_>>)
        ensures
            badge_models(r@) == tag_badges(self.tags@, "badges"@),
    {
        Badge::from_tags(&self.tags)
    }

    /// The emotes in the text.
    pub fn emotes(&self) -> (r: Vec<Emote<'_>>)
        ensures
            emote_models(r@) == tag_emotes(self.tags@, self.data@),
    {
        Emote::from_tags(&self.tags, as_str(&self.data))
    }

    /// How many bits the user cheered with the message.
    pub fn bits(&self) -> (r: Option<usize>)
        ensures
            r is Some <==> tag_number(self.tags@, "bits"@) is Some,
            r matches Some(n) ==> tag_number(self.tags@, "bits"@) == Some(n as nat),
    {
        self.tags.number("bits")
    }

    /// The colour of the name of the user.
    pub fn color(&self) -> (r: Option<Color>)
        ensures
            r == tag_color(self.tags@),
    {
        self.tags.color()
    }

    /// The name of the user as it is shown.
    pub fn display_name(&self) -> (r: Option<&str>)
        ensures
            opt_str(r) == tag_value(self.tags@, "display-name"@),
    {
        self.tags.get("display-name")
    }

    /// Whether the user has posted in the channel before.
    pub fn returning_chatter(&self) -> (r: bool)
        ensures
            r == tag_flag(self.tags@, "returning-chatter"@),
    {
        self.tags.bool("returning-chatter")
    }

    /// Whether this is the first message of the user in the channel, ever.
    pub fn first_msg_from_user(&self) -> (r: bool)
        ensures
            r == tag_flag(self.tags@, "first-msg"@),
    {
        self.tags.bool("first-msg")
    }

    /// The time of the post, as a UNIX timestamp.
    pub fn tmi_sent_ts(&self) -> (r: Option<&str>)
        ensures
            opt_str(r) == tag_value(self.tags@, "tmi-sent-ts"@),
    {
        self.tags.get("tmi-sent-ts")
    }

    /// The id of the message.
    pub fn msg_id(&self) -> (r: Option<&str>)
        ensures
            opt_str(r) == tag_value(self.tags@, "id"@),
    {
        self.tags.get("id")
    }

    /// The id of the channel.
    pub fn room_id(&self) -> (r: Option<&str>)
        ensures
            opt_str(r) == tag_value(self.tags@, "room-id"@),
    {
        self.tags.get("room-id")
    }

    /// The id of the message that this one answers.
    pub fn reply_parent_msg_id(&self) -> (r: Option<&str>)
        ensures
            opt_str(r) == tag_value(self.tags@, "reply-parent-msg-id"@),
    {
        self.tags.get("reply-parent-msg-id")
    }

    /// The id of the user whose message this one answers.
    pub fn reply_parent_user_id(&self) -> (r: Option<&str>)
        ensures
            opt_str(r) == tag_value(self.tags@, "reply-parent-user-id"@),
    {
        self.tags.get("reply-parent-user-id")
    }

    /// The login name of the user whose message this one answers.
    pub fn reply_parent_user_login(&self) -> (r: Option<&str>)
        ensures
            opt_str(r) == tag_value(self.tags@, "reply-parent-user-login"@),
    {
        self.tags.get("reply-parent-user-login")
    }

    /// The name, as it is shown, of the user whose message this one answers.
    pub fn reply_parent_display_name(&self) -> (r: Option<&str>)
        ensures
            opt_str(r) == tag_value(self.tags@, "reply-parent-display-name"@),
    {
        self.tags.get("reply-parent-display-name")
    }

    /// The text of the message that this one answers.
    pub fn reply_parent_msg_body(&self) -> (r: Option<&str>)
        ensures
            opt_str(r) == tag_value(self.tags@, "reply-parent-msg-body"@),
    {
        self.tags.get("reply-parent-msg-body")
    }

    /// The id of the user.
    pub fn user_id(&self) -> (r: Option<&str>)
        ensures
            opt_str(r) == tag_value(self.tags@, "user-id"@),
    {
        self.tags.get("user-id")
    }

    /// The type of the user.
    pub fn user_type(&self) -> (r: UserType)
        ensures
            r == tag_user_type(self.tags@),
    {
        UserType::from_tags(&self.tags)
    }

    /// The message is from the owner of the channel.
    pub fn is_from_broadcaster(&self) -> (r: bool)
        ensures
            r == has_badge(tag_badges(self.tags@, "badges"@), "broadcaster"@),
    {
        let badges = self.badges();
        Badge::any_of_set(&badges, "broadcaster")
    }

    /// The message is from a moderator of the channel.
    pub fn is_from_moderator(&self) -> (r: bool)
        ensures
            r == has_badge(tag_badges(self.tags@, "badges"@), "moderator"@),
    {
        let badges = self.badges();
        Badge::any_of_set(&badges, "moderator")
    }

    /// The message is from a VIP of the channel.
    pub fn is_from_vip(&self) -> (r: bool)
        ensures
            r == has_badge(tag_badges(self.tags@, "badges"@), "vip"@),
    {
        let badges = self.badges();
        Badge::any_of_set(&badges, "vip")
    }

    /// The message is from a subscriber of the channel.
    pub fn is_from_subscriber(&self) -> (r: bool)
        ensures
            r == has_badge(tag_badges(self.tags@, "badges"@), "subscriber"@),
    {
        let badges = self.badges();
        Badge::any_of_set(&badges, "subscriber")
    }

    /// The message is from an employee of the site.
    pub fn is_from_staff(&self) -> (r: bool)
        ensures
            r == has_badge(tag_badges(self.tags@, "badges"@), "staff"@),
    {
        let badges = self.badges();
        Badge::any_of_set(&badges, "staff")
    }

    /// The message is from a user who has Turbo.
    pub fn is_from_turbo(&self) -> (r: bool)
        ensures
            r == has_badge(tag_badges(self.tags@, "badges"@), "turbo"@),
    {
        let badges = self.badges();
        Badge::any_of_set(&badges, "turbo")
    }

    /// The message is from a moderator of the whole site.
    pub fn is_from_global_moderator(&self) -> (r: bool)
        ensures
            r == has_badge(tag_badges(self.tags@, "badges"@), "global_mod"@),
    {
        let badges = self.badges();
        Badge::any_of_set(&badges, "global_mod")
    }

    /// The message is from an administrator of the site.
    pub fn is_from_admin(&self) -> (r: bool)
        ensures
            r == has_badge(tag_badges(self.tags@, "badges"@), "admin"@),
    {
        let badges = self.badges();
        Badge::any_of_set(&badges, "admin")
    }

    /// A builder of a chat post, for tests and the like.
    pub fn builder() -> (r: PrivmsgBuilder)
        ensures
            r@ == (PrivmsgBuilderModel { tags: None, sender: None, channel: None, data: None }),
    {
        PrivmsgBuilder::new()
    }
}

impl<'a> Sealed for Privmsg<'a> {

}

impl<'a> TypedMessageMarker<'a> for Privmsg<'a> {
    open spec fn accepts(kind: KindModel) -> bool {
        kind is Privmsg
    }

    open spec fn narrowed(message: MessageModel) -> Option<PrivmsgModel> {
        if message.prefix is User && message.data is Some && message.args.len() > 0 {
            Some(
                PrivmsgModel {
                    channel: message.args[0],
                    sender: message.prefix->name,
                    tags: message.tags,
                    data: shown_text(message.data->0),
                    action: action_of(message.data->0) is Some,
                    raw: message.raw,
                },
            )
        } else {
            None
        }
    }

    open spec fn is_borrowed(&self) -> bool {
        self.channel is Borrowed
            && self.sender is Borrowed
            && self.data is Borrowed
            && self.raw is Borrowed
    }

    open spec fn view_name() -> Seq<char> {
        "Privmsg"@
    }

    fn is_kind(kind: &MessageKind<'_>) -> (r: bool) {
        match kind {
            MessageKind::Privmsg => true,
            _ => false,
        }
    }

    fn kind() -> (r: &'static str) {
        "Privmsg"
    }

    fn from_message(message: Message<'a>) -> (r: Result<Privmsg<'a>, Message<'a>>) {
        if !Privmsg::fits(&message) {
            return Err(message);
        }
        let Message { raw, tags, prefix, mut args, data, .. } = message;
        let (action, data) = Privmsg::parse_action(data.unwrap());
        Ok(
            Privmsg {
                channel: args.remove(0),
                sender: match prefix {
                    Prefix::User { name, .. } => name,
                    _ => unreached(),
                },
                tags,
                data,
                action,
                raw,
            },
        )
    }

    fn from_ref<'b>(message: &'b Message<'a>) -> (r: Result<Privmsg<'a>, &'b Message<'a>>) {
        if !Privmsg::fits(message) {
            return Err(message);
        }
        let text = match &message.data {
            Some(text) => copy_text(text),
            None => unreached(),
        };
        let (action, data) = Privmsg::parse_action(text);
        Ok(
            Privmsg {
                channel: copy_text(&message.args[0]),
                sender: match &message.prefix {
                    Prefix::User { name, .. } => copy_text(name),
                    _ => unreached(),
                },
                tags: message.tags.clone(),
                data,
                action,
                raw: copy_text(&message.raw),
            },
        )
    }
}

} // verus!
