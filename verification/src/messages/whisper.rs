//! Private messages.
use std::borrow::Cow;
use vstd::prelude::*;
use vstd::pervasive::unreached;
use crate::badges::{badge_models, tag_badges, Badge};
use crate::color::Color;
use crate::emotes::{emote_models, tag_emotes, Emote};
use crate::message::{Message, MessageModel};
use crate::message_kind::{KindModel, MessageKind};
use crate::messages::user_type::{tag_user_type, UserType};
use crate::prefix::Prefix;
use crate::tags::{tag_color, tag_flag, tag_value, Tags};
use crate::text::{as_str, copy_text, lift_text, opt_str};
use crate::typed_messages::{Sealed, TypedMessageMarker};

verus! {

/// `WHISPER`: a private message from one user to another.
#[derive(Debug, PartialEq, Eq)]
pub struct Whisper<'a> {
    /// The line itself.
    pub raw: Cow<'a, str>,
    /// The first argument of the command.
    pub from_user: Cow<'a, str>,
    /// The name in the prefix of the line.
    pub to_user: Cow<'a, str>,
    /// The text of the message.
    pub data: Cow<'a, str>,
    /// Metadata attached to the message.
    pub tags: Tags<'a>,
}

/// What the view holds, as plain text.
pub struct WhisperModel {
    pub raw: Seq<char>,
    pub from_user: Seq<char>,
    pub to_user: Seq<char>,
    pub data: Seq<char>,
    pub tags: Map<Seq<char>, Seq<char>>,
}

impl<'a> View for Whisper<'a> {
    type V = WhisperModel;

    open spec fn view(&self) -> WhisperModel {
        WhisperModel {
            raw: self.raw@,
            from_user: self.from_user@,
            to_user: self.to_user@,
            data: self.data@,
            tags: self.tags@,
        }
    }
}

impl<'a> Clone for Whisper<'a> {
    fn clone(&self) -> (r: Whisper<'a>)
        ensures
            r@ == self@,
    {
        Whisper {
            raw: copy_text(&self.raw),
            from_user: copy_text(&self.from_user),
            to_user: copy_text(&self.to_user),
            data: copy_text(&self.data),
            tags: self.tags.clone(),
        }
    }
}

impl<'a> Whisper<'a> {
    /// Whether `message` has every part that this view needs.
    pub fn fits(message: &Message<'a>) -> (r: bool)
        ensures
            r == (Self::narrowed(message@) is Some),
    {
        assert(message@.args.len() == message.args@.len());
        message.args.len() > 0 && message.data.is_some() && message.prefix.is_user()
    }

    /// The badges of the user.
    pub fn badges(&self) -> (r: Vec<Badge<'_>>)
        ensures
            badge_models(r@) == tag_badges(self.tags@, "badges"@),
    {
        Badge::from_tag(&self.tags, "badges")
    }

    /// The colour of the name of the user.
    pub fn color(&self) -> (r: Option<Color>)
        ensures
            r == tag_color(self.tags@),
    {
        self.tags.color()
    }

    /// The name of the user as it is shown.
    pub fn display_name(&self) -> (r: Option<&str>)
        ensures
            opt_str(r) == tag_value(self.tags@, "display-name"@),
    {
        self.tags.get("display-name")
    }

    /// The emotes in the text.
    pub fn emotes(&self) -> (r: Vec<Emote<'_>>)
        ensures
            emote_models(r@) == tag_emotes(self.tags@, self.data@),
    {
        Emote::from_tags(&self.tags, as_str(&self.data))
    }

    /// The id of the message.
    pub fn msg_id(&self) -> (r: Option<&str>)
        ensures
            opt_str(r) == tag_value(self.tags@, "message-id"@),
    {
        self.tags.get("message-id")
    }

    /// The id of the conversation.
    pub fn thread_id(&self) -> (r: Option<&str>)
        ensures
            opt_str(r) == tag_value(self.tags@, "thread-id"@),
    {
        self.tags.get("thread-id")
    }

    /// The id of the user.
    pub fn user_id(&self) -> (r: Option<&str>)
        ensures
            opt_str(r) == tag_value(self.tags@, "user-id"@),
    {
        self.tags.get("user-id")
    }

    /// Whether the user has Turbo.
    pub fn is_turbo(&self) -> (r: bool)
        ensures
            r == tag_flag(self.tags@, "turbo"@),
    {
        self.tags.bool("turbo")
    }

    /// The type of the user.
    pub fn user_type(&self) -> (r: UserType)
        ensures
            r == tag_user_type(self.tags@),
    {
        UserType::from_tags(&self.tags)
    }

    /// Every text of this view is a text of its own: nothing is borrowed.
    pub open spec fn is_owned(&self) -> bool {
        self.raw is Owned
            && self.from_user is Owned
            && self.to_user is Owned
            && self.data is Owned
            && self.tags.is_owned()
    }

    /// This view with text of its own, which no longer borrows from the
    /// line that it was parsed from.
    pub fn lifted(self) -> (r: Whisper<'static>)
        ensures
            r@ == self@,
            r.is_owned(),
    {
        Whisper {
            raw: lift_text(self.raw),
            from_user: lift_text(self.from_user),
            to_user: lift_text(self.to_user),
            data: lift_text(self.data),
            tags: self.tags.lifted(),
        }
    }
}

impl<'a> Sealed for Whisper<'a> {

}

impl<'a> TypedMessageMarker<'a> for Whisper<'a> {
    open spec fn accepts(kind: KindModel) -> bool {
        kind is Whisper
    }

    open spec fn narrowed(message: MessageModel) -> Option<WhisperModel> {
        if message.args.len() > 0 && message.data is Some && message.prefix is User {
            Some(
                WhisperModel {
                    raw: message.raw,
                    from_user: message.args[0],
                    to_user: message.prefix->name,
                    data: message.data->0,
                    tags: message.tags,
                },
            )
        } else {
            None
        }
    }

    open spec fn view_name() -> Seq<char> {
        "Whisper"@
    }

    open spec fn is_borrowed(&self) -> bool {
        self.raw is Borrowed
            && self.from_user is Borrowed
            && self.to_user is Borrowed
            && self.data is Borrowed
    }

    fn is_kind(kind: &MessageKind<'_>) -> (r: bool) {
        match kind {
            MessageKind::Whisper => true,
            _ => false,
        }
    }

    fn kind() -> (r: &'static str) {
        "Whisper"
    }

    fn from_message(message: Message<'a>) -> (r: Result<Whisper<'a>, Message<'a>>) {
        if !Whisper::fits(&message) {
            return Err(message);
        }
        let Message { raw, tags, prefix, mut args, data, .. } = message;
        Ok(
            Whisper {
                raw,
                from_user: args.remove(0),
                to_user: match prefix {
                    Prefix::User { name, .. } => name,
                    _ => unreached(),
                },
                data: data.unwrap(),
                tags,
            },
        )
    }

    fn from_ref<'b>(message: &'b Message<'a>) -> (r: Result<Whisper<'a>, &'b Message<'a>>) {
        if !Whisper::fits(message) {
            return Err(message);
        }
        Ok(
            Whisper {
                raw: copy_text(&message.raw),
                from_user: copy_text(&message.args[0]),
                to_user: match &message.prefix {
                    Prefix::User { name, .. } => copy_text(name),
                    _ => unreached(),
                },
                data: match &message.data {
                    Some(text) => copy_text(text),
                    None => unreached(),
                },
                tags: message.tags.clone(),
            },
        )
    }
}

} // verus!
