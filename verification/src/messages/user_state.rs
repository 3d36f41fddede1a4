//! The state of the user in a channel.
use std::borrow::Cow;
use vstd::prelude::*;
use crate::badges::{badge_models, tag_badges, Badge};
use crate::color::Color;
use crate::message::{Message, MessageModel};
use crate::message_kind::{KindModel, MessageKind};
use crate::messages::user_type::{list_of, tag_list, tag_user_type, UserType};
use crate::tags::{tag_color, tag_flag, tag_value, Tags};
use crate::text::{copy_text, lift_text, opt_str, strs};
use crate::typed_messages::{Sealed, TypedMessageMarker};

verus! {

/// `USERSTATE`: what the server knows of the user in a channel, sent after a
/// join and after each post.
#[derive(Debug, PartialEq, Eq)]
pub struct UserState<'a> {
    /// Metadata attached to the message.
    pub tags: Tags<'a>,
    /// The line itself.
    pub raw: Cow<'a, str>,
    /// The channel that this is about.
    pub channel: Cow<'a, str>,
}

/// What the view holds, as plain text.
pub struct UserStateModel {
    pub tags: Map<Seq<char>, Seq<char>>,
    pub raw: Seq<char>,
    pub channel: Seq<char>,
}

impl<'a> View for UserState<'a> {
    type V = UserStateModel;

    open spec fn view(&self) -> UserStateModel {
        UserStateModel {
            tags: self.tags@,
            raw: self.raw@,
            channel: self.channel@,
        }
    }
}

impl<'a> Clone for UserState<'a> {
    fn clone(&self) -> (r: UserState<'a>)
        ensures
            r@ == self@,
    {
        UserState {
            tags: self.tags.clone(),
            raw: copy_text(&self.raw),
            channel: copy_text(&self.channel),
        }
    }
}

impl<'a> UserState<'a> {
    /// Whether `message` has every part that this view needs.
    pub fn fits(message: &Message<'a>) -> (r: bool)
        ensures
            r == (Self::narrowed(message@) is Some),
    {
        assert(message@.args.len() == message.args@.len());
        message.args.len() > 0
    }

    /// Metadata of the badges, such as the number of months of a
    /// subscription.
    pub fn badge_info(&self) -> (r: Vec<Badge<'_>>)
        ensures
            badge_models(r@) == tag_badges(self.tags@, "badge-info"@),
    {
        Badge::from_tag(&self.tags, "badge-info")
    }

    /// The badges of the user.
    pub fn badges(&self) -> (r: Vec<Badge<'_>>)
        ensures
            badge_models(r@) == tag_badges(self.tags@, "badges"@),
    {
        Badge::from_tag(&self.tags, "badges")
    }

    /// The colour of the name of the user.
    pub fn color(&self) -> (r: Option<Color>)
        ensures
            r == tag_color(self.tags@),
    {
        self.tags.color()
    }

    /// The name of the user as it is shown.
    pub fn display_name(&self) -> (r: Option<&str>)
        ensures
            opt_str(r) == tag_value(self.tags@, "display-name"@),
    {
        self.tags.get("display-name")
    }

    /// The id of the message, where this follows a post.
    pub fn msg_id(&self) -> (r: Option<&str>)
        ensures
            opt_str(r) == tag_value(self.tags@, "id"@),
    {
        self.tags.get("id")
    }

    /// Whether the user is a moderator of the channel.
    pub fn is_moderator(&self) -> (r: bool)
        ensures
            r == tag_flag(self.tags@, "mod"@),
    {
        self.tags.bool("mod")
    }

    /// Whether the user is a subscriber of the channel.
    pub fn is_subscriber(&self) -> (r: bool)
        ensures
            r == tag_flag(self.tags@, "subscriber"@),
    {
        self.tags.bool("subscriber")
    }

    /// Whether the user has Turbo.
    pub fn is_turbo(&self) -> (r: bool)
        ensures
            r == tag_flag(self.tags@, "turbo"@),
    {
        self.tags.bool("turbo")
    }

    /// The type of the user.
    pub fn user_type(&self) -> (r: UserType)
        ensures
            r == tag_user_type(self.tags@),
    {
        UserType::from_tags(&self.tags)
    }

    /// The emote sets that the user may use.
    pub fn emote_sets(&self) -> (r: Vec<&str>)
        ensures
            strs(r@) == tag_list(self.tags@, "emote-sets"@),
    {
        list_of(&self.tags, "emote-sets")
    }

    /// Every text of this view is a text of its own: nothing is borrowed.
    pub open spec fn is_owned(&self) -> bool {
        self.tags.is_owned()
            && self.raw is Owned
            && self.channel is Owned
    }

    /// This view with text of its own, which no longer borrows from the
    /// line that it was parsed from.
    pub fn lifted(self) -> (r: UserState<'static>)
        ensures
            r@ == self@,
            r.is_owned(),
    {
        UserState {
            tags: self.tags.lifted(),
            raw: lift_text(self.raw),
            channel: lift_text(self.channel),
        }
    }
}

impl<'a> Sealed for UserState<'a> {

}

impl<'a> TypedMessageMarker<'a> for UserState<'a> {
    open spec fn accepts(kind: KindModel) -> bool {
        kind is UserState
    }

    open spec fn narrowed(message: MessageModel) -> Option<UserStateModel> {
        if message.args.len() > 0 {
            Some(
                UserStateModel {
                    tags: message.tags,
                    raw: message.raw,
                    channel: message.args[0],
                },
            )
        } else {
            None
        }
    }

    open spec fn view_name() -> Seq<char> {
        "UserState"@
    }

    open spec fn is_borrowed(&self) -> bool {
        self.raw is Borrowed
            && self.channel is Borrowed
    }

    fn is_kind(kind: &MessageKind<'_>) -> (r: bool) {
        match kind {
            MessageKind::UserState => true,
            _ => false,
        }
    }

    fn kind() -> (r: &'static str) {
        "UserState"
    }

    fn from_message(message: Message<'a>) -> (r: Result<UserState<'a>, Message<'a>>) {
        if !UserState::fits(&message) {
            return Err(message);
        }
        let Message { raw, tags, mut args, .. } = message;
        Ok(
            UserState {
                tags,
                raw,
                channel: args.remove(0),
            },
        )
    }

    fn from_ref<'b>(message: &'b Message<'a>) -> (r: Result<UserState<'a>, &'b Message<'a>>) {
        if !UserState::fits(message) {
            return Err(message);
        }
        Ok(
            UserState {
                tags: message.tags.clone(),
                raw: copy_text(&message.raw),
                channel: copy_text(&message.args[0]),
            },
        )
    }
}

} // verus!
