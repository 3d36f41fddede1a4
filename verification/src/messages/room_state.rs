//! The settings of a channel.
use std::borrow::Cow;
use vstd::prelude::*;
use crate::message::{Message, MessageModel};
use crate::message_kind::{KindModel, MessageKind};
use crate::tags::{tag_flag, tag_number, tag_value, Tags};
use crate::text::{copy_text, lift_text, opt_str};
use crate::typed_messages::{Sealed, TypedMessageMarker};

verus! {

/// `ROOMSTATE`: the settings of a channel, sent after a join and when a
/// setting changes.
#[derive(Debug, PartialEq, Eq)]
pub struct RoomState<'a> {
    /// Metadata attached to the message.
    pub tags: Tags<'a>,
    /// The line itself.
    pub raw: Cow<'a, str>,
    /// The channel that this is about.
    pub channel: Cow<'a, str>,
}

/// What the view holds, as plain text.
pub struct RoomStateModel {
    pub tags: Map<Seq<char>, Seq<char>>,
    pub raw: Seq<char>,
    pub channel: Seq<char>,
}

impl<'a> View for RoomState<'a> {
    type V = RoomStateModel;

    open spec fn view(&self) -> RoomStateModel {
        RoomStateModel {
            tags: self.tags@,
            raw: self.raw@,
            channel: self.channel@,
        }
    }
}

impl<'a> Clone for RoomState<'a> {
    fn clone(&self) -> (r: RoomState<'a>)
        ensures
            r@ == self@,
    {
        RoomState {
            tags: self.tags.clone(),
            raw: copy_text(&self.raw),
            channel: copy_text(&self.channel),
        }
    }
}

impl<'a> RoomState<'a> {
    /// Whether `message` has every part that this view needs.
    pub fn fits(message: &Message<'a>) -> (r: bool)
        ensures
            r == (Self::narrowed(message@) is Some),
    {
        assert(message@.args.len() == message.args@.len());
        message.args.len() > 0
    }

    /// Whether only emotes may be posted.
    pub fn emote_only(&self) -> (r: bool)
        ensures
            r == tag_flag(self.tags@, "emote-only"@),
    {
        self.tags.bool("emote-only")
    }

    /// How many minutes a user must have followed the channel to post; `None`
    /// where anybody may post.
    pub fn followers_only(&self) -> (r: Option<usize>)
        ensures
            r is Some <==> tag_number(self.tags@, "followers-only"@) is Some,
            r matches Some(n) ==> tag_number(self.tags@, "followers-only"@) == Some(n as nat),
    {
        self.tags.number("followers-only")
    }

    /// Whether a post must be unlike the posts before it.
    pub fn r9k(&self) -> (r: bool)
        ensures
            r == tag_flag(self.tags@, "r9k"@),
    {
        self.tags.bool("r9k")
    }

    /// The id of the channel.
    pub fn room_id(&self) -> (r: Option<&str>)
        ensures
            opt_str(r) == tag_value(self.tags@, "room-id"@),
    {
        self.tags.get("room-id")
    }

    /// How many seconds a user must wait between two posts.
    pub fn slow(&self) -> (r: Option<usize>)
        ensures
            r is Some <==> tag_number(self.tags@, "slow"@) is Some,
            r matches Some(n) ==> tag_number(self.tags@, "slow"@) == Some(n as nat),
    {
        self.tags.number("slow")
    }

    /// Whether only subscribers and moderators may post.
    pub fn subs_only(&self) -> (r: bool)
        ensures
            r == tag_flag(self.tags@, "subs-only"@),
    {
        self.tags.bool("subs-only")
    }

    /// Every text of this view is a text of its own: nothing is borrowed.
    pub open spec fn is_owned(&self) -> bool {
        self.tags.is_owned()
            && self.raw is Owned
            && self.channel is Owned
    }

    /// This view with text of its own, which no longer borrows from the
    /// line that it was parsed from.
    pub fn lifted(self) -> (r: RoomState<'static>)
        ensures
            r@ == self@,
            r.is_owned(),
    {
        RoomState {
            tags: self.tags.lifted(),
            raw: lift_text(self.raw),
            channel: lift_text(self.channel),
        }
    }
}

impl<'a> Sealed for RoomState<'a> {

}

impl<'a> TypedMessageMarker<'a> for RoomState<'a> {
    open spec fn accepts(kind: KindModel) -> bool {
        kind is RoomState
    }

    open spec fn narrowed(message: MessageModel) -> Option<RoomStateModel> {
        if message.args.len() > 0 {
            Some(
                RoomStateModel {
                    tags: message.tags,
                    raw: message.raw,
                    channel: message.args[0],
                },
            )
        } else {
            None
        }
    }

    open spec fn view_name() -> Seq<char> {
        "RoomState"@
    }

    open spec fn is_borrowed(&self) -> bool {
        self.raw is Borrowed
            && self.channel is Borrowed
    }

    fn is_kind(kind: &MessageKind<'_>) -> (r: bool) {
        match kind {
            MessageKind::RoomState => true,
            _ => false,
        }
    }

    fn kind() -> (r: &'static str) {
        "RoomState"
    }

    fn from_message(message: Message<'a>) -> (r: Result<RoomState<'a>, Message<'a>>) {
        if !RoomState::fits(&message) {
            return Err(message);
        }
        let Message { raw, tags, mut args, .. } = message;
        Ok(
            RoomState {
                tags,
                raw,
                channel: args.remove(0),
            },
        )
    }

    fn from_ref<'b>(message: &'b Message<'a>) -> (r: Result<RoomState<'a>, &'b Message<'a>>) {
        if !RoomState::fits(message) {
            return Err(message);
        }
        Ok(
            RoomState {
                tags: message.tags.clone(),
                raw: copy_text(&message.raw),
                channel: copy_text(&message.args[0]),
            },
        )
    }
}

} // verus!
