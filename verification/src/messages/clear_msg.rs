//! The removal of one message.
use std::borrow::Cow;
use vstd::pervasive::unreached;
use vstd::prelude::*;
use crate::message::{Message, MessageModel};
use crate::message_kind::{KindModel, MessageKind};
use crate::tags::{tag_value, Tags};
use crate::text::{copy_text, lift_text, opt_str};
use crate::typed_messages::{Sealed, TypedMessageMarker};

verus! {

/// `CLEARMSG`: one message was removed from a channel.
#[derive(Debug, PartialEq, Eq)]
pub struct ClearMsg<'a> {
    /// The line itself.
    pub raw: Cow<'a, str>,
    /// The channel from which the message was removed.
    pub channel: Cow<'a, str>,
    /// The text of the message that was removed.
    pub message: Cow<'a, str>,
    /// Metadata attached to the command.
    pub tags: Tags<'a>,
}

/// What the view holds, as plain text.
pub struct ClearMsgModel {
    pub raw: Seq<char>,
    pub channel: Seq<char>,
    pub message: Seq<char>,
    pub tags: Map<Seq<char>, Seq<char>>,
}

impl<'a> View for ClearMsg<'a> {
    type V = ClearMsgModel;

    open spec fn view(&self) -> ClearMsgModel {
        ClearMsgModel {
            raw: self.raw@,
            channel: self.channel@,
            message: self.message@,
            tags: self.tags@,
        }
    }
}

impl<'a> Clone for ClearMsg<'a> {
    fn clone(&self) -> (r: ClearMsg<'a>)
        ensures
            r@ == self@,
    {
        ClearMsg {
            raw: copy_text(&self.raw),
            channel: copy_text(&self.channel),
            message: copy_text(&self.message),
            tags: self.tags.clone(),
        }
    }
}

impl<'a> ClearMsg<'a> {
    /// Whether `message` has every part that this view needs.
    pub fn fits(message: &Message<'a>) -> (r: bool)
        ensures
            r == (Self::narrowed(message@) is Some),
    {
        assert(message@.args.len() == message.args@.len());
        message.args.len() > 0 && message.data.is_some()
    }

    /// The name of the user who had sent the message.
    pub fn login(&self) -> (r: Option<&str>)
        ensures
            opt_str(r) == tag_value(self.tags@, "login"@),
    {
        self.tags.get("login")
    }

    /// The id of the channel.
    pub fn room_id(&self) -> (r: Option<&str>)
        ensures
            opt_str(r) == tag_value(self.tags@, "room-id"@),
    {
        self.tags.get("room-id")
    }

    /// The id of the message that was removed.
    pub fn target_msg_id(&self) -> (r: Option<&str>)
        ensures
            opt_str(r) == tag_value(self.tags@, "target-msg-id"@),
    {
        self.tags.get("target-msg-id")
    }

    /// The time of the removal, as a UNIX timestamp.
    pub fn tmi_sent_ts(&self) -> (r: Option<&str>)
        ensures
            opt_str(r) == tag_value(self.tags@, "tmi-sent-ts"@),
    {
        self.tags.get("tmi-sent-ts")
    }

    /// Every text of this view is a text of its own: nothing is borrowed.
    pub open spec fn is_owned(&self) -> bool {
        self.raw is Owned
            && self.channel is Owned
            && self.message is Owned
            && self.tags.is_owned()
    }

    /// This view with text of its own, which no longer borrows from the
    /// line that it was parsed from.
    pub fn lifted(self) -> (r: ClearMsg<'static>)
        ensures
            r@ == self@,
            r.is_owned(),
    {
        ClearMsg {
            raw: lift_text(self.raw),
            channel: lift_text(self.channel),
            message: lift_text(self.message),
            tags: self.tags.lifted(),
        }
    }
}

impl<'a> Sealed for ClearMsg<'a> {

}

impl<'a> TypedMessageMarker<'a> for ClearMsg<'a> {
    open spec fn accepts(kind: KindModel) -> bool {
        kind is ClearMsg
    }

    open spec fn narrowed(message: MessageModel) -> Option<ClearMsgModel> {
        if message.args.len() > 0 && message.data is Some {
            Some(
                ClearMsgModel {
                    raw: message.raw,
                    channel: message.args[0],
                    message: message.data->0,
                    tags: message.tags,
                },
            )
        } else {
            None
        }
    }

    open spec fn view_name() -> Seq<char> {
        "ClearMsg"@
    }

    open spec fn is_borrowed(&self) -> bool {
        self.raw is Borrowed
            && self.channel is Borrowed
            && self.message is Borrowed
    }

    fn is_kind(kind: &MessageKind<'_>) -> (r: bool) {
        match kind {
            MessageKind::ClearMsg => true,
            _ => false,
        }
    }

    fn kind() -> (r: &'static str) {
        "ClearMsg"
    }

    fn from_message(message: Message<'a>) -> (r: Result<ClearMsg<'a>, Message<'a>>) {
        if !ClearMsg::fits(&message) {
            return Err(message);
        }
        let Message { raw, tags, mut args, data, .. } = message;
        Ok(
            ClearMsg {
                raw,
                channel: args.remove(0),
                message: data.unwrap(),
                tags,
            },
        )
    }

    fn from_ref<'b>(message: &'b Message<'a>) -> (r: Result<ClearMsg<'a>, &'b Message<'a>>) {
        if !ClearMsg::fits(message) {
            return Err(message);
        }
        Ok(
            ClearMsg {
                raw: copy_text(&message.raw),
                channel: copy_text(&message.args[0]),
                message: match &message.data {
                    Some(text) => copy_text(text),
                    None => unreached(),
                },
                tags: message.tags.clone(),
            },
        )
    }
}

} // verus!
