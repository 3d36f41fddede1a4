//! The outcome of a command.
use std::borrow::Cow;
use vstd::pervasive::unreached;
use vstd::prelude::*;
use crate::message::{Message, MessageModel};
use crate::message_kind::{KindModel, MessageKind};
use crate::messages::notice_kind::NoticeKind;
use crate::tags::{tag_value, Tags};
use crate::text::{copy_text, lift_text, opt_str};
use crate::typed_messages::{Sealed, TypedMessageMarker};

verus! {

/// `NOTICE`: the server tells the outcome of a command.
#[derive(Debug, PartialEq, Eq)]
pub struct Notice<'a> {
    /// The line itself.
    pub raw: Cow<'a, str>,
    /// The channel that the notice is about.
    pub channel: Cow<'a, str>,
    /// The sentence that describes the outcome.
    pub message: Cow<'a, str>,
    /// Metadata attached to the notice.
    pub tags: Tags<'a>,
}

/// What the view holds, as plain text.
pub struct NoticeModel {
    pub raw: Seq<char>,
    pub channel: Seq<char>,
    pub message: Seq<char>,
    pub tags: Map<Seq<char>, Seq<char>>,
}

impl<'a> View for Notice<'a> {
    type V = NoticeModel;

    open spec fn view(&self) -> NoticeModel {
        NoticeModel {
            raw: self.raw@,
            channel: self.channel@,
            message: self.message@,
            tags: self.tags@,
        }
    }
}

impl<'a> Clone for Notice<'a> {
    fn clone(&self) -> (r: Notice<'a>)
        ensures
            r@ == self@,
    {
        Notice {
            raw: copy_text(&self.raw),
            channel: copy_text(&self.channel),
            message: copy_text(&self.message),
            tags: self.tags.clone(),
        }
    }
}

impl<'a> Notice<'a> {
    /// Whether `message` has every part that this view needs.
    pub fn fits(message: &Message<'a>) -> (r: bool)
        ensures
            r == (Self::narrowed(message@) is Some),
    {
        assert(message@.args.len() == message.args@.len());
        message.args.len() > 0 && message.data.is_some()
    }

    /// What the notice is about.
    pub fn notice_kind(&self) -> (r: NoticeKind)
        ensures
            r == match tag_value(self.tags@, "msg-id"@) {
                Some(id) => NoticeKind::of_id(id),
                None => NoticeKind::Unknown,
            },
    {
        match self.tags.get("msg-id") {
            Some(id) => NoticeKind::parse(id),
            None => NoticeKind::Unknown,
        }
    }

    /// The id of the user that the command was about.
    pub fn target_user_id(&self) -> (r: Option<&str>)
        ensures
            opt_str(r) == tag_value(self.tags@, "target-user-id"@),
    {
        self.tags.get("target-user-id")
    }

    /// Every text of this view is a text of its own: nothing is borrowed.
    pub open spec fn is_owned(&self) -> bool {
        self.raw is Owned
            && self.channel is Owned
            && self.message is Owned
            && self.tags.is_owned()
    }

    /// This view with text of its own, which no longer borrows from the
    /// line that it was parsed from.
    pub fn lifted(self) -> (r: Notice<'static>)
        ensures
            r@ == self@,
            r.is_owned(),
    {
        Notice {
            raw: lift_text(self.raw),
            channel: lift_text(self.channel),
            message: lift_text(self.message),
            tags: self.tags.lifted(),
        }
    }
}

impl<'a> Sealed for Notice<'a> {

}

impl<'a> TypedMessageMarker<'a> for Notice<'a> {
    open spec fn accepts(kind: KindModel) -> bool {
        kind is Notice
    }

    open spec fn narrowed(message: MessageModel) -> Option<NoticeModel> {
        if message.args.len() > 0 && message.data is Some {
            Some(
                NoticeModel {
                    raw: message.raw,
                    channel: message.args[0],
                    message: message.data->0,
                    tags: message.tags,
                },
            )
        } else {
            None
        }
    }

    open spec fn view_name() -> Seq<char> {
        "Notice"@
    }

    open spec fn is_borrowed(&self) -> bool {
        self.raw is Borrowed
            && self.channel is Borrowed
            && self.message is Borrowed
    }

    fn is_kind(kind: &MessageKind<'_>) -> (r: bool) {
        match kind {
            MessageKind::Notice => true,
            _ => false,
        }
    }

    fn kind() -> (r: &'static str) {
        "Notice"
    }

    fn from_message(message: Message<'a>) -> (r: Result<Notice<'a>, Message<'a>>) {
        if !Notice::fits(&message) {
            return Err(message);
        }
        let Message { raw, tags, mut args, data, .. } = message;
        Ok(
            Notice {
                raw,
                channel: args.remove(0),
                message: data.unwrap(),
                tags,
            },
        )
    }

    fn from_ref<'b>(message: &'b Message<'a>) -> (r: Result<Notice<'a>, &'b Message<'a>>) {
        if !Notice::fits(message) {
            return Err(message);
        }
        Ok(
            Notice {
                raw: copy_text(&message.raw),
                channel: copy_text(&message.args[0]),
                message: match &message.data {
                    Some(text) => copy_text(text),
                    None => unreached(),
                },
                tags: message.tags.clone(),
            },
        )
    }
}

} // verus!
