//! The removal of messages from a channel.
use std::borrow::Cow;
use vstd::prelude::*;
use crate::message::{Message, MessageModel};
use crate::message_kind::{KindModel, MessageKind};
use crate::tags::{tag_number, tag_value, Tags};
use crate::text::{copy_text, lift_text, opt_str};
use crate::typed_messages::{Sealed, TypedMessageMarker};

verus! {

/// `CLEARCHAT`: all messages of a channel, or all messages of one user, were
/// removed.
#[derive(Debug, PartialEq, Eq)]
pub struct ClearChat<'a> {
    /// The line itself.
    pub raw: Cow<'a, str>,
    /// The channel from which the messages were removed.
    pub channel: Cow<'a, str>,
    /// Whose messages were removed.
    pub target: ClearChatTarget<'a>,
    /// Metadata attached to the command.
    pub tags: Tags<'a>,
}

/// Whose messages a [`ClearChat`] removed.
#[derive(Debug, PartialEq, Eq)]
pub enum ClearChatTarget<'a> {
    /// The messages of everybody.
    All,
    /// The messages of the user with this login name.
    User(Cow<'a, str>),
}

/// What a target holds, as plain text.
pub enum ClearChatTargetModel {
    All,
    User(Seq<char>),
}

impl<'a> View for ClearChatTarget<'a> {
    type V = ClearChatTargetModel;

    open spec fn view(&self) -> ClearChatTargetModel {
        match self {
            ClearChatTarget::All => ClearChatTargetModel::All,
            ClearChatTarget::User(name) => ClearChatTargetModel::User(name@),
        }
    }
}

/// What the view holds, as plain text.
pub struct ClearChatModel {
    pub raw: Seq<char>,
    pub channel: Seq<char>,
    pub target: ClearChatTargetModel,
    pub tags: Map<Seq<char>, Seq<char>>,
}

impl<'a> View for ClearChat<'a> {
    type V = ClearChatModel;

    open spec fn view(&self) -> ClearChatModel {
        ClearChatModel {
            raw: self.raw@,
            channel: self.channel@,
            target: self.target@,
            tags: self.tags@,
        }
    }
}

/// Whose messages are meant: those of the user that the text names, and
/// without a text those of everybody.
pub open spec fn target_of(data: Option<Seq<char>>) -> ClearChatTargetModel {
    match data {
        Some(name) => ClearChatTargetModel::User(name),
        None => ClearChatTargetModel::All,
    }
}

impl<'a> Clone for ClearChatTarget<'a> {
    fn clone(&self) -> (r: ClearChatTarget<'a>)
        ensures
            r@ == self@,
    {
        match self {
            ClearChatTarget::All => ClearChatTarget::All,
            ClearChatTarget::User(name) => ClearChatTarget::User(copy_text(name)),
        }
    }
}

impl<'a> ClearChatTarget<'a> {
    /// The name, if there is one, is a text of its own.
    pub open spec fn is_owned(&self) -> bool {
        self matches ClearChatTarget::User(name) ==> name is Owned
    }

    /// This target with text of its own.
    pub fn lifted(self) -> (r: ClearChatTarget<'static>)
        ensures
            r@ == self@,
            r.is_owned(),
    {
        match self {
            ClearChatTarget::All => ClearChatTarget::All,
            ClearChatTarget::User(name) => ClearChatTarget::User(lift_text(name)),
        }
    }
}

impl<'a> Clone for ClearChat<'a> {
    fn clone(&self) -> (r: ClearChat<'a>)
        ensures
            r@ == self@,
    {
        ClearChat {
            raw: copy_text(&self.raw),
            channel: copy_text(&self.channel),
            target: self.target.clone(),
            tags: self.tags.clone(),
        }
    }
}

impl<'a> ClearChat<'a> {
    /// Every text of this view is a text of its own: nothing is borrowed.
    pub open spec fn is_owned(&self) -> bool {
        self.raw is Owned
            && self.channel is Owned
            && self.target.is_owned()
            && self.tags.is_owned()
    }

    /// This view with text of its own, which no longer borrows from the
    /// line that it was parsed from.
    pub fn lifted(self) -> (r: ClearChat<'static>)
        ensures
            r@ == self@,
            r.is_owned(),
    {
        ClearChat {
            raw: lift_text(self.raw),
            channel: lift_text(self.channel),
            target: self.target.lifted(),
            tags: self.tags.lifted(),
        }
    }

    /// Whether `message` has every part that this view needs.
    pub fn fits(message: &Message<'a>) -> (r: bool)
        ensures
            r == (Self::narrowed(message@) is Some),
    {
        assert(message@.args.len() == message.args@.len());
        message.args.len() > 0
    }

    /// For how many seconds the user may not post; `None` for a ban, and where
    /// the messages of everybody were removed.
    pub fn ban_duration(&self) -> (r: Option<usize>)
        ensures
            r is Some <==> tag_number(self.tags@, "ban-duration"@) is Some,
            r matches Some(n) ==> tag_number(self.tags@, "ban-duration"@) == Some(n as nat),
    {
        self.tags.number("ban-duration")
    }

    /// The id of the channel.
    pub fn room_id(&self) -> (r: Option<&str>)
        ensures
            opt_str(r) == tag_value(self.tags@, "room-id"@),
    {
        self.tags.get("room-id")
    }

    /// The id of the user whose messages were removed.
    pub fn target_user_id(&self) -> (r: Option<&str>)
        ensures
            opt_str(r) == tag_value(self.tags@, "target-user-id"@),
    {
        self.tags.get("target-user-id")
    }

    /// The time of the removal, as a UNIX timestamp.
    pub fn tmi_sent_ts(&self) -> (r: Option<&str>)
        ensures
            opt_str(r) == tag_value(self.tags@, "tmi-sent-ts"@),
    {
        self.tags.get("tmi-sent-ts")
    }
}

impl<'a> Sealed for ClearChat<'a> {

}

impl<'a> TypedMessageMarker<'a> for ClearChat<'a> {
    open spec fn accepts(kind: KindModel) -> bool {
        kind is ClearChat
    }

    open spec fn narrowed(message: MessageModel) -> Option<ClearChatModel> {
        if message.args.len() > 0 {
            Some(
                ClearChatModel {
                    raw: message.raw,
                    channel: message.args[0],
                    target: target_of(message.data),
                    tags: message.tags,
                },
            )
        } else {
            None
        }
    }

    open spec fn is_borrowed(&self) -> bool {
        self.raw is Borrowed
            && self.channel is Borrowed
            && (self.target matches ClearChatTarget::User(name) ==> name is Borrowed)
    }

    open spec fn view_name() -> Seq<char> {
        "ClearChat"@
    }

    fn is_kind(kind: &MessageKind<'_>) -> (r: bool) {
        match kind {
            MessageKind::ClearChat => true,
            _ => false,
        }
    }

    fn kind() -> (r: &'static str) {
        "ClearChat"
    }

    fn from_message(message: Message<'a>) -> (r: Result<ClearChat<'a>, Message<'a>>) {
        if !ClearChat::fits(&message) {
            return Err(message);
        }
        let Message { raw, tags, mut args, data, .. } = message;
        Ok(
            ClearChat {
                raw,
                channel: args.remove(0),
                target: match data {
                    Some(name) => ClearChatTarget::User(name),
                    None => ClearChatTarget::All,
                },
                tags,
            },
        )
    }

    fn from_ref<'b>(message: &'b Message<'a>) -> (r: Result<ClearChat<'a>, &'b Message<'a>>) {
        if !ClearChat::fits(message) {
            return Err(message);
        }
        Ok(
            ClearChat {
                raw: copy_text(&message.raw),
                channel: copy_text(&message.args[0]),
                target: match &message.data {
                    Some(name) => ClearChatTarget::User(copy_text(name)),
                    None => ClearChatTarget::All,
                },
                tags: message.tags.clone(),
            },
        )
    }
}

} // verus!
