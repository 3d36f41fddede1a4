//! A user joins a channel.
use std::borrow::Cow;
use vstd::prelude::*;
use vstd::pervasive::unreached;
use crate::message::{Message, MessageModel};
use crate::message_kind::{KindModel, MessageKind};
use crate::prefix::Prefix;
use crate::text::{copy_text, lift_text};
use crate::typed_messages::{Sealed, TypedMessageMarker};

verus! {

/// A user joins a channel.
#[derive(Debug, PartialEq, Eq)]
pub struct Join<'a> {
    /// The name of the user who joined.
    pub user: Cow<'a, str>,
    /// The channel that the user joined.
    pub channel: Cow<'a, str>,
}

/// What the view holds, as plain text.
pub struct JoinModel {
    pub user: Seq<char>,
    pub channel: Seq<char>,
}

impl<'a> View for Join<'a> {
    type V = JoinModel;

    open spec fn view(&self) -> JoinModel {
        JoinModel {
            user: self.user@,
            channel: self.channel@,
        }
    }
}

impl<'a> Clone for Join<'a> {
    fn clone(&self) -> (r: Join<'a>)
        ensures
            r@ == self@,
    {
        Join {
            user: copy_text(&self.user),
            channel: copy_text(&self.channel),
        }
    }
}

impl<'a> Join<'a> {
    /// Whether `message` has every part that this view needs.
    pub fn fits(message: &Message<'a>) -> (r: bool)
        ensures
            r == (Self::narrowed(message@) is Some),
    {
        assert(message@.args.len() == message.args@.len());
        message.prefix.is_user() && message.args.len() > 0
    }

    /// Every text of this view is a text of its own: nothing is borrowed.
    pub open spec fn is_owned(&self) -> bool {
        self.user is Owned
            && self.channel is Owned
    }

    /// This view with text of its own, which no longer borrows from the
    /// line that it was parsed from.
    pub fn lifted(self) -> (r: Join<'static>)
        ensures
            r@ == self@,
            r.is_owned(),
    {
        Join {
            user: lift_text(self.user),
            channel: lift_text(self.channel),
        }
    }
}

impl<'a> Sealed for Join<'a> {

}

impl<'a> TypedMessageMarker<'a> for Join<'a> {
    open spec fn accepts(kind: KindModel) -> bool {
        kind is Join
    }

    open spec fn narrowed(message: MessageModel) -> Option<JoinModel> {
        if message.prefix is User && message.args.len() > 0 {
            Some(
                JoinModel {
                    user: message.prefix->name,
                    channel: message.args[0],
                },
            )
        } else {
            None
        }
    }

    open spec fn view_name() -> Seq<char> {
        "Join"@
    }

    open spec fn is_borrowed(&self) -> bool {
        self.user is Borrowed
            && self.channel is Borrowed
    }

    fn is_kind(kind: &MessageKind<'_>) -> (r: bool) {
        match kind {
            MessageKind::Join => true,
            _ => false,
        }
    }

    fn kind() -> (r: &'static str) {
        "Join"
    }

    fn from_message(message: Message<'a>) -> (r: Result<Join<'a>, Message<'a>>) {
        if !Join::fits(&message) {
            return Err(message);
        }
        let Message { prefix, mut args, .. } = message;
        Ok(
            Join {
                user: match prefix {
                    Prefix::User { name, .. } => name,
                    _ => unreached(),
                },
                channel: args.remove(0),
            },
        )
    }

    fn from_ref<'b>(message: &'b Message<'a>) -> (r: Result<Join<'a>, &'b Message<'a>>) {
        if !Join::fits(message) {
            return Err(message);
        }
        Ok(
            Join {
                user: match &message.prefix {
                    Prefix::User { name, .. } => copy_text(name),
                    _ => unreached(),
                },
                channel: copy_text(&message.args[0]),
            },
        )
    }
}

} // verus!
