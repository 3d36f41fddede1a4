//! A user leaves a channel.
use std::borrow::Cow;
use vstd::prelude::*;
use vstd::pervasive::unreached;
use crate::message::{Message, MessageModel};
use crate::message_kind::{KindModel, MessageKind};
use crate::prefix::Prefix;
use crate::text::{copy_text, lift_text};
use crate::typed_messages::{Sealed, TypedMessageMarker};

verus! {

/// A user leaves a channel.
#[derive(Debug, PartialEq, Eq)]
pub struct Part<'a> {
    /// The name of the user who left.
    pub user: Cow<'a, str>,
    /// The channel that the user left.
    pub channel: Cow<'a, str>,
}

/// What the view holds, as plain text.
pub struct PartModel {
    pub user: Seq<char>,
    pub channel: Seq<char>,
}

impl<'a> View for Part<'a> {
    type V = PartModel;

    open spec fn view(&self) -> PartModel {
        PartModel {
            user: self.user@,
            channel: self.channel@,
        }
    }
}

impl<'a> Clone for Part<'a> {
    fn clone(&self) -> (r: Part<'a>)
        ensures
            r@ == self@,
    {
        Part {
            user: copy_text(&self.user),
            channel: copy_text(&self.channel),
        }
    }
}

impl<'a> Part<'a> {
    /// Whether `message` has every part that this view needs.
    pub fn fits(message: &Message<'a>) -> (r: bool)
        ensures
            r == (Self::narrowed(message@) is Some),
    {
        assert(message@.args.len() == message.args@.len());
        message.prefix.is_user() && message.args.len() > 0
    }

    /// Every text of this view is a text of its own: nothing is borrowed.
    pub open spec fn is_owned(&self) -> bool {
        self.user is Owned
            && self.channel is Owned
    }

    /// This view with text of its own, which no longer borrows from the
    /// line that it was parsed from.
    pub fn lifted(self) -> (r: Part<'static>)
        ensures
            r@ == self@,
            r.is_owned(),
    {
        Part {
            user: lift_text(self.user),
            channel: lift_text(self.channel),
        }
    }
}

impl<'a> Sealed for Part<'a> {

}

impl<'a> TypedMessageMarker<'a> for Part<'a> {
    open spec fn accepts(kind: KindModel) -> bool {
        kind is Part
    }

    open spec fn narrowed(message: MessageModel) -> Option<PartModel> {
        if message.prefix is User && message.args.len() > 0 {
            Some(
                PartModel {
                    user: message.prefix->name,
                    channel: message.args[0],
                },
            )
        } else {
            None
        }
    }

    open spec fn view_name() -> Seq<char> {
        "Part"@
    }

    open spec fn is_borrowed(&self) -> bool {
        self.user is Borrowed
            && self.channel is Borrowed
    }

    fn is_kind(kind: &MessageKind<'_>) -> (r: bool) {
        match kind {
            MessageKind::Part => true,
            _ => false,
        }
    }

    fn kind() -> (r: &'static str) {
        "Part"
    }

    fn from_message(message: Message<'a>) -> (r: Result<Part<'a>, Message<'a>>) {
        if !Part::fits(&message) {
            return Err(message);
        }
        let Message { prefix, mut args, .. } = message;
        Ok(
            Part {
                user: match prefix {
                    Prefix::User { name, .. } => name,
                    _ => unreached(),
                },
                channel: args.remove(0),
            },
        )
    }

    fn from_ref<'b>(message: &'b Message<'a>) -> (r: Result<Part<'a>, &'b Message<'a>>) {
        if !Part::fits(message) {
            return Err(message);
        }
        Ok(
            Part {
                user: match &message.prefix {
                    Prefix::User { name, .. } => copy_text(name),
                    _ => unreached(),
                },
                channel: copy_text(&message.args[0]),
            },
        )
    }
}

} // verus!
