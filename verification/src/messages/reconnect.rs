//! The announcement that the connection will be closed.
use std::borrow::Cow;
use vstd::prelude::*;
use crate::message::{Message, MessageModel};
use crate::message_kind::{KindModel, MessageKind};
use crate::text::{copy_text, lift_text};
use crate::typed_messages::{Sealed, TypedMessageMarker};

verus! {

/// `RECONNECT`: the server is about to close the connection.
#[derive(Debug, PartialEq, Eq)]
pub struct Reconnect<'a> {
    /// The line itself.
    pub raw: Cow<'a, str>,
}

/// What the view holds, as plain text.
pub struct ReconnectModel {
    pub raw: Seq<char>,
}

impl<'a> View for Reconnect<'a> {
    type V = ReconnectModel;

    open spec fn view(&self) -> ReconnectModel {
        ReconnectModel {
            raw: self.raw@,
        }
    }
}

impl<'a> Clone for Reconnect<'a> {
    fn clone(&self) -> (r: Reconnect<'a>)
        ensures
            r@ == self@,
    {
        Reconnect {
            raw: copy_text(&self.raw),
        }
    }
}

impl<'a> Reconnect<'a> {
    /// Whether `message` has every part that this view needs.
    pub fn fits(message: &Message<'a>) -> (r: bool)
        ensures
            r == (Self::narrowed(message@) is Some),
    {
        true
    }

    /// Every text of this view is a text of its own: nothing is borrowed.
    pub open spec fn is_owned(&self) -> bool {
        self.raw is Owned
    }

    /// This view with text of its own, which no longer borrows from the
    /// line that it was parsed from.
    pub fn lifted(self) -> (r: Reconnect<'static>)
        ensures
            r@ == self@,
            r.is_owned(),
    {
        Reconnect {
            raw: lift_text(self.raw),
        }
    }
}

impl<'a> Sealed for Reconnect<'a> {

}

impl<'a> TypedMessageMarker<'a> for Reconnect<'a> {
    open spec fn accepts(kind: KindModel) -> bool {
        kind is Reconnect
    }

    open spec fn narrowed(message: MessageModel) -> Option<ReconnectModel> {
        Some(
            ReconnectModel {
                raw: message.raw,
            },
        )
    }

    open spec fn view_name() -> Seq<char> {
        "Reconnect"@
    }

    open spec fn is_borrowed(&self) -> bool {
        self.raw is Borrowed
    }

    fn is_kind(kind: &MessageKind<'_>) -> (r: bool) {
        match kind {
            MessageKind::Reconnect => true,
            _ => false,
        }
    }

    fn kind() -> (r: &'static str) {
        "Reconnect"
    }

    fn from_message(message: Message<'a>) -> (r: Result<Reconnect<'a>, Message<'a>>) {
        if !Reconnect::fits(&message) {
            return Err(message);
        }
        let Message { raw, .. } = message;
        Ok(
            Reconnect {
                raw,
            },
        )
    }

    fn from_ref<'b>(message: &'b Message<'a>) -> (r: Result<Reconnect<'a>, &'b Message<'a>>) {
        if !Reconnect::fits(message) {
            return Err(message);
        }
        Ok(
            Reconnect {
                raw: copy_text(&message.raw),
            },
        )
    }
}

} // verus!
