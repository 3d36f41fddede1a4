//! The answer to a ping.
use std::borrow::Cow;
use vstd::pervasive::unreached;
use vstd::prelude::*;
use crate::message::{Message, MessageModel};
use crate::message_kind::{KindModel, MessageKind};
use crate::text::{copy_text, lift_text};
use crate::typed_messages::{Sealed, TypedMessageMarker};

verus! {

/// The answer to a `PING`.
#[derive(Debug, PartialEq, Eq)]
pub struct Pong<'a> {
    /// The token of the `PING` that this answers.
    pub token: Cow<'a, str>,
    /// The line itself.
    pub raw: Cow<'a, str>,
}

/// What the view holds, as plain text.
pub struct PongModel {
    pub token: Seq<char>,
    pub raw: Seq<char>,
}

impl<'a> View for Pong<'a> {
    type V = PongModel;

    open spec fn view(&self) -> PongModel {
        PongModel {
            token: self.token@,
            raw: self.raw@,
        }
    }
}

impl<'a> Clone for Pong<'a> {
    fn clone(&self) -> (r: Pong<'a>)
        ensures
            r@ == self@,
    {
        Pong {
            token: copy_text(&self.token),
            raw: copy_text(&self.raw),
        }
    }
}

impl<'a> Pong<'a> {
    /// Whether `message` has every part that this view needs.
    pub fn fits(message: &Message<'a>) -> (r: bool)
        ensures
            r == (Self::narrowed(message@) is Some),
    {
        message.data.is_some()
    }

    /// Every text of this view is a text of its own: nothing is borrowed.
    pub open spec fn is_owned(&self) -> bool {
        self.token is Owned
            && self.raw is Owned
    }

    /// This view with text of its own, which no longer borrows from the
    /// line that it was parsed from.
    pub fn lifted(self) -> (r: Pong<'static>)
        ensures
            r@ == self@,
            r.is_owned(),
    {
        Pong {
            token: lift_text(self.token),
            raw: lift_text(self.raw),
        }
    }
}

impl<'a> Sealed for Pong<'a> {

}

impl<'a> TypedMessageMarker<'a> for Pong<'a> {
    open spec fn accepts(kind: KindModel) -> bool {
        kind is Pong
    }

    open spec fn narrowed(message: MessageModel) -> Option<PongModel> {
        if message.data is Some {
            Some(
                PongModel {
                    token: message.data->0,
                    raw: message.raw,
                },
            )
        } else {
            None
        }
    }

    open spec fn view_name() -> Seq<char> {
        "Pong"@
    }

    open spec fn is_borrowed(&self) -> bool {
        self.token is Borrowed
            && self.raw is Borrowed
    }

    fn is_kind(kind: &MessageKind<'_>) -> (r: bool) {
        match kind {
            MessageKind::Pong => true,
            _ => false,
        }
    }

    fn kind() -> (r: &'static str) {
        "Pong"
    }

    fn from_message(message: Message<'a>) -> (r: Result<Pong<'a>, Message<'a>>) {
        if !Pong::fits(&message) {
            return Err(message);
        }
        let Message { raw, data, .. } = message;
        Ok(
            Pong {
                token: data.unwrap(),
                raw,
            },
        )
    }

    fn from_ref<'b>(message: &'b Message<'a>) -> (r: Result<Pong<'a>, &'b Message<'a>>) {
        if !Pong::fits(message) {
            return Err(message);
        }
        Ok(
            Pong {
                token: match &message.data {
                    Some(text) => copy_text(text),
                    None => unreached(),
                },
                raw: copy_text(&message.raw),
            },
        )
    }
}

} // verus!
