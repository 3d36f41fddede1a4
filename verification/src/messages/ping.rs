//! The ping of the server.
use std::borrow::Cow;
use vstd::pervasive::unreached;
use vstd::prelude::*;
use crate::message::{Message, MessageModel};
use crate::message_kind::{KindModel, MessageKind};
use crate::text::{copy_text, lift_text};
use crate::typed_messages::{Sealed, TypedMessageMarker};

verus! {

/// Tests the presence of a connection. The answer to a `PING` is a `PONG`
/// with the same token.
#[derive(Debug, PartialEq, Eq)]
pub struct Ping<'a> {
    /// The token that the answer has to carry.
    pub token: Cow<'a, str>,
    /// The line itself.
    pub raw: Cow<'a, str>,
}

/// What the view holds, as plain text.
pub struct PingModel {
    pub token: Seq<char>,
    pub raw: Seq<char>,
}

impl<'a> View for Ping<'a> {
    type V = PingModel;

    open spec fn view(&self) -> PingModel {
        PingModel {
            token: self.token@,
            raw: self.raw@,
        }
    }
}

impl<'a> Clone for Ping<'a> {
    fn clone(&self) -> (r: Ping<'a>)
        ensures
            r@ == self@,
    {
        Ping {
            token: copy_text(&self.token),
            raw: copy_text(&self.raw),
        }
    }
}

impl<'a> Ping<'a> {
    /// Whether `message` has every part that this view needs.
    pub fn fits(message: &Message<'a>) -> (r: bool)
        ensures
            r == (Self::narrowed(message@) is Some),
    {
        message.data.is_some()
    }

    /// Every text of this view is a text of its own: nothing is borrowed.
    pub open spec fn is_owned(&self) -> bool {
        self.token is Owned
            && self.raw is Owned
    }

    /// This view with text of its own, which no longer borrows from the
    /// line that it was parsed from.
    pub fn lifted(self) -> (r: Ping<'static>)
        ensures
            r@ == self@,
            r.is_owned(),
    {
        Ping {
            token: lift_text(self.token),
            raw: lift_text(self.raw),
        }
    }
}

impl<'a> Sealed for Ping<'a> {

}

impl<'a> TypedMessageMarker<'a> for Ping<'a> {
    open spec fn accepts(kind: KindModel) -> bool {
        kind is Ping
    }

    open spec fn narrowed(message: MessageModel) -> Option<PingModel> {
        if message.data is Some {
            Some(
                PingModel {
                    token: message.data->0,
                    raw: message.raw,
                },
            )
        } else {
            None
        }
    }

    open spec fn view_name() -> Seq<char> {
        "Ping"@
    }

    open spec fn is_borrowed(&self) -> bool {
        self.token is Borrowed
            && self.raw is Borrowed
    }

    fn is_kind(kind: &MessageKind<'_>) -> (r: bool) {
        match kind {
            MessageKind::Ping => true,
            _ => false,
        }
    }

    fn kind() -> (r: &'static str) {
        "Ping"
    }

    fn from_message(message: Message<'a>) -> (r: Result<Ping<'a>, Message<'a>>) {
        if !Ping::fits(&message) {
            return Err(message);
        }
        let Message { raw, data, .. } = message;
        Ok(
            Ping {
                token: data.unwrap(),
                raw,
            },
        )
    }

    fn from_ref<'b>(message: &'b Message<'a>) -> (r: Result<Ping<'a>, &'b Message<'a>>) {
        if !Ping::fits(message) {
            return Err(message);
        }
        Ok(
            Ping {
                token: match &message.data {
                    Some(text) => copy_text(text),
                    None => unreached(),
                },
                raw: copy_text(&message.raw),
            },
        )
    }
}

} // verus!
