//! The last line of the welcome.
use std::borrow::Cow;
use vstd::prelude::*;
use crate::message::{Message, MessageModel};
use crate::message_kind::{KindModel, MessageKind};
use crate::text::{copy_text, lift_text};
use crate::typed_messages::{Sealed, TypedMessageMarker};

verus! {

/// The last line of the welcome of the server (`376`): the connection is
/// ready for use.
#[derive(Debug, PartialEq, Eq)]
pub struct Ready<'a> {
    /// The name of the connected user.
    pub name: Cow<'a, str>,
    /// The line itself.
    pub raw: Cow<'a, str>,
}

/// What the view holds, as plain text.
pub struct ReadyModel {
    pub name: Seq<char>,
    pub raw: Seq<char>,
}

impl<'a> View for Ready<'a> {
    type V = ReadyModel;

    open spec fn view(&self) -> ReadyModel {
        ReadyModel {
            name: self.name@,
            raw: self.raw@,
        }
    }
}

impl<'a> Clone for Ready<'a> {
    fn clone(&self) -> (r: Ready<'a>)
        ensures
            r@ == self@,
    {
        Ready {
            name: copy_text(&self.name),
            raw: copy_text(&self.raw),
        }
    }
}

impl<'a> Ready<'a> {
    /// Whether `message` has every part that this view needs.
    pub fn fits(message: &Message<'a>) -> (r: bool)
        ensures
            r == (Self::narrowed(message@) is Some),
    {
        assert(message@.args.len() == message.args@.len());
        message.args.len() > 0
    }

    /// Every text of this view is a text of its own: nothing is borrowed.
    pub open spec fn is_owned(&self) -> bool {
        self.name is Owned
            && self.raw is Owned
    }

    /// This view with text of its own, which no longer borrows from the
    /// line that it was parsed from.
    pub fn lifted(self) -> (r: Ready<'static>)
        ensures
            r@ == self@,
            r.is_owned(),
    {
        Ready {
            name: lift_text(self.name),
            raw: lift_text(self.raw),
        }
    }
}

impl<'a> Sealed for Ready<'a> {

}

impl<'a> TypedMessageMarker<'a> for Ready<'a> {
    open spec fn accepts(kind: KindModel) -> bool {
        kind is Ready
    }

    open spec fn narrowed(message: MessageModel) -> Option<ReadyModel> {
        if message.args.len() > 0 {
            Some(
                ReadyModel {
                    name: message.args[0],
                    raw: message.raw,
                },
            )
        } else {
            None
        }
    }

    open spec fn view_name() -> Seq<char> {
        "Ready"@
    }

    open spec fn is_borrowed(&self) -> bool {
        self.name is Borrowed
            && self.raw is Borrowed
    }

    fn is_kind(kind: &MessageKind<'_>) -> (r: bool) {
        match kind {
            MessageKind::Ready => true,
            _ => false,
        }
    }

    fn kind() -> (r: &'static str) {
        "Ready"
    }

    fn from_message(message: Message<'a>) -> (r: Result<Ready<'a>, Message<'a>>) {
        if !Ready::fits(&message) {
            return Err(message);
        }
        let Message { raw, mut args, .. } = message;
        Ok(
            Ready {
                name: args.remove(0),
                raw,
            },
        )
    }

    fn from_ref<'b>(message: &'b Message<'a>) -> (r: Result<Ready<'a>, &'b Message<'a>>) {
        if !Ready::fits(message) {
            return Err(message);
        }
        Ok(
            Ready {
                name: copy_text(&message.args[0]),
                raw: copy_text(&message.raw),
            },
        )
    }
}

} // verus!
