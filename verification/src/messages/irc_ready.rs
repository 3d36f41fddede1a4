//! The first line of the welcome.
use std::borrow::Cow;
use vstd::prelude::*;
use crate::message::{Message, MessageModel};
use crate::message_kind::{KindModel, MessageKind};
use crate::text::{copy_text, lift_text};
use crate::typed_messages::{Sealed, TypedMessageMarker};

verus! {

/// The first line of the welcome of the server (`001`).
#[derive(Debug, PartialEq, Eq)]
pub struct IrcReady<'a> {
    /// The name of the connected user.
    pub name: Cow<'a, str>,
    /// The line itself.
    pub raw: Cow<'a, str>,
}

/// What the view holds, as plain text.
pub struct IrcReadyModel {
    pub name: Seq<char>,
    pub raw: Seq<char>,
}

impl<'a> View for IrcReady<'a> {
    type V = IrcReadyModel;

    open spec fn view(&self) -> IrcReadyModel {
        IrcReadyModel {
            name: self.name@,
            raw: self.raw@,
        }
    }
}

impl<'a> Clone for IrcReady<'a> {
    fn clone(&self) -> (r: IrcReady<'a>)
        ensures
            r@ == self@,
    {
        IrcReady {
            name: copy_text(&self.name),
            raw: copy_text(&self.raw),
        }
    }
}

impl<'a> IrcReady<'a> {
    /// Whether `message` has every part that this view needs.
    pub fn fits(message: &Message<'a>) -> (r: bool)
        ensures
            r == (Self::narrowed(message@) is Some),
    {
        assert(message@.args.len() == message.args@.len());
        message.args.len() > 0
    }

    /// Every text of this view is a text of its own: nothing is borrowed.
    pub open spec fn is_owned(&self) -> bool {
        self.name is Owned
            && self.raw is Owned
    }

    /// This view with text of its own, which no longer borrows from the
    /// line that it was parsed from.
    pub fn lifted(self) -> (r: IrcReady<'static>)
        ensures
            r@ == self@,
            r.is_owned(),
    {
        IrcReady {
            name: lift_text(self.name),
            raw: lift_text(self.raw),
        }
    }
}

impl<'a> Sealed for IrcReady<'a> {

}

impl<'a> TypedMessageMarker<'a> for IrcReady<'a> {
    open spec fn accepts(kind: KindModel) -> bool {
        kind is IrcReady
    }

    open spec fn narrowed(message: MessageModel) -> Option<IrcReadyModel> {
        if message.args.len() > 0 {
            Some(
                IrcReadyModel {
                    name: message.args[0],
                    raw: message.raw,
                },
            )
        } else {
            None
        }
    }

    open spec fn view_name() -> Seq<char> {
        "IrcReady"@
    }

    open spec fn is_borrowed(&self) -> bool {
        self.name is Borrowed
            && self.raw is Borrowed
    }

    fn is_kind(kind: &MessageKind<'_>) -> (r: bool) {
        match kind {
            MessageKind::IrcReady => true,
            _ => false,
        }
    }

    fn kind() -> (r: &'static str) {
        "IrcReady"
    }

    fn from_message(message: Message<'a>) -> (r: Result<IrcReady<'a>, Message<'a>>) {
        if !IrcReady::fits(&message) {
            return Err(message);
        }
        let Message { raw, mut args, .. } = message;
        Ok(
            IrcReady {
                name: args.remove(0),
                raw,
            },
        )
    }

    fn from_ref<'b>(message: &'b Message<'a>) -> (r: Result<IrcReady<'a>, &'b Message<'a>>) {
        if !IrcReady::fits(message) {
            return Err(message);
        }
        Ok(
            IrcReady {
                name: copy_text(&message.args[0]),
                raw: copy_text(&message.raw),
            },
        )
    }
}

} // verus!
