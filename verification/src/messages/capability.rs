//! The answer of the server to a request for capabilities.
use std::borrow::Cow;
use vstd::pervasive::unreached;
use vstd::prelude::*;
use crate::message::{Message, MessageModel};
use crate::message_kind::{KindModel, MessageKind};
use crate::text::{as_str, copy_text, lift_text, str_eq};
use crate::typed_messages::{Sealed, TypedMessageMarker};

verus! {

/// `CAP`: the server grants or refuses a capability that was asked for.
#[derive(Debug, PartialEq, Eq)]
pub struct Capability<'a> {
    /// Whether the capability was granted (`ACK`).
    pub acknowledged: bool,
    /// The capability that was asked for.
    pub kind: Cow<'a, str>,
    /// The line itself.
    pub raw: Cow<'a, str>,
}

/// What the view holds, as plain text.
pub struct CapabilityModel {
    pub acknowledged: bool,
    pub kind: Seq<char>,
    pub raw: Seq<char>,
}

impl<'a> View for Capability<'a> {
    type V = CapabilityModel;

    open spec fn view(&self) -> CapabilityModel {
        CapabilityModel { acknowledged: self.acknowledged, kind: self.kind@, raw: self.raw@ }
    }
}

impl<'a> Clone for Capability<'a> {
    fn clone(&self) -> (r: Capability<'a>)
        ensures
            r@ == self@,
    {
        Capability {
            acknowledged: self.acknowledged,
            kind: copy_text(&self.kind),
            raw: copy_text(&self.raw),
        }
    }
}

impl<'a> Capability<'a> {
    /// Every text of this view is a text of its own: nothing is borrowed.
    pub open spec fn is_owned(&self) -> bool {
        self.kind is Owned
            && self.raw is Owned
    }

    /// This view with text of its own, which no longer borrows from the
    /// line that it was parsed from.
    pub fn lifted(self) -> (r: Capability<'static>)
        ensures
            r@ == self@,
            r.is_owned(),
    {
        Capability {
            acknowledged: self.acknowledged,
            kind: lift_text(self.kind),
            raw: lift_text(self.raw),
        }
    }

    /// Whether `message` has every part that this view needs.
    pub fn fits(message: &Message<'a>) -> (r: bool)
        ensures
            r == (Self::narrowed(message@) is Some),
    {
        assert(message@.args.len() == message.args@.len());
        message.args.len() >= 2 && message.data.is_some()
    }
}

impl<'a> Sealed for Capability<'a> {

}

impl<'a> TypedMessageMarker<'a> for Capability<'a> {
    open spec fn accepts(kind: KindModel) -> bool {
        kind is Capability
    }

    open spec fn narrowed(message: MessageModel) -> Option<CapabilityModel> {
        if message.args.len() >= 2 && message.data is Some {
            Some(
                CapabilityModel {
                    acknowledged: message.args[1] == "ACK"@,
                    kind: message.data->0,
                    raw: message.raw,
                },
            )
        } else {
            None
        }
    }

    open spec fn is_borrowed(&self) -> bool {
        self.kind is Borrowed
            && self.raw is Borrowed
    }

    open spec fn view_name() -> Seq<char> {
        "Capability"@
    }

    fn is_kind(kind: &MessageKind<'_>) -> (r: bool) {
        match kind {
            MessageKind::Capability => true,
            _ => false,
        }
    }

    fn kind() -> (r: &'static str) {
        "Capability"
    }

    fn from_message(message: Message<'a>) -> (r: Result<Capability<'a>, Message<'a>>) {
        if !Capability::fits(&message) {
            return Err(message);
        }
        let acknowledged = str_eq(as_str(&message.args[1]), "ACK");
        let Message { raw, data, .. } = message;
        Ok(Capability { acknowledged, kind: data.unwrap(), raw })
    }

    fn from_ref<'b>(message: &'b Message<'a>) -> (r: Result<Capability<'a>, &'b Message<'a>>) {
        if !Capability::fits(message) {
            return Err(message);
        }
        Ok(
            Capability {
                acknowledged: str_eq(as_str(&message.args[1]), "ACK"),
                kind: match &message.data {
                    Some(text) => copy_text(text),
                    None => unreached(),
                },
                raw: copy_text(&message.raw),
            },
        )
    }
}

} // verus!
