//! What the typed views of a message have in common.
use vstd::prelude::*;
use crate::message::{Message, MessageModel};
use crate::message_kind::{KindModel, MessageKind};

verus! {

/// Marks the types that this crate narrows a message to.
pub trait Sealed {

}

/// A typed view of a message: a narrower shape that a message of the right
/// kind, with the right parts, can be turned into.
pub trait TypedMessageMarker<'a>: Sized + View + Sealed {
    /// Whether a message of kind `kind` is meant for this view.
    spec fn accepts(kind: KindModel) -> bool;

    /// What this view holds of `message`; `None` where the message lacks a part
    /// that the view needs. The kind of the message plays no part in this.
    spec fn narrowed(message: MessageModel) -> Option<Self::V>;

    /// The name of this view.
    spec fn view_name() -> Seq<char>;

    /// No text of this view is a copy: every text is a borrowed piece. (The
    /// tags are left out, as they are for a message.)
    spec fn is_borrowed(&self) -> bool;

    /// Whether a message of kind `kind` is meant for this view.
    fn is_kind(kind: &MessageKind<'_>) -> (r: bool)
        ensures
            r == Self::accepts(kind@),
    ;

    /// The name of this view.
    fn kind() -> (r: &'static str)
        ensures
            r@ == Self::view_name(),
    ;

    /// Turns `message` into this view, moving its parts: no text is copied, so
    /// that the view of a message that borrows its text borrows it too. A
    /// message that lacks a part comes back as it was.
    fn from_message(message: Message<'a>) -> (r: Result<Self, Message<'a>>)
        ensures
            r matches Ok(view) ==> Self::narrowed(message@) == Some(view@),
            r matches Ok(view) ==> (message.is_borrowed() ==> view.is_borrowed()),
            r matches Err(back) ==> Self::narrowed(message@) is None && back == message,
    ;

    /// Makes this view of `message`, which stays as it is: the view gets
    /// handles of its own on the parts that it needs, and a text that the
    /// message borrows is borrowed by the view too, not copied. Where the
    /// message lacks a part, the reference comes back.
    fn from_ref<'b>(message: &'b Message<'a>) -> (r: Result<Self, &'b Message<'a>>)
        ensures
            r matches Ok(view) ==> Self::narrowed(message@) == Some(view@),
            r matches Ok(view) ==> (message.is_borrowed() ==> view.is_borrowed()),
            r matches Err(back) ==> Self::narrowed(message@) is None && back == message,
    ;
}

} // verus!
