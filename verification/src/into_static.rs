//! Lifting a value out of the text that it was parsed from.
//!
//! What the parser hands out borrows from the line that was parsed. A value
//! that has to outlive the line is lifted: every borrowed text in it is copied
//! into a text of its own, and nothing else changes.
use std::borrow::Cow;
use vstd::prelude::*;
use vstd::string::StringExecFns;
use crate::badges::Badge;
use crate::emotes::Emote;
use crate::message::Message;
use crate::message_kind::MessageKind;
use crate::messages::{
    Capability, ClearChat, ClearChatTarget, ClearMsg, GlobalUserState, HostTarget, IrcReady, Join,
    Notice, Part, Ping, Pong, Privmsg, Ready, Reconnect, RoomState, TwitchMessage, UserNotice,
    UserState, Whisper,
};
use crate::prefix::Prefix;
use crate::tags::Tags;
use crate::text::lift_text;

verus! {

/// Marks the types that can be lifted.
pub trait Sealed {

}

impl<T: IntoStatic> Sealed for T {

}

/// A value that can be turned into one that owns all its text, and so outlives
/// the buffer that it was parsed from. The lifted value holds exactly what the
/// value held: nothing is added, dropped or brought into another form.
pub trait IntoStatic: Sized + View {
    /// The type of the lifted value.
    type Output: View<V = Self::V>;

    /// Lifts the value.
    fn into_static(self) -> (r: Self::Output)
        ensures
            r@ == self@,
    ;
}

/// Lifting what was lifted changes nothing: if `once` is what lifting `x`
/// gave and `twice` is what lifting `once` gave, the two hold the same, part by
/// part, and that is what `x` held.
pub proof fn lemma_lift_is_idempotent<T: IntoStatic>(
    x: T,
    once: T::Output,
    twice: <T::Output as IntoStatic>::Output,
) where T::Output: IntoStatic
    requires
        call_ensures(T::into_static, (x,), once),
        call_ensures(<T::Output as IntoStatic>::into_static, (once,), twice),
    ensures
        twice@ == once@,
        twice@ == x@,
{
}

impl<'a> IntoStatic for &'a str {
    type Output = Cow<'static, str>;

    /// Copies the text.
    fn into_static(self) -> (r: Cow<'static, str>)
        ensures
            r is Owned,
    {
        Cow::Owned(String::from_str(self))
    }
}

impl<'a> IntoStatic for Cow<'a, str> {
    type Output = Cow<'static, str>;

    /// Copies the text if it is borrowed; a text that owns its characters
    /// stays as it is.
    fn into_static(self) -> (r: Cow<'static, str>)
        ensures
            r is Owned,
    {
        lift_text(self)
    }
}

impl<'a, 'b> IntoStatic for &'b Message<'a> {
    type Output = Message<'static>;

    /// Lifts a copy of the value.
    fn into_static(self) -> (r: Message<'static>)
        ensures
            r.is_owned(),
    {
        self.clone().lifted()
    }
}

impl<'a, 'b> IntoStatic for &'b Tags<'a> {
    type Output = Tags<'static>;

    /// Lifts a copy of the value.
    fn into_static(self) -> (r: Tags<'static>)
        ensures
            r.is_owned(),
    {
        self.clone().lifted()
    }
}

impl<'a, 'b> IntoStatic for &'b Prefix<'a> {
    type Output = Prefix<'static>;

    /// Lifts a copy of the value.
    fn into_static(self) -> (r: Prefix<'static>)
        ensures
            r.is_owned(),
    {
        self.clone().lifted()
    }
}

impl<'a, 'b> IntoStatic for &'b MessageKind<'a> {
    type Output = MessageKind<'static>;

    /// Lifts a copy of the value.
    fn into_static(self) -> (r: MessageKind<'static>)
        ensures
            r.is_owned(),
    {
        self.clone().lifted()
    }
}

impl<'a, 'b> IntoStatic for &'b Emote<'a> {
    type Output = Emote<'static>;

    /// Lifts a copy of the value.
    fn into_static(self) -> (r: Emote<'static>)
        ensures
            r.is_owned(),
    {
        self.clone().lifted()
    }
}

impl<'a, 'b> IntoStatic for &'b Badge<'a> {
    type Output = Badge<'static>;

    /// Lifts a copy of the value.
    fn into_static(self) -> (r: Badge<'static>)
        ensures
            r.is_owned(),
    {
        self.clone().lifted()
    }
}

impl<'a> IntoStatic for Message<'a> {
    type Output = Message<'static>;

    fn into_static(self) -> (r: Message<'static>)
        ensures
            r.is_owned(),
    {
        self.lifted()
    }
}

impl<'a> IntoStatic for Tags<'a> {
    type Output = Tags<'static>;

    fn into_static(self) -> (r: Tags<'static>)
        ensures
            r.is_owned(),
    {
        self.lifted()
    }
}

impl<'a> IntoStatic for Prefix<'a> {
    type Output = Prefix<'static>;

    fn into_static(self) -> (r: Prefix<'static>)
        ensures
            r.is_owned(),
    {
        self.lifted()
    }
}

impl<'a> IntoStatic for MessageKind<'a> {
    type Output = MessageKind<'static>;

    fn into_static(self) -> (r: MessageKind<'static>)
        ensures
            r.is_owned(),
    {
        self.lifted()
    }
}

impl<'a> IntoStatic for Badge<'a> {
    type Output = Badge<'static>;

    fn into_static(self) -> (r: Badge<'static>)
        ensures
            r.is_owned(),
    {
        self.lifted()
    }
}

impl<'a> IntoStatic for Emote<'a> {
    type Output = Emote<'static>;

    fn into_static(self) -> (r: Emote<'static>)
        ensures
            r.is_owned(),
    {
        self.lifted()
    }
}

impl<'a> IntoStatic for Capability<'a> {
    type Output = Capability<'static>;

    fn into_static(self) -> (r: Capability<'static>)
        ensures
            r.is_owned(),
    {
        self.lifted()
    }
}

impl<'a> IntoStatic for ClearChat<'a> {
    type Output = ClearChat<'static>;

    fn into_static(self) -> (r: ClearChat<'static>)
        ensures
            r.is_owned(),
    {
        self.lifted()
    }
}

impl<'a> IntoStatic for ClearChatTarget<'a> {
    type Output = ClearChatTarget<'static>;

    fn into_static(self) -> (r: ClearChatTarget<'static>)
        ensures
            r.is_owned(),
    {
        self.lifted()
    }
}

impl<'a> IntoStatic for ClearMsg<'a> {
    type Output = ClearMsg<'static>;

    fn into_static(self) -> (r: ClearMsg<'static>)
        ensures
            r.is_owned(),
    {
        self.lifted()
    }
}

impl<'a> IntoStatic for GlobalUserState<'a> {
    type Output = GlobalUserState<'static>;

    fn into_static(self) -> (r: GlobalUserState<'static>)
        ensures
            r.is_owned(),
    {
        self.lifted()
    }
}

impl<'a> IntoStatic for HostTarget<'a> {
    type Output = HostTarget<'static>;

    fn into_static(self) -> (r: HostTarget<'static>)
        ensures
            r.is_owned(),
    {
        self.lifted()
    }
}

impl<'a> IntoStatic for IrcReady<'a> {
    type Output = IrcReady<'static>;

    fn into_static(self) -> (r: IrcReady<'static>)
        ensures
            r.is_owned(),
    {
        self.lifted()
    }
}

impl<'a> IntoStatic for Join<'a> {
    type Output = Join<'static>;

    fn into_static(self) -> (r: Join<'static>)
        ensures
            r.is_owned(),
    {
        self.lifted()
    }
}

impl<'a> IntoStatic for Notice<'a> {
    type Output = Notice<'static>;

    fn into_static(self) -> (r: Notice<'static>)
        ensures
            r.is_owned(),
    {
        self.lifted()
    }
}

impl<'a> IntoStatic for Part<'a> {
    type Output = Part<'static>;

    fn into_static(self) -> (r: Part<'static>)
        ensures
            r.is_owned(),
    {
        self.lifted()
    }
}

impl<'a> IntoStatic for Ping<'a> {
    type Output = Ping<'static>;

    fn into_static(self) -> (r: Ping<'static>)
        ensures
            r.is_owned(),
    {
        self.lifted()
    }
}

impl<'a> IntoStatic for Pong<'a> {
    type Output = Pong<'static>;

    fn into_static(self) -> (r: Pong<'static>)
        ensures
            r.is_owned(),
    {
        self.lifted()
    }
}

impl<'a> IntoStatic for Privmsg<'a> {
    type Output = Privmsg<'static>;

    fn into_static(self) -> (r: Privmsg<'static>)
        ensures
            r.is_owned(),
    {
        self.lifted()
    }
}

impl<'a> IntoStatic for Ready<'a> {
    type Output = Ready<'static>;

    fn into_static(self) -> (r: Ready<'static>)
        ensures
            r.is_owned(),
    {
        self.lifted()
    }
}

impl<'a> IntoStatic for Reconnect<'a> {
    type Output = Reconnect<'static>;

    fn into_static(self) -> (r: Reconnect<'static>)
        ensures
            r.is_owned(),
    {
        self.lifted()
    }
}

impl<'a> IntoStatic for RoomState<'a> {
    type Output = RoomState<'static>;

    fn into_static(self) -> (r: RoomState<'static>)
        ensures
            r.is_owned(),
    {
        self.lifted()
    }
}

impl<'a> IntoStatic for TwitchMessage<'a> {
    type Output = TwitchMessage<'static>;

    fn into_static(self) -> (r: TwitchMessage<'static>)
        ensures
            r.is_owned(),
    {
        self.lifted()
    }
}

impl<'a> IntoStatic for UserNotice<'a> {
    type Output = UserNotice<'static>;

    fn into_static(self) -> (r: UserNotice<'static>)
        ensures
            r.is_owned(),
    {
        self.lifted()
    }
}

impl<'a> IntoStatic for UserState<'a> {
    type Output = UserState<'static>;

    fn into_static(self) -> (r: UserState<'static>)
        ensures
            r.is_owned(),
    {
        self.lifted()
    }
}

impl<'a> IntoStatic for Whisper<'a> {
    type Output = Whisper<'static>;

    fn into_static(self) -> (r: Whisper<'static>)
        ensures
            r.is_owned(),
    {
        self.lifted()
    }
}

} // verus!
