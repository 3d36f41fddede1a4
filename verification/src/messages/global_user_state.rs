//! The state of the user on the whole server.
use std::borrow::Cow;
use vstd::prelude::*;
use crate::badges::{badge_models, tag_badges, Badge};
use crate::color::Color;
use crate::message::{Message, MessageModel};
use crate::message_kind::{KindModel, MessageKind};
use crate::messages::user_type::{list_of, tag_list, tag_user_type, UserType};
use crate::tags::{tag_color, tag_flag, tag_value, Tags};
use crate::text::{copy_text, lift_text, opt_str, strs};
use crate::typed_messages::{Sealed, TypedMessageMarker};

verus! {

/// `GLOBALUSERSTATE`: what the server knows of the user, sent after the
/// login.
#[derive(Debug, PartialEq, Eq)]
pub struct GlobalUserState<'a> {
    /// Metadata attached to the message.
    pub tags: Tags<'a>,
    /// The line itself.
    pub raw: Cow<'a, str>,
}

/// What the view holds, as plain text.
pub struct GlobalUserStateModel {
    pub tags: Map<Seq<char>, Seq<char>>,
    pub raw: Seq<char>,
}

impl<'a> View for GlobalUserState<'a> {
    type V = GlobalUserStateModel;

    open spec fn view(&self) -> GlobalUserStateModel {
        GlobalUserStateModel {
            tags: self.tags@,
            raw: self.raw@,
        }
    }
}

impl<'a> Clone for GlobalUserState<'a> {
    fn clone(&self) -> (r: GlobalUserState<'a>)
        ensures
            r@ == self@,
    {
        GlobalUserState {
            tags: self.tags.clone(),
            raw: copy_text(&self.raw),
        }
    }
}

impl<'a> GlobalUserState<'a> {
    /// Whether `message` has every part that this view needs.
    pub fn fits(message: &Message<'a>) -> (r: bool)
        ensures
            r == (Self::narrowed(message@) is Some),
    {
        true
    }

    /// Metadata of the badges, such as the number of months of a
    /// subscription.
    pub fn badge_info(&self) -> (r: Vec<Badge<'_>>)
        ensures
            badge_models(r@) == tag_badges(self.tags@, "badge-info"@),
    {
        Badge::from_tag(&self.tags, "badge-info")
    }

    /// The badges of the user.
    pub fn badges(&self) -> (r: Vec<Badge<'_>>)
        ensures
            badge_models(r@) == tag_badges(self.tags@, "badges"@),
    {
        Badge::from_tag(&self.tags, "badges")
    }

    /// The colour of the name of the user.
    pub fn color(&self) -> (r: Option<Color>)
        ensures
            r == tag_color(self.tags@),
    {
        self.tags.color()
    }

    /// The name of the user as it is shown.
    pub fn display_name(&self) -> (r: Option<&str>)
        ensures
            opt_str(r) == tag_value(self.tags@, "display-name"@),
    {
        self.tags.get("display-name")
    }

    /// The emote sets that the user may use.
    pub fn emote_sets(&self) -> (r: Vec<&str>)
        ensures
            strs(r@) == tag_list(self.tags@, "emote-sets"@),
    {
        list_of(&self.tags, "emote-sets")
    }

    /// Whether the user has Turbo.
    pub fn is_turbo(&self) -> (r: bool)
        ensures
            r == tag_flag(self.tags@, "turbo"@),
    {
        self.tags.bool("turbo")
    }

    /// The id of the user.
    pub fn user_id(&self) -> (r: Option<&str>)
        ensures
            opt_str(r) == tag_value(self.tags@, "user-id"@),
    {
        self.tags.get("user-id")
    }

    /// The type of the user.
    pub fn user_type(&self) -> (r: UserType)
        ensures
            r == tag_user_type(self.tags@),
    {
        UserType::from_tags(&self.tags)
    }

    /// Every text of this view is a text of its own: nothing is borrowed.
    pub open spec fn is_owned(&self) -> bool {
        self.tags.is_owned()
            && self.raw is Owned
    }

    /// This view with text of its own, which no longer borrows from the
    /// line that it was parsed from.
    pub fn lifted(self) -> (r: GlobalUserState<'static>)
        ensures
            r@ == self@,
            r.is_owned(),
    {
        GlobalUserState {
            tags: self.tags.lifted(),
            raw: lift_text(self.raw),
        }
    }
}

impl<'a> Sealed for GlobalUserState<'a> {

}

impl<'a> TypedMessageMarker<'a> for GlobalUserState<'a> {
    open spec fn accepts(kind: KindModel) -> bool {
        kind is GlobalUserState
    }

    open spec fn narrowed(message: MessageModel) -> Option<GlobalUserStateModel> {
        Some(
            GlobalUserStateModel {
                tags: message.tags,
                raw: message.raw,
            },
        )
    }

    open spec fn view_name() -> Seq<char> {
        "GlobalUserState"@
    }

    open spec fn is_borrowed(&self) -> bool {
        self.raw is Borrowed
    }

    fn is_kind(kind: &MessageKind<'_>) -> (r: bool) {
        match kind {
            MessageKind::GlobalUserState => true,
            _ => false,
        }
    }

    fn kind() -> (r: &'static str) {
        "GlobalUserState"
    }

    fn from_message(message: Message<'a>) -> (r: Result<GlobalUserState<'a>, Message<'a>>) {
        if !GlobalUserState::fits(&message) {
            return Err(message);
        }
        let Message { raw, tags, .. } = message;
        Ok(
            GlobalUserState {
                tags,
                raw,
            },
        )
    }

    fn from_ref<'b>(message: &'b Message<'a>) -> (r: Result<GlobalUserState<'a>, &'b Message<'a>>) {
        if !GlobalUserState::fits(message) {
            return Err(message);
        }
        Ok(
            GlobalUserState {
                tags: message.tags.clone(),
                raw: copy_text(&message.raw),
            },
        )
    }
}

} // verus!
