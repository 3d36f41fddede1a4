//! Events in a channel.
use std::borrow::Cow;
use vstd::prelude::*;
use crate::badges::{badge_models, tag_badges, Badge};
use crate::color::Color;
use crate::emotes::{emote_models, tag_emotes, Emote};
use crate::message::{Message, MessageModel};
use crate::message_kind::{KindModel, MessageKind};
use crate::messages::user_notice_id::UserNoticeId;
use crate::messages::user_type::{tag_user_type, UserType};
use crate::tags::{tag_color, tag_flag, tag_value, Tags};
use crate::text::{as_str, copy_opt, copy_text, lift_opt, lift_text, opt_str, opt_text};
use crate::typed_messages::{Sealed, TypedMessageMarker};

verus! {

/// `USERNOTICE`: an event in a channel, such as a subscription or a raid.
#[derive(Debug, PartialEq, Eq)]
pub struct UserNotice<'a> {
    /// The line itself.
    pub raw: Cow<'a, str>,
    /// Metadata attached to the message.
    pub tags: Tags<'a>,
    /// The channel in which the event took place.
    pub channel: Cow<'a, str>,
    /// The text that the user added to the event, if any.
    pub data: Option<Cow<'a, str>>,
}

/// What the view holds, as plain text.
pub struct UserNoticeModel {
    pub raw: Seq<char>,
    pub tags: Map<Seq<char>, Seq<char>>,
    pub channel: Seq<char>,
    pub data: Option<Seq<char>>,
}

impl<'a> View for UserNotice<'a> {
    type V = UserNoticeModel;

    open spec fn view(&self) -> UserNoticeModel {
        UserNoticeModel {
            raw: self.raw@,
            tags: self.tags@,
            channel: self.channel@,
            data: opt_text(self.data),
        }
    }
}

impl<'a> Clone for UserNotice<'a> {
    fn clone(&self) -> (r: UserNotice<'a>)
        ensures
            r@ == self@,
    {
        UserNotice {
            raw: copy_text(&self.raw),
            tags: self.tags.clone(),
            channel: copy_text(&self.channel),
            data: copy_opt(&self.data),
        }
    }
}

impl<'a> UserNotice<'a> {
    /// Whether `message` has every part that this view needs.
    pub fn fits(message: &Message<'a>) -> (r: bool)
        ensures
            r == (Self::narrowed(message@) is Some),
    {
        assert(message@.args.len() == message.args@.len());
        message.args.len() > 0
    }

    /// Metadata of the badges, such as the number of months of a
    /// subscription.
    pub fn badge_info(&self) -> (r: Vec<Badge<'_>>)
        ensures
            badge_models(r@) == tag_badges(self.tags@, "badge-info"@),
    {
        Badge::from_tag(&self.tags, "badge-info")
    }

    /// The badges of the user.
    pub fn badges(&self) -> (r: Vec<Badge<'_>>)
        ensures
            badge_models(r@) == tag_badges(self.tags@, "badges"@),
    {
        Badge::from_tag(&self.tags, "badges")
    }

    /// The emotes in the text that the user added.
    pub fn emotes(&self) -> (r: Vec<Emote<'_>>)
        ensures
            emote_models(r@) == match self.data {
                Some(data) => tag_emotes(self.tags@, data@),
                None => Seq::empty(),
            },
    {
        match &self.data {
            Some(data) => Emote::from_tags(&self.tags, as_str(data)),
            None => {
                let out: Vec<Emote<'_>> = Vec::new();
                assert(emote_models(out@) =~= Seq::empty());
                out
            },
        }
    }

    /// The colour of the name of the user.
    pub fn color(&self) -> (r: Option<Color>)
        ensures
            r == tag_color(self.tags@),
    {
        self.tags.color()
    }

    /// The name of the user as it is shown.
    pub fn display_name(&self) -> (r: Option<&str>)
        ensures
            opt_str(r) == tag_value(self.tags@, "display-name"@),
    {
        self.tags.get("display-name")
    }

    /// The sentence that the chat shows for the event.
    pub fn system_msg(&self) -> (r: Option<&str>)
        ensures
            opt_str(r) == tag_value(self.tags@, "system-msg"@),
    {
        self.tags.get("system-msg")
    }

    /// Whether the user is a moderator of the channel.
    pub fn is_moderator(&self) -> (r: bool)
        ensures
            r == tag_flag(self.tags@, "mod"@),
    {
        self.tags.bool("mod")
    }

    /// Whether the user is a subscriber of the channel.
    pub fn is_subscriber(&self) -> (r: bool)
        ensures
            r == tag_flag(self.tags@, "subscriber"@),
    {
        self.tags.bool("subscriber")
    }

    /// Whether the user has Turbo.
    pub fn is_turbo(&self) -> (r: bool)
        ensures
            r == tag_flag(self.tags@, "turbo"@),
    {
        self.tags.bool("turbo")
    }

    /// The login name of the user.
    pub fn login(&self) -> (r: Option<&str>)
        ensures
            opt_str(r) == tag_value(self.tags@, "login"@),
    {
        self.tags.get("login")
    }

    /// The id of the message.
    pub fn id(&self) -> (r: Option<&str>)
        ensures
            opt_str(r) == tag_value(self.tags@, "id"@),
    {
        self.tags.get("id")
    }

    /// The kind of event.
    pub fn msg_id(&self) -> (r: Option<UserNoticeId>)
        ensures
            r == match tag_value(self.tags@, "msg-id"@) {
                Some(id) => Some(UserNoticeId::of_id(id)),
                None => None,
            },
    {
        match self.tags.get("msg-id") {
            Some(id) => Some(UserNoticeId::parse(id)),
            None => None,
        }
    }

    /// The id of the channel.
    pub fn room_id(&self) -> (r: Option<&str>)
        ensures
            opt_str(r) == tag_value(self.tags@, "room_id"@),
    {
        self.tags.get("room_id")
    }

    /// The id of the user.
    pub fn user_id(&self) -> (r: Option<&str>)
        ensures
            opt_str(r) == tag_value(self.tags@, "user-id"@),
    {
        self.tags.get("user-id")
    }

    /// The time of the event, as a UNIX timestamp.
    pub fn tmi_sent_ts(&self) -> (r: Option<&str>)
        ensures
            opt_str(r) == tag_value(self.tags@, "tmi-sent-ts"@),
    {
        self.tags.get("tmi-sent-ts")
    }

    /// The type of the user.
    pub fn user_type(&self) -> (r: UserType)
        ensures
            r == tag_user_type(self.tags@),
    {
        UserType::from_tags(&self.tags)
    }

    /// For how many months in all the user has subscribed.
    pub fn msg_param_cumulative_months(&self) -> (r: Option<&str>)
        ensures
            opt_str(r) == tag_value(self.tags@, "msg-param-cumulative-months"@),
    {
        self.tags.get("msg-param-cumulative-months")
    }

    /// The name, as it is shown, of the channel that raids.
    pub fn msg_param_display_name(&self) -> (r: Option<&str>)
        ensures
            opt_str(r) == match tag_value(self.tags@, "msg-param-displayName"@) {
                Some(v) => Some(v),
                None => tag_value(self.tags@, "msg-param-display-name"@),
            },
    {
        match self.tags.get("msg-param-displayName") {
            Some(v) => Some(v),
            None => self.tags.get("msg-param-display-name"),
        }
    }

    /// The login name of the channel that raids.
    pub fn msg_param_login(&self) -> (r: Option<&str>)
        ensures
            opt_str(r) == tag_value(self.tags@, "msg-param-login"@),
    {
        self.tags.get("msg-param-login")
    }

    /// For how many months in all the receiver of a gift has subscribed.
    pub fn msg_param_months(&self) -> (r: Option<&str>)
        ensures
            opt_str(r) == tag_value(self.tags@, "msg-param-months"@),
    {
        self.tags.get("msg-param-months")
    }

    /// How many gifts were given during a promotion.
    pub fn msg_param_promo_gift_total(&self) -> (r: Option<&str>)
        ensures
            opt_str(r) == tag_value(self.tags@, "msg-param-promo-gift-total"@),
    {
        self.tags.get("msg-param-promo-gift-total")
    }

    /// The name of the promotion during which a gift was given.
    pub fn msg_param_promo_name(&self) -> (r: Option<&str>)
        ensures
            opt_str(r) == tag_value(self.tags@, "msg-param-promo-name"@),
    {
        self.tags.get("msg-param-promo-name")
    }

    /// The name, as it is shown, of the receiver of a gift.
    pub fn msg_param_recipient_display_name(&self) -> (r: Option<&str>)
        ensures
            opt_str(r) == tag_value(self.tags@, "msg-param-recipient-display-name"@),
    {
        self.tags.get("msg-param-recipient-display-name")
    }

    /// The id of the receiver of a gift.
    pub fn msg_param_recipient_id(&self) -> (r: Option<&str>)
        ensures
            opt_str(r) == tag_value(self.tags@, "msg-param-recipient-id"@),
    {
        self.tags.get("msg-param-recipient-id")
    }

    /// The login name of the receiver of a gift.
    pub fn msg_param_recipient_user_name(&self) -> (r: Option<&str>)
        ensures
            opt_str(r) == tag_value(self.tags@, "msg-param-recipient-user-name"@),
    {
        self.tags.get("msg-param-recipient-user-name")
    }

    /// The login name of the user who gave the subscription that is
    /// continued.
    pub fn msg_param_sender_login(&self) -> (r: Option<&str>)
        ensures
            opt_str(r) == tag_value(self.tags@, "msg-param-sender-login"@),
    {
        self.tags.get("msg-param-sender-login")
    }

    /// The name, as it is shown, of the user who gave the subscription that
    /// is continued.
    pub fn msg_param_sender_name(&self) -> (r: Option<&str>)
        ensures
            opt_str(r) == tag_value(self.tags@, "msg-param-sender-name"@),
    {
        self.tags.get("msg-param-sender-name")
    }

    /// Whether the user wants the streak to be shown.
    pub fn msg_param_should_share_streak(&self) -> (r: Option<&str>)
        ensures
            opt_str(r) == tag_value(self.tags@, "msg-param-should-share-streak"@),
    {
        self.tags.get("msg-param-should-share-streak")
    }

    /// For how many months in a row the user has subscribed.
    pub fn msg_param_streak_months(&self) -> (r: Option<&str>)
        ensures
            opt_str(r) == tag_value(self.tags@, "msg-param-streak-months"@),
    {
        self.tags.get("msg-param-streak-months")
    }

    /// The plan of the subscription.
    pub fn msg_param_sub_plan(&self) -> (r: Option<&str>)
        ensures
            opt_str(r) == tag_value(self.tags@, "msg-param-sub-plan"@),
    {
        self.tags.get("msg-param-sub-plan")
    }

    /// The name of the plan of the subscription as it is shown.
    pub fn msg_param_sub_plan_name(&self) -> (r: Option<&str>)
        ensures
            opt_str(r) == tag_value(self.tags@, "msg-param-sub-plan-name"@),
    {
        self.tags.get("msg-param-sub-plan-name")
    }

    /// How many viewers come with a raid.
    pub fn msg_param_viewer_count(&self) -> (r: Option<&str>)
        ensures
            opt_str(r) == tag_value(self.tags@, "msg-param-viewerCount"@),
    {
        self.tags.get("msg-param-viewerCount")
    }

    /// The name of the ritual.
    pub fn msg_param_ritual_name(&self) -> (r: Option<&str>)
        ensures
            opt_str(r) == tag_value(self.tags@, "msg-param-ritual-name"@),
    {
        self.tags.get("msg-param-ritual-name")
    }

    /// The tier of the bits badge that the user has earned.
    pub fn msg_param_threshold(&self) -> (r: Option<&str>)
        ensures
            opt_str(r) == tag_value(self.tags@, "msg-param-threshold"@),
    {
        self.tags.get("msg-param-threshold")
    }

    /// How many months a gift pays for.
    pub fn msg_param_gift_months(&self) -> (r: Option<&str>)
        ensures
            opt_str(r) == tag_value(self.tags@, "msg-param-gift-months"@),
    {
        self.tags.get("msg-param-gift-months")
    }

    /// The domain of the rewards that are handed out.
    pub fn msg_param_domain(&self) -> (r: Option<&str>)
        ensures
            opt_str(r) == tag_value(self.tags@, "msg-param-domain"@),
    {
        self.tags.get("msg-param-domain")
    }

    /// What caused rewards to be handed out.
    pub fn msg_param_trigger_type(&self) -> (r: Option<&str>)
        ensures
            opt_str(r) == tag_value(self.tags@, "msg-param-trigger-type"@),
    {
        self.tags.get("msg-param-trigger-type")
    }

    /// How many users get a reward.
    pub fn msg_param_selected_count(&self) -> (r: Option<&str>)
        ensures
            opt_str(r) == tag_value(self.tags@, "msg-param-selected-count"@),
    {
        self.tags.get("msg-param-selected-count")
    }

    /// How many rewards are handed out in all.
    pub fn msg_param_total_reward_count(&self) -> (r: Option<&str>)
        ensures
            opt_str(r) == tag_value(self.tags@, "msg-param-total-reward-count"@),
    {
        self.tags.get("msg-param-total-reward-count")
    }

    /// How much of what caused them the rewards answer.
    pub fn msg_param_trigger_amount(&self) -> (r: Option<&str>)
        ensures
            opt_str(r) == tag_value(self.tags@, "msg-param-trigger-amount"@),
    {
        self.tags.get("msg-param-trigger-amount")
    }

    /// Every text of this view is a text of its own: nothing is borrowed.
    pub open spec fn is_owned(&self) -> bool {
        self.raw is Owned
            && self.tags.is_owned()
            && self.channel is Owned
            && (self.data matches Some(text) ==> text is Owned)
    }

    /// This view with text of its own, which no longer borrows from the
    /// line that it was parsed from.
    pub fn lifted(self) -> (r: UserNotice<'static>)
        ensures
            r@ == self@,
            r.is_owned(),
    {
        UserNotice {
            raw: lift_text(self.raw),
            tags: self.tags.lifted(),
            channel: lift_text(self.channel),
            data: lift_opt(self.data),
        }
    }
}

impl<'a> Sealed for UserNotice<'a> {

}

impl<'a> TypedMessageMarker<'a> for UserNotice<'a> {
    open spec fn accepts(kind: KindModel) -> bool {
        kind is UserNotice
    }

    open spec fn narrowed(message: MessageModel) -> Option<UserNoticeModel> {
        if message.args.len() > 0 {
            Some(
                UserNoticeModel {
                    raw: message.raw,
                    tags: message.tags,
                    channel: message.args[0],
                    data: message.data,
                },
            )
        } else {
            None
        }
    }

    open spec fn view_name() -> Seq<char> {
        "UserNotice"@
    }

    open spec fn is_borrowed(&self) -> bool {
        self.raw is Borrowed
            && self.channel is Borrowed
            && (self.data matches Some(text) ==> text is Borrowed)
    }

    fn is_kind(kind: &MessageKind<'_>) -> (r: bool) {
        match kind {
            MessageKind::UserNotice => true,
            _ => false,
        }
    }

    fn kind() -> (r: &'static str) {
        "UserNotice"
    }

    fn from_message(message: Message<'a>) -> (r: Result<UserNotice<'a>, Message<'a>>) {
        if !UserNotice::fits(&message) {
            return Err(message);
        }
        let Message { raw, tags, mut args, data, .. } = message;
        Ok(
            UserNotice {
                raw,
                tags,
                channel: args.remove(0),
                data,
            },
        )
    }

    fn from_ref<'b>(message: &'b Message<'a>) -> (r: Result<UserNotice<'a>, &'b Message<'a>>) {
        if !UserNotice::fits(message) {
            return Err(message);
        }
        Ok(
            UserNotice {
                raw: copy_text(&message.raw),
                tags: message.tags.clone(),
                channel: copy_text(&message.args[0]),
                data: copy_opt(&message.data),
            },
        )
    }
}

} // verus!
