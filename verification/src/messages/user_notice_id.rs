//! What the events of a channel are.
use vstd::prelude::*;
use crate::text::str_eq;

verus! {

/// What an event in a channel is, as its `msg-id` tag names it.
#[derive(Copy, Clone, Debug, PartialEq, Eq, Structural, PartialOrd, Ord, Hash)]
pub enum UserNoticeId {
    /// `sub`: A user subscribes.
    Sub,
    /// `resub`: A user continues a subscription.
    Resub,
    /// `subgift`: A user gives a subscription to another.
    Subgift,
    /// `submysterygift`: A user gives subscriptions to the channel at large.
    SubMysteryGift,
    /// `giftpaidupgrade`: A user continues a subscription that was a gift.
    GiftPaidUpgrade,
    /// `rewardgift`: Rewards are handed out.
    RewardGift,
    /// `anongiftpaidupgrade`: A user continues a subscription that was a gift of someone unnamed.
    AnonGiftPaidUpgrade,
    /// `raid`: Another channel raids this one.
    Raid,
    /// `unraid`: A raid is called off.
    Unraid,
    /// `ritual`: A ritual, such as that of a new chatter.
    Ritual,
    /// `bitsbadgetier`: A user earns a new tier of the bits badge.
    BitsBadgeTier,
    /// Any identifier that is not in the table.
    Unknown,
}

impl Default for UserNoticeId {
    fn default() -> (r: Self)
        ensures
            r == UserNoticeId::Unknown,
    {
        UserNoticeId::Unknown
    }
}

impl UserNoticeId {
    /// The event that the identifier `id` names, and `Unknown` for an
    /// identifier that is not in the table.
    pub open spec fn of_id(id: Seq<char>) -> UserNoticeId {
        if id == "sub"@ {
            UserNoticeId::Sub
        } else if id == "resub"@ {
            UserNoticeId::Resub
        } else if id == "subgift"@ {
            UserNoticeId::Subgift
        } else if id == "submysterygift"@ {
            UserNoticeId::SubMysteryGift
        } else if id == "giftpaidupgrade"@ {
            UserNoticeId::GiftPaidUpgrade
        } else if id == "rewardgift"@ {
            UserNoticeId::RewardGift
        } else if id == "anongiftpaidupgrade"@ {
            UserNoticeId::AnonGiftPaidUpgrade
        } else if id == "raid"@ {
            UserNoticeId::Raid
        } else if id == "unraid"@ {
            UserNoticeId::Unraid
        } else if id == "ritual"@ {
            UserNoticeId::Ritual
        } else if id == "bitsbadgetier"@ {
            UserNoticeId::BitsBadgeTier
        } else {
            UserNoticeId::Unknown
        }
    }

    /// Looks the identifier up in the table.
    pub fn parse(input: &str) -> (r: Self)
        ensures
            r == Self::of_id(input@),
    {
        if str_eq(input, "sub") {
            return UserNoticeId::Sub;
        }
        if str_eq(input, "resub") {
            return UserNoticeId::Resub;
        }
        if str_eq(input, "subgift") {
            return UserNoticeId::Subgift;
        }
        if str_eq(input, "submysterygift") {
            return UserNoticeId::SubMysteryGift;
        }
        if str_eq(input, "giftpaidupgrade") {
            return UserNoticeId::GiftPaidUpgrade;
        }
        if str_eq(input, "rewardgift") {
            return UserNoticeId::RewardGift;
        }
        if str_eq(input, "anongiftpaidupgrade") {
            return UserNoticeId::AnonGiftPaidUpgrade;
        }
        if str_eq(input, "raid") {
            return UserNoticeId::Raid;
        }
        if str_eq(input, "unraid") {
            return UserNoticeId::Unraid;
        }
        if str_eq(input, "ritual") {
            return UserNoticeId::Ritual;
        }
        if str_eq(input, "bitsbadgetier") {
            return UserNoticeId::BitsBadgeTier;
        }
        UserNoticeId::Unknown
    }
}

} // verus!
