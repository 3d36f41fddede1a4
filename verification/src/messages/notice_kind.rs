//! What the notices of the server are about.
use vstd::prelude::*;
use crate::text::str_eq;

verus! {

/// What a notice is about, as its `msg-id` tag names it.
#[derive(Copy, Clone, Debug, PartialEq, Eq, Structural, PartialOrd, Ord, Hash)]
pub enum NoticeKind {
    /// `already_banned`
    AlreadyBanned,
    /// `already_emote_only_off`
    AlreadyEmoteOnlyOff,
    /// `already_emote_only_on`
    AlreadyEmoteOnlyOn,
    /// `already_followers_off`
    AlreadyFollowersOff,
    /// `already_followers_on`
    AlreadyFollowersOn,
    /// `already_r9k_off`
    AlreadyR9kOff,
    /// `already_r9k_on`
    AlreadyR9kOn,
    /// `already_slow_off`
    AlreadySlowOff,
    /// `already_slow_on`
    AlreadySlowOn,
    /// `already_subs_off`
    AlreadySubsOff,
    /// `already_subs_on`
    AlreadySubsOn,
    /// `autohost_receive`
    AutohostReceive,
    /// `bad_ban_admin`
    BadBanAdmin,
    /// `bad_ban_anon`
    BadBanAnon,
    /// `bad_ban_broadcaster`
    BadBanBroadcaster,
    /// `bad_ban_mod`
    BadBanMod,
    /// `bad_ban_self`
    BadBanSelf,
    /// `bad_ban_staff`
    BadBanStaff,
    /// `bad_commercial_error`
    BadCommercialError,
    /// `bad_delete_message_broadcaster`
    BadDeleteMessageBroadcaster,
    /// `bad_delete_message_mod`
    BadDeleteMessageMod,
    /// `bad_host_error`
    BadHostError,
    /// `bad_host_hosting`
    BadHostHosting,
    /// `bad_host_rate_exceeded`
    BadHostRateExceeded,
    /// `bad_host_rejected`
    BadHostRejected,
    /// `bad_host_self`
    BadHostSelf,
    /// `bad_mod_banned`
    BadModBanned,
    /// `bad_mod_mod`
    BadModMod,
    /// `bad_slow_duration`
    BadSlowDuration,
    /// `bad_timeout_admin`
    BadTimeoutAdmin,
    /// `bad_timeout_anon`
    BadTimeoutAnon,
    /// `bad_timeout_broadcaster`
    BadTimeoutBroadcaster,
    /// `bad_timeout_duration`
    BadTimeoutDuration,
    /// `bad_timeout_mod`
    BadTimeoutMod,
    /// `bad_timeout_self`
    BadTimeoutSelf,
    /// `bad_timeout_staff`
    BadTimeoutStaff,
    /// `bad_unban_no_ban`
    BadUnbanNoBan,
    /// `bad_unhost_error`
    BadUnhostError,
    /// `bad_unmod_mod`
    BadUnmodMod,
    /// `bad_vip_grantee_banned`
    BadVipGranteeBanned,
    /// `bad_vip_grantee_already_vip`
    BadVipGranteeAlreadyVip,
    /// `bad_vip_max_vips_reached`
    BadVipMaxVipsReached,
    /// `bad_vip_achievement_incomplete`
    BadVipAchievementIncomplete,
    /// `bad_unvip_grantee_not_vip`
    BadUnvipGranteeNotVip,
    /// `ban_success`
    BanSuccess,
    /// `cmds_available`
    CmdsAvailable,
    /// `color_changed`
    ColorChanged,
    /// `commercial_success`
    CommercialSuccess,
    /// `delete_message_success`
    DeleteMessageSuccess,
    /// `delete_staff_message_success`
    DeleteStaffMessageSuccess,
    /// `emote_only_off`
    EmoteOnlyOff,
    /// `emote_only_on`
    EmoteOnlyOn,
    /// `followers_off`
    FollowersOff,
    /// `followers_on`
    FollowersOn,
    /// `followers_on_zero`
    FollowersOnZero,
    /// `host_off`
    HostOff,
    /// `host_on`
    HostOn,
    /// `host_receive`
    HostReceive,
    /// `host_receive_no_count`
    HostReceiveNoCount,
    /// `host_target_went_offline`
    HostTargetWentOffline,
    /// `hosts_remaining`
    HostsRemaining,
    /// `invalid_user`
    InvalidUser,
    /// `mod_success`
    ModSuccess,
    /// `msg_banned`
    MsgBanned,
    /// `msg_bad_characters`
    MsgBadCharacters,
    /// `msg_channel_blocked`
    MsgChannelBlocked,
    /// `msg_channel_suspended`
    MsgChannelSuspended,
    /// `msg_duplicate`
    MsgDuplicate,
    /// `msg_emoteonly`
    MsgEmoteonly,
    /// `msg_followersonly`
    MsgFollowersonly,
    /// `msg_followersonly_followed`
    MsgFollowersonlyFollowed,
    /// `msg_followersonly_zero`
    MsgFollowersonlyZero,
    /// `msg_r9k`
    MsgR9k,
    /// `msg_ratelimit`
    MsgRatelimit,
    /// `msg_rejected`
    MsgRejected,
    /// `msg_rejected_mandatory`
    MsgRejectedMandatory,
    /// `msg_requires_verified_phone_number`
    MsgRequiresVerifiedPhoneNumber,
    /// `msg_slowmode`
    MsgSlowmode,
    /// `msg_subsonly`
    MsgSubsonly,
    /// `msg_suspended`
    MsgSuspended,
    /// `msg_timedout`
    MsgTimedout,
    /// `msg_verified_email`
    MsgVerifiedEmail,
    /// `no_help`
    NoHelp,
    /// `no_mods`
    NoMods,
    /// `no_vips`
    NoVips,
    /// `not_hosting`
    NotHosting,
    /// `no_permission`
    NoPermission,
    /// `r9k_off`
    R9kOff,
    /// `r9k_on`
    R9kOn,
    /// `raid_error_already_raiding`
    RaidErrorAlreadyRaiding,
    /// `raid_error_forbidden`
    RaidErrorForbidden,
    /// `raid_error_self`
    RaidErrorSelf,
    /// `raid_error_too_many_viewers`
    RaidErrorTooManyViewers,
    /// `raid_error_unexpected`
    RaidErrorUnexpected,
    /// `raid_notice_mature`
    RaidNoticeMature,
    /// `raid_notice_restricted_chat`
    RaidNoticeRestrictedChat,
    /// `room_mods`
    RoomMods,
    /// `slow_off`
    SlowOff,
    /// `slow_on`
    SlowOn,
    /// `subs_off`
    SubsOff,
    /// `subs_on`
    SubsOn,
    /// `timeout_no_timeout`
    TimeoutNoTimeout,
    /// `timeout_success`
    TimeoutSuccess,
    /// `tos_ban`
    TosBan,
    /// `turbo_only_color`
    TurboOnlyColor,
    /// `unavailable_command`
    UnavailableCommand,
    /// `unban_success`
    UnbanSuccess,
    /// `unmod_success`
    UnmodSuccess,
    /// `unraid_error_no_active_raid`
    UnraidErrorNoActiveRaid,
    /// `unraid_error_unexpected`
    UnraidErrorUnexpected,
    /// `unraid_success`
    UnraidSuccess,
    /// `unrecognized_cmd`
    UnrecognizedCmd,
    /// `untimeout_banned`
    UntimeoutBanned,
    /// `untimeout_success`
    UntimeoutSuccess,
    /// `unvip_success`
    UnvipSuccess,
    /// `usage_ban`
    UsageBan,
    /// `usage_clear`
    UsageClear,
    /// `usage_color`
    UsageColor,
    /// `usage_commercial`
    UsageCommercial,
    /// `usage_disconnect`
    UsageDisconnect,
    /// `usage_delete`
    UsageDelete,
    /// `usage_emote_only_off`
    UsageEmoteOnlyOff,
    /// `usage_emote_only_on`
    UsageEmoteOnlyOn,
    /// `usage_followers_off`
    UsageFollowersOff,
    /// `usage_followers_on`
    UsageFollowersOn,
    /// `usage_help`
    UsageHelp,
    /// `usage_host`
    UsageHost,
    /// `usage_marker`
    UsageMarker,
    /// `usage_me`
    UsageMe,
    /// `usage_mod`
    UsageMod,
    /// `usage_mods`
    UsageMods,
    /// `usage_r9k_off`
    UsageR9kOff,
    /// `usage_r9k_on`
    UsageR9kOn,
    /// `usage_raid`
    UsageRaid,
    /// `usage_slow_off`
    UsageSlowOff,
    /// `usage_slow_on`
    UsageSlowOn,
    /// `usage_subs_off`
    UsageSubsOff,
    /// `usage_subs_on`
    UsageSubsOn,
    /// `usage_timeout`
    UsageTimeout,
    /// `usage_unban`
    UsageUnban,
    /// `usage_unhost`
    UsageUnhost,
    /// `usage_unmod`
    UsageUnmod,
    /// `usage_unraid`
    UsageUnraid,
    /// `usage_untimeout`
    UsageUntimeout,
    /// `usage_unvip`
    UsageUnvip,
    /// `usage_user`
    UsageUser,
    /// `usage_vip`
    UsageVip,
    /// `usage_vips`
    UsageVips,
    /// `usage_whisper`
    UsageWhisper,
    /// `vip_success`
    VipSuccess,
    /// `vips_success`
    VipsSuccess,
    /// `whisper_banned`
    WhisperBanned,
    /// `whisper_banned_recipient`
    WhisperBannedRecipient,
    /// `whisper_invalid_login`
    WhisperInvalidLogin,
    /// `whisper_invalid_self`
    WhisperInvalidSelf,
    /// `whisper_limit_per_min`
    WhisperLimitPerMin,
    /// `whisper_limit_per_sec`
    WhisperLimitPerSec,
    /// `whisper_restricted`
    WhisperRestricted,
    /// `whisper_restricted_recipient`
    WhisperRestrictedRecipient,
    /// Any identifier that is not in the table.
    Unknown,
}

impl Default for NoticeKind {
    fn default() -> (r: Self)
        ensures
            r == NoticeKind::Unknown,
    {
        NoticeKind::Unknown
    }
}

impl NoticeKind {
    /// The kind that the identifier `id` names: the table of the `msg-id`
    /// values of notices, and `Unknown` for anything else.
    pub open spec fn of_id(id: Seq<char>) -> NoticeKind {
        if id == "already_banned"@ {
            NoticeKind::AlreadyBanned
        } else if id == "already_emote_only_off"@ {
            NoticeKind::AlreadyEmoteOnlyOff
        } else if id == "already_emote_only_on"@ {
            NoticeKind::AlreadyEmoteOnlyOn
        } else if id == "already_followers_off"@ {
            NoticeKind::AlreadyFollowersOff
        } else if id == "already_followers_on"@ {
            NoticeKind::AlreadyFollowersOn
        } else if id == "already_r9k_off"@ {
            NoticeKind::AlreadyR9kOff
        } else if id == "already_r9k_on"@ {
            NoticeKind::AlreadyR9kOn
        } else if id == "already_slow_off"@ {
            NoticeKind::AlreadySlowOff
        } else if id == "already_slow_on"@ {
            NoticeKind::AlreadySlowOn
        } else if id == "already_subs_off"@ {
            NoticeKind::AlreadySubsOff
        } else if id == "already_subs_on"@ {
            NoticeKind::AlreadySubsOn
        } else if id == "autohost_receive"@ {
            NoticeKind::AutohostReceive
        } else if id == "bad_ban_admin"@ {
            NoticeKind::BadBanAdmin
        } else if id == "bad_ban_anon"@ {
            NoticeKind::BadBanAnon
        } else if id == "bad_ban_broadcaster"@ {
            NoticeKind::BadBanBroadcaster
        } else if id == "bad_ban_mod"@ {
            NoticeKind::BadBanMod
        } else if id == "bad_ban_self"@ {
            NoticeKind::BadBanSelf
        } else if id == "bad_ban_staff"@ {
            NoticeKind::BadBanStaff
        } else if id == "bad_commercial_error"@ {
            NoticeKind::BadCommercialError
        } else if id == "bad_delete_message_broadcaster"@ {
            NoticeKind::BadDeleteMessageBroadcaster
        } else if id == "bad_delete_message_mod"@ {
            NoticeKind::BadDeleteMessageMod
        } else if id == "bad_host_error"@ {
            NoticeKind::BadHostError
        } else if id == "bad_host_hosting"@ {
            NoticeKind::BadHostHosting
        } else if id == "bad_host_rate_exceeded"@ {
            NoticeKind::BadHostRateExceeded
        } else if id == "bad_host_rejected"@ {
            NoticeKind::BadHostRejected
        } else if id == "bad_host_self"@ {
            NoticeKind::BadHostSelf
        } else if id == "bad_mod_banned"@ {
            NoticeKind::BadModBanned
        } else if id == "bad_mod_mod"@ {
            NoticeKind::BadModMod
        } else if id == "bad_slow_duration"@ {
            NoticeKind::BadSlowDuration
        } else if id == "bad_timeout_admin"@ {
            NoticeKind::BadTimeoutAdmin
        } else if id == "bad_timeout_anon"@ {
            NoticeKind::BadTimeoutAnon
        } else if id == "bad_timeout_broadcaster"@ {
            NoticeKind::BadTimeoutBroadcaster
        } else if id == "bad_timeout_duration"@ {
            NoticeKind::BadTimeoutDuration
        } else if id == "bad_timeout_mod"@ {
            NoticeKind::BadTimeoutMod
        } else if id == "bad_timeout_self"@ {
            NoticeKind::BadTimeoutSelf
        } else if id == "bad_timeout_staff"@ {
            NoticeKind::BadTimeoutStaff
        } else if id == "bad_unban_no_ban"@ {
            NoticeKind::BadUnbanNoBan
        } else if id == "bad_unhost_error"@ {
            NoticeKind::BadUnhostError
        } else if id == "bad_unmod_mod"@ {
            NoticeKind::BadUnmodMod
        } else if id == "bad_vip_grantee_banned"@ {
            NoticeKind::BadVipGranteeBanned
        } else if id == "bad_vip_grantee_already_vip"@ {
            NoticeKind::BadVipGranteeAlreadyVip
        } else if id == "bad_vip_max_vips_reached"@ {
            NoticeKind::BadVipMaxVipsReached
        } else if id == "bad_vip_achievement_incomplete"@ {
            NoticeKind::BadVipAchievementIncomplete
        } else if id == "bad_unvip_grantee_not_vip"@ {
            NoticeKind::BadUnvipGranteeNotVip
        } else if id == "ban_success"@ {
            NoticeKind::BanSuccess
        } else if id == "cmds_available"@ {
            NoticeKind::CmdsAvailable
        } else if id == "color_changed"@ {
            NoticeKind::ColorChanged
        } else if id == "commercial_success"@ {
            NoticeKind::CommercialSuccess
        } else if id == "delete_message_success"@ {
            NoticeKind::DeleteMessageSuccess
        } else if id == "delete_staff_message_success"@ {
            NoticeKind::DeleteStaffMessageSuccess
        } else if id == "emote_only_off"@ {
            NoticeKind::EmoteOnlyOff
        } else if id == "emote_only_on"@ {
            NoticeKind::EmoteOnlyOn
        } else if id == "followers_off"@ {
            NoticeKind::FollowersOff
        } else if id == "followers_on"@ {
            NoticeKind::FollowersOn
        } else if id == "followers_on_zero"@ {
            NoticeKind::FollowersOnZero
        } else if id == "host_off"@ {
            NoticeKind::HostOff
        } else if id == "host_on"@ {
            NoticeKind::HostOn
        } else if id == "host_receive"@ {
            NoticeKind::HostReceive
        } else if id == "host_receive_no_count"@ {
            NoticeKind::HostReceiveNoCount
        } else if id == "host_target_went_offline"@ {
            NoticeKind::HostTargetWentOffline
        } else if id == "hosts_remaining"@ {
            NoticeKind::HostsRemaining
        } else if id == "invalid_user"@ {
            NoticeKind::InvalidUser
        } else if id == "mod_success"@ {
            NoticeKind::ModSuccess
        } else if id == "msg_banned"@ {
            NoticeKind::MsgBanned
        } else if id == "msg_bad_characters"@ {
            NoticeKind::MsgBadCharacters
        } else if id == "msg_channel_blocked"@ {
            NoticeKind::MsgChannelBlocked
        } else if id == "msg_channel_suspended"@ {
            NoticeKind::MsgChannelSuspended
        } else if id == "msg_duplicate"@ {
            NoticeKind::MsgDuplicate
        } else if id == "msg_emoteonly"@ {
            NoticeKind::MsgEmoteonly
        } else if id == "msg_followersonly"@ {
            NoticeKind::MsgFollowersonly
        } else if id == "msg_followersonly_followed"@ {
            NoticeKind::MsgFollowersonlyFollowed
        } else if id == "msg_followersonly_zero"@ {
            NoticeKind::MsgFollowersonlyZero
        } else if id == "msg_r9k"@ {
            NoticeKind::MsgR9k
        } else if id == "msg_ratelimit"@ {
            NoticeKind::MsgRatelimit
        } else if id == "msg_rejected"@ {
            NoticeKind::MsgRejected
        } else if id == "msg_rejected_mandatory"@ {
            NoticeKind::MsgRejectedMandatory
        } else if id == "msg_requires_verified_phone_number"@ {
            NoticeKind::MsgRequiresVerifiedPhoneNumber
        } else if id == "msg_slowmode"@ {
            NoticeKind::MsgSlowmode
        } else if id == "msg_subsonly"@ {
            NoticeKind::MsgSubsonly
        } else if id == "msg_suspended"@ {
            NoticeKind::MsgSuspended
        } else if id == "msg_timedout"@ {
            NoticeKind::MsgTimedout
        } else if id == "msg_verified_email"@ {
            NoticeKind::MsgVerifiedEmail
        } else if id == "no_help"@ {
            NoticeKind::NoHelp
        } else if id == "no_mods"@ {
            NoticeKind::NoMods
        } else if id == "no_vips"@ {
            NoticeKind::NoVips
        } else if id == "not_hosting"@ {
            NoticeKind::NotHosting
        } else if id == "no_permission"@ {
            NoticeKind::NoPermission
        } else if id == "r9k_off"@ {
            NoticeKind::R9kOff
        } else if id == "r9k_on"@ {
            NoticeKind::R9kOn
        } else if id == "raid_error_already_raiding"@ {
            NoticeKind::RaidErrorAlreadyRaiding
        } else if id == "raid_error_forbidden"@ {
            NoticeKind::RaidErrorForbidden
        } else if id == "raid_error_self"@ {
            NoticeKind::RaidErrorSelf
        } else if id == "raid_error_too_many_viewers"@ {
            NoticeKind::RaidErrorTooManyViewers
        } else if id == "raid_error_unexpected"@ {
            NoticeKind::RaidErrorUnexpected
        } else if id == "raid_notice_mature"@ {
            NoticeKind::RaidNoticeMature
        } else if id == "raid_notice_restricted_chat"@ {
            NoticeKind::RaidNoticeRestrictedChat
        } else if id == "room_mods"@ {
            NoticeKind::RoomMods
        } else if id == "slow_off"@ {
            NoticeKind::SlowOff
        } else if id == "slow_on"@ {
            NoticeKind::SlowOn
        } else if id == "subs_off"@ {
            NoticeKind::SubsOff
        } else if id == "subs_on"@ {
            NoticeKind::SubsOn
        } else if id == "timeout_no_timeout"@ {
            NoticeKind::TimeoutNoTimeout
        } else if id == "timeout_success"@ {
            NoticeKind::TimeoutSuccess
        } else if id == "tos_ban"@ {
            NoticeKind::TosBan
        } else if id == "turbo_only_color"@ {
            NoticeKind::TurboOnlyColor
        } else if id == "unavailable_command"@ {
            NoticeKind::UnavailableCommand
        } else if id == "unban_success"@ {
            NoticeKind::UnbanSuccess
        } else if id == "unmod_success"@ {
            NoticeKind::UnmodSuccess
        } else if id == "unraid_error_no_active_raid"@ {
            NoticeKind::UnraidErrorNoActiveRaid
        } else if id == "unraid_error_unexpected"@ {
            NoticeKind::UnraidErrorUnexpected
        } else if id == "unraid_success"@ {
            NoticeKind::UnraidSuccess
        } else if id == "unrecognized_cmd"@ {
            NoticeKind::UnrecognizedCmd
        } else if id == "untimeout_banned"@ {
            NoticeKind::UntimeoutBanned
        } else if id == "untimeout_success"@ {
            NoticeKind::UntimeoutSuccess
        } else if id == "unvip_success"@ {
            NoticeKind::UnvipSuccess
        } else if id == "usage_ban"@ {
            NoticeKind::UsageBan
        } else if id == "usage_clear"@ {
            NoticeKind::UsageClear
        } else if id == "usage_color"@ {
            NoticeKind::UsageColor
        } else if id == "usage_commercial"@ {
            NoticeKind::UsageCommercial
        } else if id == "usage_disconnect"@ {
            NoticeKind::UsageDisconnect
        } else if id == "usage_delete"@ {
            NoticeKind::UsageDelete
        } else if id == "usage_emote_only_off"@ {
            NoticeKind::UsageEmoteOnlyOff
        } else if id == "usage_emote_only_on"@ {
            NoticeKind::UsageEmoteOnlyOn
        } else if id == "usage_followers_off"@ {
            NoticeKind::UsageFollowersOff
        } else if id == "usage_followers_on"@ {
            NoticeKind::UsageFollowersOn
        } else if id == "usage_help"@ {
            NoticeKind::UsageHelp
        } else if id == "usage_host"@ {
            NoticeKind::UsageHost
        } else if id == "usage_marker"@ {
            NoticeKind::UsageMarker
        } else if id == "usage_me"@ {
            NoticeKind::UsageMe
        } else if id == "usage_mod"@ {
            NoticeKind::UsageMod
        } else if id == "usage_mods"@ {
            NoticeKind::UsageMods
        } else if id == "usage_r9k_off"@ {
            NoticeKind::UsageR9kOff
        } else if id == "usage_r9k_on"@ {
            NoticeKind::UsageR9kOn
        } else if id == "usage_raid"@ {
            NoticeKind::UsageRaid
        } else if id == "usage_slow_off"@ {
            NoticeKind::UsageSlowOff
        } else if id == "usage_slow_on"@ {
            NoticeKind::UsageSlowOn
        } else if id == "usage_subs_off"@ {
            NoticeKind::UsageSubsOff
        } else if id == "usage_subs_on"@ {
            NoticeKind::UsageSubsOn
        } else if id == "usage_timeout"@ {
            NoticeKind::UsageTimeout
        } else if id == "usage_unban"@ {
            NoticeKind::UsageUnban
        } else if id == "usage_unhost"@ {
            NoticeKind::UsageUnhost
        } else if id == "usage_unmod"@ {
            NoticeKind::UsageUnmod
        } else if id == "usage_unraid"@ {
            NoticeKind::UsageUnraid
        } else if id == "usage_untimeout"@ {
            NoticeKind::UsageUntimeout
        } else if id == "usage_unvip"@ {
            NoticeKind::UsageUnvip
        } else if id == "usage_user"@ {
            NoticeKind::UsageUser
        } else if id == "usage_vip"@ {
            NoticeKind::UsageVip
        } else if id == "usage_vips"@ {
            NoticeKind::UsageVips
        } else if id == "usage_whisper"@ {
            NoticeKind::UsageWhisper
        } else if id == "vip_success"@ {
            NoticeKind::VipSuccess
        } else if id == "vips_success"@ {
            NoticeKind::VipsSuccess
        } else if id == "whisper_banned"@ {
            NoticeKind::WhisperBanned
        } else if id == "whisper_banned_recipient"@ {
            NoticeKind::WhisperBannedRecipient
        } else if id == "whisper_invalid_login"@ {
            NoticeKind::WhisperInvalidLogin
        } else if id == "whisper_invalid_self"@ {
            NoticeKind::WhisperInvalidSelf
        } else if id == "whisper_limit_per_min"@ {
            NoticeKind::WhisperLimitPerMin
        } else if id == "whisper_limit_per_sec"@ {
            NoticeKind::WhisperLimitPerSec
        } else if id == "whisper_restricted"@ {
            NoticeKind::WhisperRestricted
        } else if id == "whisper_restricted_recipient"@ {
            NoticeKind::WhisperRestrictedRecipient
        } else {
            NoticeKind::Unknown
        }
    }

    /// Looks the identifier up in the table.
    pub fn parse(input: &str) -> (r: Self)
        ensures
            r == Self::of_id(input@),
    {
        if str_eq(input, "already_banned") {
            return NoticeKind::AlreadyBanned;
        }
        if str_eq(input, "already_emote_only_off") {
            return NoticeKind::AlreadyEmoteOnlyOff;
        }
        if str_eq(input, "already_emote_only_on") {
            return NoticeKind::AlreadyEmoteOnlyOn;
        }
        if str_eq(input, "already_followers_off") {
            return NoticeKind::AlreadyFollowersOff;
        }
        if str_eq(input, "already_followers_on") {
            return NoticeKind::AlreadyFollowersOn;
        }
        if str_eq(input, "already_r9k_off") {
            return NoticeKind::AlreadyR9kOff;
        }
        if str_eq(input, "already_r9k_on") {
            return NoticeKind::AlreadyR9kOn;
        }
        if str_eq(input, "already_slow_off") {
            return NoticeKind::AlreadySlowOff;
        }
        if str_eq(input, "already_slow_on") {
            return NoticeKind::AlreadySlowOn;
        }
        if str_eq(input, "already_subs_off") {
            return NoticeKind::AlreadySubsOff;
        }
        if str_eq(input, "already_subs_on") {
            return NoticeKind::AlreadySubsOn;
        }
        if str_eq(input, "autohost_receive") {
            return NoticeKind::AutohostReceive;
        }
        if str_eq(input, "bad_ban_admin") {
            return NoticeKind::BadBanAdmin;
        }
        if str_eq(input, "bad_ban_anon") {
            return NoticeKind::BadBanAnon;
        }
        if str_eq(input, "bad_ban_broadcaster") {
            return NoticeKind::BadBanBroadcaster;
        }
        if str_eq(input, "bad_ban_mod") {
            return NoticeKind::BadBanMod;
        }
        if str_eq(input, "bad_ban_self") {
            return NoticeKind::BadBanSelf;
        }
        if str_eq(input, "bad_ban_staff") {
            return NoticeKind::BadBanStaff;
        }
        if str_eq(input, "bad_commercial_error") {
            return NoticeKind::BadCommercialError;
        }
        if str_eq(input, "bad_delete_message_broadcaster") {
            return NoticeKind::BadDeleteMessageBroadcaster;
        }
        if str_eq(input, "bad_delete_message_mod") {
            return NoticeKind::BadDeleteMessageMod;
        }
        if str_eq(input, "bad_host_error") {
            return NoticeKind::BadHostError;
        }
        if str_eq(input, "bad_host_hosting") {
            return NoticeKind::BadHostHosting;
        }
        if str_eq(input, "bad_host_rate_exceeded") {
            return NoticeKind::BadHostRateExceeded;
        }
        if str_eq(input, "bad_host_rejected") {
            return NoticeKind::BadHostRejected;
        }
        if str_eq(input, "bad_host_self") {
            return NoticeKind::BadHostSelf;
        }
        if str_eq(input, "bad_mod_banned") {
            return NoticeKind::BadModBanned;
        }
        if str_eq(input, "bad_mod_mod") {
            return NoticeKind::BadModMod;
        }
        if str_eq(input, "bad_slow_duration") {
            return NoticeKind::BadSlowDuration;
        }
        if str_eq(input, "bad_timeout_admin") {
            return NoticeKind::BadTimeoutAdmin;
        }
        if str_eq(input, "bad_timeout_anon") {
            return NoticeKind::BadTimeoutAnon;
        }
        if str_eq(input, "bad_timeout_broadcaster") {
            return NoticeKind::BadTimeoutBroadcaster;
        }
        if str_eq(input, "bad_timeout_duration") {
            return NoticeKind::BadTimeoutDuration;
        }
        if str_eq(input, "bad_timeout_mod") {
            return NoticeKind::BadTimeoutMod;
        }
        if str_eq(input, "bad_timeout_self") {
            return NoticeKind::BadTimeoutSelf;
        }
        if str_eq(input, "bad_timeout_staff") {
            return NoticeKind::BadTimeoutStaff;
        }
        if str_eq(input, "bad_unban_no_ban") {
            return NoticeKind::BadUnbanNoBan;
        }
        if str_eq(input, "bad_unhost_error") {
            return NoticeKind::BadUnhostError;
        }
        if str_eq(input, "bad_unmod_mod") {
            return NoticeKind::BadUnmodMod;
        }
        if str_eq(input, "bad_vip_grantee_banned") {
            return NoticeKind::BadVipGranteeBanned;
        }
        if str_eq(input, "bad_vip_grantee_already_vip") {
            return NoticeKind::BadVipGranteeAlreadyVip;
        }
        if str_eq(input, "bad_vip_max_vips_reached") {
            return NoticeKind::BadVipMaxVipsReached;
        }
        if str_eq(input, "bad_vip_achievement_incomplete") {
            return NoticeKind::BadVipAchievementIncomplete;
        }
        if str_eq(input, "bad_unvip_grantee_not_vip") {
            return NoticeKind::BadUnvipGranteeNotVip;
        }
        if str_eq(input, "ban_success") {
            return NoticeKind::BanSuccess;
        }
        if str_eq(input, "cmds_available") {
            return NoticeKind::CmdsAvailable;
        }
        if str_eq(input, "color_changed") {
            return NoticeKind::ColorChanged;
        }
        if str_eq(input, "commercial_success") {
            return NoticeKind::CommercialSuccess;
        }
        if str_eq(input, "delete_message_success") {
            return NoticeKind::DeleteMessageSuccess;
        }
        if str_eq(input, "delete_staff_message_success") {
            return NoticeKind::DeleteStaffMessageSuccess;
        }
        if str_eq(input, "emote_only_off") {
            return NoticeKind::EmoteOnlyOff;
        }
        if str_eq(input, "emote_only_on") {
            return NoticeKind::EmoteOnlyOn;
        }
        if str_eq(input, "followers_off") {
            return NoticeKind::FollowersOff;
        }
        if str_eq(input, "followers_on") {
            return NoticeKind::FollowersOn;
        }
        if str_eq(input, "followers_on_zero") {
            return NoticeKind::FollowersOnZero;
        }
        if str_eq(input, "host_off") {
            return NoticeKind::HostOff;
        }
        if str_eq(input, "host_on") {
            return NoticeKind::HostOn;
        }
        if str_eq(input, "host_receive") {
            return NoticeKind::HostReceive;
        }
        if str_eq(input, "host_receive_no_count") {
            return NoticeKind::HostReceiveNoCount;
        }
        if str_eq(input, "host_target_went_offline") {
            return NoticeKind::HostTargetWentOffline;
        }
        if str_eq(input, "hosts_remaining") {
            return NoticeKind::HostsRemaining;
        }
        if str_eq(input, "invalid_user") {
            return NoticeKind::InvalidUser;
        }
        if str_eq(input, "mod_success") {
            return NoticeKind::ModSuccess;
        }
        if str_eq(input, "msg_banned") {
            return NoticeKind::MsgBanned;
        }
        if str_eq(input, "msg_bad_characters") {
            return NoticeKind::MsgBadCharacters;
        }
        if str_eq(input, "msg_channel_blocked") {
            return NoticeKind::MsgChannelBlocked;
        }
        if str_eq(input, "msg_channel_suspended") {
            return NoticeKind::MsgChannelSuspended;
        }
        if str_eq(input, "msg_duplicate") {
            return NoticeKind::MsgDuplicate;
        }
        if str_eq(input, "msg_emoteonly") {
            return NoticeKind::MsgEmoteonly;
        }
        if str_eq(input, "msg_followersonly") {
            return NoticeKind::MsgFollowersonly;
        }
        if str_eq(input, "msg_followersonly_followed") {
            return NoticeKind::MsgFollowersonlyFollowed;
        }
        if str_eq(input, "msg_followersonly_zero") {
            return NoticeKind::MsgFollowersonlyZero;
        }
        if str_eq(input, "msg_r9k") {
            return NoticeKind::MsgR9k;
        }
        if str_eq(input, "msg_ratelimit") {
            return NoticeKind::MsgRatelimit;
        }
        if str_eq(input, "msg_rejected") {
            return NoticeKind::MsgRejected;
        }
        if str_eq(input, "msg_rejected_mandatory") {
            return NoticeKind::MsgRejectedMandatory;
        }
        if str_eq(input, "msg_requires_verified_phone_number") {
            return NoticeKind::MsgRequiresVerifiedPhoneNumber;
        }
        if str_eq(input, "msg_slowmode") {
            return NoticeKind::MsgSlowmode;
        }
        if str_eq(input, "msg_subsonly") {
            return NoticeKind::MsgSubsonly;
        }
        if str_eq(input, "msg_suspended") {
            return NoticeKind::MsgSuspended;
        }
        if str_eq(input, "msg_timedout") {
            return NoticeKind::MsgTimedout;
        }
        if str_eq(input, "msg_verified_email") {
            return NoticeKind::MsgVerifiedEmail;
        }
        if str_eq(input, "no_help") {
            return NoticeKind::NoHelp;
        }
        if str_eq(input, "no_mods") {
            return NoticeKind::NoMods;
        }
        if str_eq(input, "no_vips") {
            return NoticeKind::NoVips;
        }
        if str_eq(input, "not_hosting") {
            return NoticeKind::NotHosting;
        }
        if str_eq(input, "no_permission") {
            return NoticeKind::NoPermission;
        }
        if str_eq(input, "r9k_off") {
            return NoticeKind::R9kOff;
        }
        if str_eq(input, "r9k_on") {
            return NoticeKind::R9kOn;
        }
        if str_eq(input, "raid_error_already_raiding") {
            return NoticeKind::RaidErrorAlreadyRaiding;
        }
        if str_eq(input, "raid_error_forbidden") {
            return NoticeKind::RaidErrorForbidden;
        }
        if str_eq(input, "raid_error_self") {
            return NoticeKind::RaidErrorSelf;
        }
        if str_eq(input, "raid_error_too_many_viewers") {
            return NoticeKind::RaidErrorTooManyViewers;
        }
        if str_eq(input, "raid_error_unexpected") {
            return NoticeKind::RaidErrorUnexpected;
        }
        if str_eq(input, "raid_notice_mature") {
            return NoticeKind::RaidNoticeMature;
        }
        if str_eq(input, "raid_notice_restricted_chat") {
            return NoticeKind::RaidNoticeRestrictedChat;
        }
        if str_eq(input, "room_mods") {
            return NoticeKind::RoomMods;
        }
        if str_eq(input, "slow_off") {
            return NoticeKind::SlowOff;
        }
        if str_eq(input, "slow_on") {
            return NoticeKind::SlowOn;
        }
        if str_eq(input, "subs_off") {
            return NoticeKind::SubsOff;
        }
        if str_eq(input, "subs_on") {
            return NoticeKind::SubsOn;
        }
        if str_eq(input, "timeout_no_timeout") {
            return NoticeKind::TimeoutNoTimeout;
        }
        if str_eq(input, "timeout_success") {
            return NoticeKind::TimeoutSuccess;
        }
        if str_eq(input, "tos_ban") {
            return NoticeKind::TosBan;
        }
        if str_eq(input, "turbo_only_color") {
            return NoticeKind::TurboOnlyColor;
        }
        if str_eq(input, "unavailable_command") {
            return NoticeKind::UnavailableCommand;
        }
        if str_eq(input, "unban_success") {
            return NoticeKind::UnbanSuccess;
        }
        if str_eq(input, "unmod_success") {
            return NoticeKind::UnmodSuccess;
        }
        if str_eq(input, "unraid_error_no_active_raid") {
            return NoticeKind::UnraidErrorNoActiveRaid;
        }
        if str_eq(input, "unraid_error_unexpected") {
            return NoticeKind::UnraidErrorUnexpected;
        }
        if str_eq(input, "unraid_success") {
            return NoticeKind::UnraidSuccess;
        }
        if str_eq(input, "unrecognized_cmd") {
            return NoticeKind::UnrecognizedCmd;
        }
        if str_eq(input, "untimeout_banned") {
            return NoticeKind::UntimeoutBanned;
        }
        if str_eq(input, "untimeout_success") {
            return NoticeKind::UntimeoutSuccess;
        }
        if str_eq(input, "unvip_success") {
            return NoticeKind::UnvipSuccess;
        }
        if str_eq(input, "usage_ban") {
            return NoticeKind::UsageBan;
        }
        if str_eq(input, "usage_clear") {
            return NoticeKind::UsageClear;
        }
        if str_eq(input, "usage_color") {
            return NoticeKind::UsageColor;
        }
        if str_eq(input, "usage_commercial") {
            return NoticeKind::UsageCommercial;
        }
        if str_eq(input, "usage_disconnect") {
            return NoticeKind::UsageDisconnect;
        }
        if str_eq(input, "usage_delete") {
            return NoticeKind::UsageDelete;
        }
        if str_eq(input, "usage_emote_only_off") {
            return NoticeKind::UsageEmoteOnlyOff;
        }
        if str_eq(input, "usage_emote_only_on") {
            return NoticeKind::UsageEmoteOnlyOn;
        }
        if str_eq(input, "usage_followers_off") {
            return NoticeKind::UsageFollowersOff;
        }
        if str_eq(input, "usage_followers_on") {
            return NoticeKind::UsageFollowersOn;
        }
        if str_eq(input, "usage_help") {
            return NoticeKind::UsageHelp;
        }
        if str_eq(input, "usage_host") {
            return NoticeKind::UsageHost;
        }
        if str_eq(input, "usage_marker") {
            return NoticeKind::UsageMarker;
        }
        if str_eq(input, "usage_me") {
            return NoticeKind::UsageMe;
        }
        if str_eq(input, "usage_mod") {
            return NoticeKind::UsageMod;
        }
        if str_eq(input, "usage_mods") {
            return NoticeKind::UsageMods;
        }
        if str_eq(input, "usage_r9k_off") {
            return NoticeKind::UsageR9kOff;
        }
        if str_eq(input, "usage_r9k_on") {
            return NoticeKind::UsageR9kOn;
        }
        if str_eq(input, "usage_raid") {
            return NoticeKind::UsageRaid;
        }
        if str_eq(input, "usage_slow_off") {
            return NoticeKind::UsageSlowOff;
        }
        if str_eq(input, "usage_slow_on") {
            return NoticeKind::UsageSlowOn;
        }
        if str_eq(input, "usage_subs_off") {
            return NoticeKind::UsageSubsOff;
        }
        if str_eq(input, "usage_subs_on") {
            return NoticeKind::UsageSubsOn;
        }
        if str_eq(input, "usage_timeout") {
            return NoticeKind::UsageTimeout;
        }
        if str_eq(input, "usage_unban") {
            return NoticeKind::UsageUnban;
        }
        if str_eq(input, "usage_unhost") {
            return NoticeKind::UsageUnhost;
        }
        if str_eq(input, "usage_unmod") {
            return NoticeKind::UsageUnmod;
        }
        if str_eq(input, "usage_unraid") {
            return NoticeKind::UsageUnraid;
        }
        if str_eq(input, "usage_untimeout") {
            return NoticeKind::UsageUntimeout;
        }
        if str_eq(input, "usage_unvip") {
            return NoticeKind::UsageUnvip;
        }
        if str_eq(input, "usage_user") {
            return NoticeKind::UsageUser;
        }
        if str_eq(input, "usage_vip") {
            return NoticeKind::UsageVip;
        }
        if str_eq(input, "usage_vips") {
            return NoticeKind::UsageVips;
        }
        if str_eq(input, "usage_whisper") {
            return NoticeKind::UsageWhisper;
        }
        if str_eq(input, "vip_success") {
            return NoticeKind::VipSuccess;
        }
        if str_eq(input, "vips_success") {
            return NoticeKind::VipsSuccess;
        }
        if str_eq(input, "whisper_banned") {
            return NoticeKind::WhisperBanned;
        }
        if str_eq(input, "whisper_banned_recipient") {
            return NoticeKind::WhisperBannedRecipient;
        }
        if str_eq(input, "whisper_invalid_login") {
            return NoticeKind::WhisperInvalidLogin;
        }
        if str_eq(input, "whisper_invalid_self") {
            return NoticeKind::WhisperInvalidSelf;
        }
        if str_eq(input, "whisper_limit_per_min") {
            return NoticeKind::WhisperLimitPerMin;
        }
        if str_eq(input, "whisper_limit_per_sec") {
            return NoticeKind::WhisperLimitPerSec;
        }
        if str_eq(input, "whisper_restricted") {
            return NoticeKind::WhisperRestricted;
        }
        if str_eq(input, "whisper_restricted_recipient") {
            return NoticeKind::WhisperRestrictedRecipient;
        }
        NoticeKind::Unknown
    }
}

} // verus!
