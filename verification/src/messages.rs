//! The generic message and the typed views of it.
pub mod capability;
pub mod clear_chat;
pub mod clear_msg;
pub mod global_user_state;
pub mod host_target;
pub mod irc_ready;
pub mod join;
pub mod notice;
pub mod notice_kind;
pub mod part;
pub mod ping;
pub mod pong;
pub mod privmsg;
pub mod ready;
pub mod reconnect;
pub mod room_state;
pub mod twitch_message;
pub mod user_notice;
pub mod user_notice_id;
pub mod user_state;
pub mod user_type;
pub mod whisper;

pub use crate::message::Message;
pub use crate::message_kind::MessageKind;
pub use capability::Capability;
pub use clear_chat::{ClearChat, ClearChatTarget};
pub use clear_msg::ClearMsg;
pub use global_user_state::GlobalUserState;
pub use host_target::{HostMode, HostTarget};
pub use irc_ready::IrcReady;
pub use join::Join;
pub use notice::Notice;
pub use notice_kind::NoticeKind;
pub use part::Part;
pub use ping::Ping;
pub use pong::Pong;
pub use privmsg::Privmsg;
pub use ready::Ready;
pub use reconnect::Reconnect;
pub use room_state::RoomState;
pub use twitch_message::TwitchMessage;
pub use user_notice::UserNotice;
pub use user_notice_id::UserNoticeId;
pub use user_state::UserState;
pub use user_type::UserType;
pub use whisper::Whisper;
