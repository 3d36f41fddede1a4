//! Parsing of Twitch chat lines into typed messages, without any I/O.
//!
//! A line of text goes in; a generic [`messages::Message`] comes out, and from it,
//! on demand, one of the typed views of [`messages`]. What comes out borrows
//! its text from the line; [`IntoStatic`] lifts it out of the line.
pub mod badges;
pub mod builders;
pub mod color;
pub mod emotes;
pub mod encode;
pub mod error;
pub mod escape;
pub mod into_static;
pub mod message;
pub mod message_kind;
pub mod messages;
pub mod parse;
pub mod ping_tracker;
pub mod prefix;
pub mod tags;
pub mod text;
pub mod typed_messages;

pub use badges::{parse_badges, Badge, BadgeInfo};
pub use color::Color;
pub use emotes::{parse_emotes, Emote};
pub use error::Error;
pub use into_static::IntoStatic;
pub use parse::{parse, parse_as, parse_many, ParseMany, ParseResult};
pub use ping_tracker::PingTracker;
pub use prefix::Prefix;
pub use tags::Tags;

use vstd::prelude::*;

verus! {

/// The address of the chat server, for plain TCP.
pub const TWITCH_IRC_ADDRESS: &'static str = "irc.chat.twitch.tv:6667";

/// The address of the chat server, for TCP with TLS.
pub const TWITCH_IRC_ADDRESS_TLS: &'static str = "irc.chat.twitch.tv:6697";

/// The address of the chat server, for WebSocket.
pub const TWITCH_WS_ADDRESS: &'static str = "ws://irc-ws.chat.twitch.tv:80";

/// The address of the chat server, for WebSocket with TLS.
pub const TWITCH_WS_ADDRESS_TLS: &'static str = "wss://irc-ws.chat.twitch.tv:443";

/// The domain that the certificate of the chat server names.
pub const TWITCH_TLS_DOMAIN: &'static str = "irc.chat.twitch.tv";

/// The name, and the password, of a login that may read but not write.
pub const ANONYMOUS_LOGIN: (&'static str, &'static str) = ("justinfan1234", "justinfan1234");

} // verus!
