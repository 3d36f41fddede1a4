//! A channel starts or stops showing another channel.
use std::borrow::Cow;
use vstd::prelude::*;
use vstd::slice::slice_subrange;
use crate::message::{Message, MessageModel};
use crate::message_kind::{KindModel, MessageKind};
use crate::text::{
    as_str, byte_offset, chars_of, copy_text, decimal, find, find_char, lift_text, offset_of,
    parse_decimal,
};
use crate::typed_messages::{Sealed, TypedMessageMarker};

verus! {

/// `HOSTTARGET`: a channel starts or stops hosting another one.
#[derive(Debug, PartialEq, Eq)]
pub struct HostTarget<'a> {
    /// The line itself.
    pub raw: Cow<'a, str>,
    /// The channel that hosts.
    pub hosting_channel: Cow<'a, str>,
    /// Whether the hosting starts or ends.
    pub host_mode: HostMode,
}

/// Whether a hosting starts or ends.
#[derive(Debug, Copy, Clone, PartialEq, Eq)]
pub enum HostMode {
    /// The hosting starts.
    Start {
        /// Where the name of the hosted channel stands in the text of the
        /// message, in bytes: its start, and the end behind its last byte.
        channel: (usize, usize),
        /// How many viewers watch.
        viewers: usize,
    },
    /// The hosting ends.
    End {
        /// How many viewers watched.
        viewers: usize,
    },
}

/// What the view holds, as plain text.
pub struct HostTargetModel {
    pub raw: Seq<char>,
    pub hosting_channel: Seq<char>,
    pub host_mode: HostMode,
}

impl<'a> View for HostTarget<'a> {
    type V = HostTargetModel;

    open spec fn view(&self) -> HostTargetModel {
        HostTargetModel {
            raw: self.raw@,
            hosting_channel: self.hosting_channel@,
            host_mode: self.host_mode,
        }
    }
}

/// What the text of a `HOSTTARGET` says: `- ` and a number for the end of a
/// hosting; a channel, a space and a number for its start. The number is that
/// of the viewers.
pub open spec fn host_mode_of(s: Seq<char>) -> Option<HostMode> {
    if s.len() >= 2 && s[0] == '-' && s[1] == ' ' {
        match decimal(s.skip(2), usize::MAX as nat) {
            Some(viewers) => Some(HostMode::End { viewers: viewers as usize }),
            None => None,
        }
    } else {
        match find(s, ' ') {
            Some(end) => match decimal(s.skip(end + 1), usize::MAX as nat) {
                Some(viewers) => Some(
                    HostMode::Start {
                        channel: (0, byte_offset(s, end) as usize),
                        viewers: viewers as usize,
                    },
                ),
                None => None,
            },
            None => None,
        }
    }
}

/// The mode that a message names in its text, where it has a text that names
/// one.
pub open spec fn mode_in(message: MessageModel) -> Option<HostMode> {
    match message.data {
        Some(data) => host_mode_of(data),
        None => None,
    }
}

impl<'a> Clone for HostTarget<'a> {
    fn clone(&self) -> (r: HostTarget<'a>)
        ensures
            r@ == self@,
    {
        HostTarget {
            raw: copy_text(&self.raw),
            hosting_channel: copy_text(&self.hosting_channel),
            host_mode: self.host_mode,
        }
    }
}

impl<'a> HostTarget<'a> {
    /// Every text of this view is a text of its own: nothing is borrowed.
    pub open spec fn is_owned(&self) -> bool {
        self.raw is Owned
            && self.hosting_channel is Owned
    }

    /// This view with text of its own, which no longer borrows from the
    /// line that it was parsed from.
    pub fn lifted(self) -> (r: HostTarget<'static>)
        ensures
            r@ == self@,
            r.is_owned(),
    {
        HostTarget {
            raw: lift_text(self.raw),
            hosting_channel: lift_text(self.hosting_channel),
            host_mode: self.host_mode,
        }
    }

    /// Reads the text of a `HOSTTARGET`.
    pub fn parse_host_mode(input: &str) -> (r: Option<HostMode>)
        ensures
            r == host_mode_of(input@),
    {
        let chars = chars_of(input);
        let s = chars.as_slice();
        if s.len() >= 2 && s[0] == '-' && s[1] == ' ' {
            return match parse_decimal(slice_subrange(s, 2, s.len()), usize::MAX) {
                Some(viewers) => Some(HostMode::End { viewers }),
                None => None,
            };
        }
        match find_char(s, ' ') {
            Some(end) => match parse_decimal(slice_subrange(s, end + 1, s.len()), usize::MAX) {
                Some(viewers) => Some(
                    HostMode::Start { channel: (0, offset_of(s, end)), viewers },
                ),
                None => None,
            },
            None => None,
        }
    }

    fn mode_of(message: &Message<'a>) -> (r: Option<HostMode>)
        ensures
            r == mode_in(message@),
    {
        match &message.data {
            Some(data) => HostTarget::parse_host_mode(as_str(data)),
            None => None,
        }
    }

    /// Whether `message` has every part that this view needs.
    pub fn fits(message: &Message<'a>) -> (r: bool)
        ensures
            r == (Self::narrowed(message@) is Some),
    {
        assert(message@.args.len() == message.args@.len());
        message.args.len() > 0 && HostTarget::mode_of(message).is_some()
    }
}

impl<'a> Sealed for HostTarget<'a> {

}

impl<'a> TypedMessageMarker<'a> for HostTarget<'a> {
    open spec fn accepts(kind: KindModel) -> bool {
        kind is HostTarget
    }

    open spec fn narrowed(message: MessageModel) -> Option<HostTargetModel> {
        if message.args.len() > 0 && mode_in(message) is Some {
            Some(
                HostTargetModel {
                    raw: message.raw,
                    hosting_channel: message.args[0],
                    host_mode: mode_in(message)->0,
                },
            )
        } else {
            None
        }
    }

    open spec fn is_borrowed(&self) -> bool {
        self.raw is Borrowed
            && self.hosting_channel is Borrowed
    }

    open spec fn view_name() -> Seq<char> {
        "HostTarget"@
    }

    fn is_kind(kind: &MessageKind<'_>) -> (r: bool) {
        match kind {
            MessageKind::HostTarget => true,
            _ => false,
        }
    }

    fn kind() -> (r: &'static str) {
        "HostTarget"
    }

    fn from_message(message: Message<'a>) -> (r: Result<HostTarget<'a>, Message<'a>>) {
        assert(message@.args.len() == message.args@.len());
        if message.args.len() == 0 {
            return Err(message);
        }
        let host_mode = match HostTarget::mode_of(&message) {
            Some(mode) => mode,
            None => {
                return Err(message);
            },
        };
        let Message { raw, mut args, .. } = message;
        Ok(HostTarget { raw, hosting_channel: args.remove(0), host_mode })
    }

    fn from_ref<'b>(message: &'b Message<'a>) -> (r: Result<HostTarget<'a>, &'b Message<'a>>) {
        assert(message@.args.len() == message.args@.len());
        if message.args.len() == 0 {
            return Err(message);
        }
        let host_mode = match HostTarget::mode_of(message) {
            Some(mode) => mode,
            None => {
                return Err(message);
            },
        };
        Ok(
            HostTarget {
                raw: copy_text(&message.raw),
                hosting_channel: copy_text(&message.args[0]),
                host_mode,
            },
        )
    }
}

} // verus!
