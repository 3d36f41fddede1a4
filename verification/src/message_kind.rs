//! The kind of a message, as its command names it.
use std::borrow::Cow;
use vstd::prelude::*;
use crate::error::{Error, ErrorModel};
use crate::parse::Parse;
use crate::text::{
    all_digits, chars_of, copy_text, decimal, is_all_digits, lift_text, parse_decimal,
    split_once, str_cut_once, str_eq,
};

verus! {

/// The kind of a [`Message`](crate::messages::Message).
#[derive(Debug, PartialEq, Eq, PartialOrd, Ord, Hash)]
pub enum MessageKind<'a> {
    /// `CAP`: capabilities.
    Capability,
    /// `PING`: a ping.
    Ping,
    /// `PONG`: a pong.
    Pong,
    /// `001`: the welcome of the server.
    IrcReady,
    /// `376`: the end of the welcome.
    Ready,
    /// `GLOBALUSERSTATE`: the state of the user on the whole server.
    GlobalUserState,
    /// `USERSTATE`: the state of the user in a channel.
    UserState,
    /// `ROOMSTATE`: the state of a channel.
    RoomState,
    /// `PRIVMSG`: a chat post.
    Privmsg,
    /// `JOIN`: a user joins a channel.
    Join,
    /// `PART`: a user leaves a channel.
    Part,
    /// `CLEARCHAT`: messages are removed from a channel.
    ClearChat,
    /// `CLEARMSG`: one message is removed.
    ClearMsg,
    /// `NOTICE`: a notice from the server.
    Notice,
    /// `HOSTTARGET`: a channel starts or stops hosting.
    HostTarget,
    /// `USERNOTICE`: an event in a channel.
    UserNotice,
    /// `WHISPER`: a private message.
    Whisper,
    /// `RECONNECT`: the server is about to close the connection.
    Reconnect,
    /// A numeric reply that has no name of its own.
    Numeric(u16),
    /// A command that this crate does not know.
    Unknown(Cow<'a, str>),
}

/// What a kind holds, as plain text.
pub enum KindModel {
    Capability,
    Ping,
    Pong,
    IrcReady,
    Ready,
    GlobalUserState,
    UserState,
    RoomState,
    Privmsg,
    Join,
    Part,
    ClearChat,
    ClearMsg,
    Notice,
    HostTarget,
    UserNotice,
    Whisper,
    Reconnect,
    Numeric(u16),
    Unknown(Seq<char>),
}

impl<'a> View for MessageKind<'a> {
    type V = KindModel;

    open spec fn view(&self) -> KindModel {
        match self {
            MessageKind::Capability => KindModel::Capability,
            MessageKind::Ping => KindModel::Ping,
            MessageKind::Pong => KindModel::Pong,
            MessageKind::IrcReady => KindModel::IrcReady,
            MessageKind::Ready => KindModel::Ready,
            MessageKind::GlobalUserState => KindModel::GlobalUserState,
            MessageKind::UserState => KindModel::UserState,
            MessageKind::RoomState => KindModel::RoomState,
            MessageKind::Privmsg => KindModel::Privmsg,
            MessageKind::Join => KindModel::Join,
            MessageKind::Part => KindModel::Part,
            MessageKind::ClearChat => KindModel::ClearChat,
            MessageKind::ClearMsg => KindModel::ClearMsg,
            MessageKind::Notice => KindModel::Notice,
            MessageKind::HostTarget => KindModel::HostTarget,
            MessageKind::UserNotice => KindModel::UserNotice,
            MessageKind::Whisper => KindModel::Whisper,
            MessageKind::Reconnect => KindModel::Reconnect,
            MessageKind::Numeric(n) => KindModel::Numeric(*n),
            MessageKind::Unknown(s) => KindModel::Unknown(s@),
        }
    }
}

impl<'a> Clone for MessageKind<'a> {
    fn clone(&self) -> (r: MessageKind<'a>)
        ensures
            r@ == self@,
            self.is_borrowed() ==> r.is_borrowed(),
    {
        match self {
            MessageKind::Capability => MessageKind::Capability,
            MessageKind::Ping => MessageKind::Ping,
            MessageKind::Pong => MessageKind::Pong,
            MessageKind::IrcReady => MessageKind::IrcReady,
            MessageKind::Ready => MessageKind::Ready,
            MessageKind::GlobalUserState => MessageKind::GlobalUserState,
            MessageKind::UserState => MessageKind::UserState,
            MessageKind::RoomState => MessageKind::RoomState,
            MessageKind::Privmsg => MessageKind::Privmsg,
            MessageKind::Join => MessageKind::Join,
            MessageKind::Part => MessageKind::Part,
            MessageKind::ClearChat => MessageKind::ClearChat,
            MessageKind::ClearMsg => MessageKind::ClearMsg,
            MessageKind::Notice => MessageKind::Notice,
            MessageKind::HostTarget => MessageKind::HostTarget,
            MessageKind::UserNotice => MessageKind::UserNotice,
            MessageKind::Whisper => MessageKind::Whisper,
            MessageKind::Reconnect => MessageKind::Reconnect,
            MessageKind::Numeric(n) => MessageKind::Numeric(*n),
            MessageKind::Unknown(s) => MessageKind::Unknown(copy_text(s)),
        }
    }
}

/// The name of a kind.
pub open spec fn kind_name(kind: KindModel) -> Seq<char> {
    match kind {
        KindModel::Capability => "Capability"@,
        KindModel::Ping => "Ping"@,
        KindModel::Pong => "Pong"@,
        KindModel::IrcReady => "IrcReady"@,
        KindModel::Ready => "Ready"@,
        KindModel::GlobalUserState => "GlobalUserState"@,
        KindModel::UserState => "UserState"@,
        KindModel::RoomState => "RoomState"@,
        KindModel::Privmsg => "Privmsg"@,
        KindModel::Join => "Join"@,
        KindModel::Part => "Part"@,
        KindModel::ClearChat => "ClearChat"@,
        KindModel::ClearMsg => "ClearMsg"@,
        KindModel::Notice => "Notice"@,
        KindModel::HostTarget => "HostTarget"@,
        KindModel::UserNotice => "UserNotice"@,
        KindModel::Whisper => "Whisper"@,
        KindModel::Reconnect => "Reconnect"@,
        KindModel::Numeric(_) => "Numeric"@,
        KindModel::Unknown(_) => "Unknown"@,
    }
}

/// The kind that the command `head` names. A command from the table has its
/// kind; any other made of digits only is a numeric reply, if the number fits
/// in 16 bits; anything else is an unknown command. No command at all is an
/// error.
pub open spec fn kind_of(head: Seq<char>) -> Result<KindModel, ErrorModel> {
    if head.len() == 0 {
        Err(ErrorModel::MalformedMessage)
    } else if head == "CAP"@ {
        Ok(KindModel::Capability)
    } else if head == "PING"@ {
        Ok(KindModel::Ping)
    } else if head == "PONG"@ {
        Ok(KindModel::Pong)
    } else if head == "001"@ {
        Ok(KindModel::IrcReady)
    } else if head == "376"@ {
        Ok(KindModel::Ready)
    } else if head == "GLOBALUSERSTATE"@ {
        Ok(KindModel::GlobalUserState)
    } else if head == "USERSTATE"@ {
        Ok(KindModel::UserState)
    } else if head == "ROOMSTATE"@ {
        Ok(KindModel::RoomState)
    } else if head == "PRIVMSG"@ {
        Ok(KindModel::Privmsg)
    } else if head == "NOTICE"@ {
        Ok(KindModel::Notice)
    } else if head == "CLEARCHAT"@ {
        Ok(KindModel::ClearChat)
    } else if head == "CLEARMSG"@ {
        Ok(KindModel::ClearMsg)
    } else if head == "HOSTTARGET"@ {
        Ok(KindModel::HostTarget)
    } else if head == "USERNOTICE"@ {
        Ok(KindModel::UserNotice)
    } else if head == "WHISPER"@ {
        Ok(KindModel::Whisper)
    } else if head == "RECONNECT"@ {
        Ok(KindModel::Reconnect)
    } else if head == "JOIN"@ {
        Ok(KindModel::Join)
    } else if head == "PART"@ {
        Ok(KindModel::Part)
    } else if all_digits(head) {
        match decimal(head, 0xFFFF) {
            Some(n) => Ok(KindModel::Numeric(n as u16)),
            None => Err(ErrorModel::InvalidNumeric),
        }
    } else {
        Ok(KindModel::Unknown(head))
    }
}

/// The kind that the beginning of `s` names, up to the first space or else to
/// the end, and what follows the space.
pub open spec fn command_of(s: Seq<char>) -> (Result<KindModel, ErrorModel>, Seq<char>) {
    match split_once(s, ' ') {
        Some((head, tail)) => (kind_of(head), tail),
        None => (kind_of(s), Seq::empty()),
    }
}

/// `r` says of the kind what `m` says.
pub open spec fn kind_agrees<'a>(
    r: Result<MessageKind<'a>, Error>,
    m: Result<KindModel, ErrorModel>,
) -> bool {
    match r {
        Ok(kind) => m == Ok::<KindModel, ErrorModel>(kind@),
        Err(e) => m == Err::<KindModel, ErrorModel>(e@),
    }
}

impl<'a> MessageKind<'a> {
    /// The text of this kind, if it has any, is a borrowed piece.
    pub open spec fn is_borrowed(&self) -> bool {
        match self {
            MessageKind::Unknown(s) => s is Borrowed,
            _ => true,
        }
    }

    /// The text of this kind, if it has any, is a text of its own.
    pub open spec fn is_owned(&self) -> bool {
        match self {
            MessageKind::Unknown(s) => s is Owned,
            _ => true,
        }
    }

    /// The name of this kind.
    pub fn as_str(&self) -> (r: &'static str)
        ensures
            r@ == kind_name(self@),
    {
        match self {
            MessageKind::Capability => "Capability",
            MessageKind::Ping => "Ping",
            MessageKind::Pong => "Pong",
            MessageKind::IrcReady => "IrcReady",
            MessageKind::Ready => "Ready",
            MessageKind::GlobalUserState => "GlobalUserState",
            MessageKind::UserState => "UserState",
            MessageKind::RoomState => "RoomState",
            MessageKind::Privmsg => "Privmsg",
            MessageKind::Join => "Join",
            MessageKind::Part => "Part",
            MessageKind::ClearChat => "ClearChat",
            MessageKind::ClearMsg => "ClearMsg",
            MessageKind::Notice => "Notice",
            MessageKind::HostTarget => "HostTarget",
            MessageKind::UserNotice => "UserNotice",
            MessageKind::Whisper => "Whisper",
            MessageKind::Reconnect => "Reconnect",
            MessageKind::Numeric(_) => "Numeric",
            MessageKind::Unknown(_) => "Unknown",
        }
    }

    /// The kind that the command `head` names.
    pub fn classify(head: &'a str) -> (r: Result<MessageKind<'a>, Error>)
        ensures
            kind_agrees(r, kind_of(head@)),
            r matches Ok(kind) ==> kind.is_borrowed(),
    {
        if head.is_empty() {
            return Err(Error::MalformedMessage);
        }
        let name = head;
        if str_eq(name, "CAP") {
            return Ok(MessageKind::Capability);
        }
        if str_eq(name, "PING") {
            return Ok(MessageKind::Ping);
        }
        if str_eq(name, "PONG") {
            return Ok(MessageKind::Pong);
        }
        if str_eq(name, "001") {
            return Ok(MessageKind::IrcReady);
        }
        if str_eq(name, "376") {
            return Ok(MessageKind::Ready);
        }
        if str_eq(name, "GLOBALUSERSTATE") {
            return Ok(MessageKind::GlobalUserState);
        }
        if str_eq(name, "USERSTATE") {
            return Ok(MessageKind::UserState);
        }
        if str_eq(name, "ROOMSTATE") {
            return Ok(MessageKind::RoomState);
        }
        if str_eq(name, "PRIVMSG") {
            return Ok(MessageKind::Privmsg);
        }
        if str_eq(name, "NOTICE") {
            return Ok(MessageKind::Notice);
        }
        if str_eq(name, "CLEARCHAT") {
            return Ok(MessageKind::ClearChat);
        }
        if str_eq(name, "CLEARMSG") {
            return Ok(MessageKind::ClearMsg);
        }
        if str_eq(name, "HOSTTARGET") {
            return Ok(MessageKind::HostTarget);
        }
        if str_eq(name, "USERNOTICE") {
            return Ok(MessageKind::UserNotice);
        }
        if str_eq(name, "WHISPER") {
            return Ok(MessageKind::Whisper);
        }
        if str_eq(name, "RECONNECT") {
            return Ok(MessageKind::Reconnect);
        }
        if str_eq(name, "JOIN") {
            return Ok(MessageKind::Join);
        }
        if str_eq(name, "PART") {
            return Ok(MessageKind::Part);
        }
        let digits = chars_of(head);
        if is_all_digits(digits.as_slice()) {
            return match parse_decimal(digits.as_slice(), 0xFFFF) {
                Some(n) => Ok(MessageKind::Numeric(n as u16)),
                None => Err(Error::InvalidNumeric),
            };
        }
        Ok(MessageKind::Unknown(Cow::Borrowed(head)))
    }

    /// Reads the command at the beginning of `input`, and leaves in `input`
    /// what follows it.
    pub fn read(input: &mut &'a str) -> (r: Result<MessageKind<'a>, Error>)
        ensures
            kind_agrees(r, command_of(old(input)@).0),
            r matches Ok(kind) ==> kind.is_borrowed(),
            final(input)@ == command_of(old(input)@).1,
    {
        let s: &'a str = *input;
        match str_cut_once(s, ' ') {
            Some((head, tail)) => {
                *input = tail;
                MessageKind::classify(head)
            },
            None => {
                proof {
                    reveal_strlit("");
                }
                *input = "";
                assert(input@ =~= Seq::<char>::empty());
                MessageKind::classify(s)
            },
        }
    }

    /// This kind with text of its own, which no longer borrows from the input.
    pub fn lifted(self) -> (r: MessageKind<'static>)
        ensures
            r@ == self@,
            r.is_owned(),
    {
        match self {
            MessageKind::Capability => MessageKind::Capability,
            MessageKind::Ping => MessageKind::Ping,
            MessageKind::Pong => MessageKind::Pong,
            MessageKind::IrcReady => MessageKind::IrcReady,
            MessageKind::Ready => MessageKind::Ready,
            MessageKind::GlobalUserState => MessageKind::GlobalUserState,
            MessageKind::UserState => MessageKind::UserState,
            MessageKind::RoomState => MessageKind::RoomState,
            MessageKind::Privmsg => MessageKind::Privmsg,
            MessageKind::Join => MessageKind::Join,
            MessageKind::Part => MessageKind::Part,
            MessageKind::ClearChat => MessageKind::ClearChat,
            MessageKind::ClearMsg => MessageKind::ClearMsg,
            MessageKind::Notice => MessageKind::Notice,
            MessageKind::HostTarget => MessageKind::HostTarget,
            MessageKind::UserNotice => MessageKind::UserNotice,
            MessageKind::Whisper => MessageKind::Whisper,
            MessageKind::Reconnect => MessageKind::Reconnect,
            MessageKind::Numeric(n) => MessageKind::Numeric(n),
            MessageKind::Unknown(s) => MessageKind::Unknown(lift_text(s)),
        }
    }
}

impl<'a> Parse<'a> for MessageKind<'a> {
    type Output = Result<MessageKind<'a>, Error>;

    open spec fn rest_of(input: Seq<char>) -> Seq<char> {
        command_of(input).1
    }

    fn parse(input: &mut &'a str) -> (r: Result<MessageKind<'a>, Error>)
        ensures
            kind_agrees(r, command_of(old(input)@).0),
    {
        MessageKind::read(input)
    }
}

} // verus!
