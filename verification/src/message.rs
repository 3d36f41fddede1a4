//! The generic message: what every line is parsed into.
use std::borrow::Cow;
use vstd::prelude::*;
use vstd::string::StrSliceExecFns;
use crate::error::{Error, ErrorModel};
use crate::into_static::IntoStatic;
use crate::message_kind::{command_of, KindModel, MessageKind};
use crate::messages::twitch_message::{union_of, TwitchMessage};
use crate::messages::{
    Capability, ClearChat, ClearMsg, GlobalUserState, HostTarget, IrcReady, Join, Notice, Part,
    Ping, Pong, Privmsg, Ready, Reconnect, RoomState, UserNotice, UserState, Whisper,
};
use crate::parse::Parse;
use crate::prefix::{prefix_of, Prefix, PrefixModel};
use crate::tags::{tags_of, Tags};
use crate::text::{
    all_borrowed, all_owned, chars_of, copy_opt, copy_text, copy_texts, find_pair, find_two, lift_opt, lift_text,
    lift_texts, opt_text, str_words, strs, texts, words,
};
use crate::typed_messages::TypedMessageMarker;

verus! {

/// A chat message, as it came over the wire. A parsed message borrows its text
/// from the line that it was parsed from.
#[derive(Debug, PartialEq, Eq)]
pub struct Message<'a> {
    /// The line itself, without its terminator.
    pub raw: Cow<'a, str>,
    /// Metadata attached to the message.
    pub tags: Tags<'a>,
    /// Who sent it.
    pub prefix: Prefix<'a>,
    /// The kind of message.
    pub kind: MessageKind<'a>,
    /// The arguments of the command.
    pub args: Vec<Cow<'a, str>>,
    /// The text at the end of the line.
    pub data: Option<Cow<'a, str>>,
}

/// What a message holds, as plain text.
pub struct MessageModel {
    pub raw: Seq<char>,
    pub tags: Map<Seq<char>, Seq<char>>,
    pub prefix: PrefixModel,
    pub kind: KindModel,
    pub args: Seq<Seq<char>>,
    pub data: Option<Seq<char>>,
}

impl<'a> View for Message<'a> {
    type V = MessageModel;

    open spec fn view(&self) -> MessageModel {
        MessageModel {
            raw: self.raw@,
            tags: self.tags@,
            prefix: self.prefix@,
            kind: self.kind@,
            args: texts(self.args@),
            data: opt_text(self.data),
        }
    }
}

/// The arguments at the beginning of `s`, and what follows them. Behind a `:`
/// there are no arguments, only text. Else the arguments are the words before
/// the first ` :`, and without a ` :` the whole of `s` is the one argument.
pub open spec fn args_of(s: Seq<char>) -> (Seq<Seq<char>>, Seq<char>) {
    if s.len() > 0 && s[0] == ':' {
        (Seq::empty(), s.skip(1))
    } else {
        match find_pair(s, ' ', ':') {
            Some(end) => (words(s.take(end)), s.skip(end + 2)),
            None => (seq![s], Seq::empty()),
        }
    }
}

/// The text at the end of a line: what is left, unless nothing is.
pub open spec fn data_of(s: Seq<char>) -> Option<Seq<char>> {
    if s.len() > 0 {
        Some(s)
    } else {
        None
    }
}

/// The message that the line `line` holds: its tags, its prefix, its command
/// and its arguments, each read from where the one before stopped, and the
/// text that is left. The line is an error where its command is.
pub open spec fn message_of(line: Seq<char>) -> Result<MessageModel, ErrorModel> {
    let after_tags = tags_of(line).1;
    let after_prefix = prefix_of(after_tags).1;
    let after_command = command_of(after_prefix).1;
    match command_of(after_prefix).0 {
        Ok(kind) => Ok(
            MessageModel {
                raw: line,
                tags: match tags_of(line).0 {
                    Some(tags) => tags,
                    None => Map::empty(),
                },
                prefix: prefix_of(after_tags).0,
                kind,
                args: args_of(after_command).0,
                data: data_of(args_of(after_command).1),
            },
        ),
        Err(e) => Err(e),
    }
}

/// What is left of a line when its message has been read: nothing, unless its
/// command is an error, behind which the reading stops.
pub open spec fn rest_of_line(line: Seq<char>) -> Seq<char> {
    let after_command = command_of(prefix_of(tags_of(line).1).1);
    match after_command.0 {
        Ok(_) => Seq::empty(),
        Err(_) => after_command.1,
    }
}

/// `r` says of the message what `m` says.
pub open spec fn message_agrees<'a>(
    r: Result<Message<'a>, Error>,
    m: Result<MessageModel, ErrorModel>,
) -> bool {
    match r {
        Ok(message) => m == Ok::<MessageModel, ErrorModel>(message@),
        Err(e) => m == Err::<MessageModel, ErrorModel>(e@),
    }
}

impl<'a> Clone for Message<'a> {
    fn clone(&self) -> (r: Message<'a>)
        ensures
            r@ == self@,
            self.is_borrowed() ==> r.is_borrowed(),
    {
        Message {
            raw: copy_text(&self.raw),
            tags: self.tags.clone(),
            prefix: self.prefix.clone(),
            kind: self.kind.clone(),
            args: copy_texts(&self.args),
            data: copy_opt(&self.data),
        }
    }
}

impl<'a> Message<'a> {
    /// No text of this message is a copy: the line, the prefix, the command,
    /// the arguments and the text at the end are borrowed pieces. (The tags
    /// are left out: a value in which something was escaped has to be a text
    /// of its own.)
    pub open spec fn is_borrowed(&self) -> bool {
        &&& self.raw is Borrowed
        &&& self.prefix.is_borrowed()
        &&& self.kind.is_borrowed()
        &&& all_borrowed(self.args@)
        &&& self.data matches Some(text) ==> text is Borrowed
    }

    /// Every text of this message is a text of its own: nothing is borrowed.
    pub open spec fn is_owned(&self) -> bool {
        &&& self.raw is Owned
        &&& self.tags.is_owned()
        &&& self.prefix.is_owned()
        &&& self.kind.is_owned()
        &&& all_owned(self.args@)
        &&& self.data matches Some(text) ==> text is Owned
    }

    /// This message as the typed view `T`, where `T` is meant for its kind and
    /// the message has the parts that `T` needs. The message is left as it is.
    pub fn as_typed_message<T: TypedMessageMarker<'a>>(&self) -> (r: Option<T>)
        ensures
            r matches Some(view) ==> T::accepts(self@.kind) && T::narrowed(self@) == Some(view@),
            r matches Some(view) ==> (self.is_borrowed() ==> view.is_borrowed()),
            r is None ==> !(T::accepts(self@.kind) && T::narrowed(self@) is Some),
    {
        if !T::is_kind(&self.kind) {
            return None;
        }
        match T::from_ref(self) {
            Ok(view) => Some(view),
            Err(_) => None,
        }
    }

    /// This message as the typed view that its kind calls for, or a copy of
    /// it where no view fits. The message is left as it is.
    pub fn as_enum(&self) -> (r: TwitchMessage<'a>)
        ensures
            r@ == union_of(self@),
            self.is_borrowed() ==> r.is_borrowed(),
    {
        match self.kind {
            MessageKind::Capability => match Capability::from_ref(self) {
                Ok(view) => TwitchMessage::Capability(view),
                Err(_) => TwitchMessage::Message(self.clone()),
            },
            MessageKind::Ping => match Ping::from_ref(self) {
                Ok(view) => TwitchMessage::Ping(view),
                Err(_) => TwitchMessage::Message(self.clone()),
            },
            MessageKind::Pong => match Pong::from_ref(self) {
                Ok(view) => TwitchMessage::Pong(view),
                Err(_) => TwitchMessage::Message(self.clone()),
            },
            MessageKind::IrcReady => match IrcReady::from_ref(self) {
                Ok(view) => TwitchMessage::IrcReady(view),
                Err(_) => TwitchMessage::Message(self.clone()),
            },
            MessageKind::Ready => match Ready::from_ref(self) {
                Ok(view) => TwitchMessage::Ready(view),
                Err(_) => TwitchMessage::Message(self.clone()),
            },
            MessageKind::GlobalUserState => match GlobalUserState::from_ref(self) {
                Ok(view) => TwitchMessage::GlobalUserState(view),
                Err(_) => TwitchMessage::Message(self.clone()),
            },
            MessageKind::UserState => match UserState::from_ref(self) {
                Ok(view) => TwitchMessage::UserState(view),
                Err(_) => TwitchMessage::Message(self.clone()),
            },
            MessageKind::RoomState => match RoomState::from_ref(self) {
                Ok(view) => TwitchMessage::RoomState(view),
                Err(_) => TwitchMessage::Message(self.clone()),
            },
            MessageKind::Privmsg => match Privmsg::from_ref(self) {
                Ok(view) => TwitchMessage::Privmsg(view),
                Err(_) => TwitchMessage::Message(self.clone()),
            },
            MessageKind::Join => match Join::from_ref(self) {
                Ok(view) => TwitchMessage::Join(view),
                Err(_) => TwitchMessage::Message(self.clone()),
            },
            MessageKind::Part => match Part::from_ref(self) {
                Ok(view) => TwitchMessage::Part(view),
                Err(_) => TwitchMessage::Message(self.clone()),
            },
            MessageKind::ClearChat => match ClearChat::from_ref(self) {
                Ok(view) => TwitchMessage::ClearChat(view),
                Err(_) => TwitchMessage::Message(self.clone()),
            },
            MessageKind::ClearMsg => match ClearMsg::from_ref(self) {
                Ok(view) => TwitchMessage::ClearMsg(view),
                Err(_) => TwitchMessage::Message(self.clone()),
            },
            MessageKind::Notice => match Notice::from_ref(self) {
                Ok(view) => TwitchMessage::Notice(view),
                Err(_) => TwitchMessage::Message(self.clone()),
            },
            MessageKind::HostTarget => match HostTarget::from_ref(self) {
                Ok(view) => TwitchMessage::HostTarget(view),
                Err(_) => TwitchMessage::Message(self.clone()),
            },
            MessageKind::UserNotice => match UserNotice::from_ref(self) {
                Ok(view) => TwitchMessage::UserNotice(view),
                Err(_) => TwitchMessage::Message(self.clone()),
            },
            MessageKind::Whisper => match Whisper::from_ref(self) {
                Ok(view) => TwitchMessage::Whisper(view),
                Err(_) => TwitchMessage::Message(self.clone()),
            },
            MessageKind::Reconnect => match Reconnect::from_ref(self) {
                Ok(view) => TwitchMessage::Reconnect(view),
                Err(_) => TwitchMessage::Message(self.clone()),
            },
            _ => TwitchMessage::Message(self.clone()),
        }
    }

    /// This message with text of its own, which no longer borrows from the
    /// line that it was parsed from.
    pub fn lifted(self) -> (r: Message<'static>)
        ensures
            r@ == self@,
            r.is_owned(),
    {
        Message {
            raw: lift_text(self.raw),
            tags: self.tags.lifted(),
            prefix: self.prefix.lifted(),
            kind: self.kind.lifted(),
            args: lift_texts(self.args),
            data: lift_opt(self.data),
        }
    }

    /// Reads one line, which holds no terminator, and leaves in `input` what
    /// was not read: nothing, unless the line is an error. The message
    /// borrows from the line.
    pub fn read(input: &mut &'a str) -> (r: Result<Message<'a>, Error>)
        ensures
            message_agrees(r, message_of(old(input)@)),
            r matches Ok(message) ==> message.is_borrowed(),
            final(input)@ == rest_of_line(old(input)@),
    {
        let raw: &'a str = *input;
        let tags = match Tags::read(input) {
            Some(tags) => tags,
            None => Tags::new(),
        };
        let prefix = Prefix::read(input);
        let kind = match MessageKind::read(input) {
            Ok(kind) => kind,
            Err(e) => {
                return Err(e);
            },
        };
        let args = Message::parse_args(input);
        let data = Message::parse_data(input);
        Ok(Message { raw: Cow::Borrowed(raw), tags, prefix, kind, args, data })
    }

    fn parse_args(input: &mut &'a str) -> (r: Vec<Cow<'a, str>>)
        ensures
            texts(r@) == args_of(old(input)@).0,
            all_borrowed(r@),
            final(input)@ == args_of(old(input)@).1,
    {
        let s: &'a str = *input;
        let chars = chars_of(s);
        let n: usize = chars.len();
        let mut args: Vec<Cow<'a, str>> = Vec::new();
        if n > 0 && chars[0] == ':' {
            *input = s.substring_char(1, n);
            assert(texts(args@) =~= Seq::empty());
            return args;
        }
        match find_two(chars.as_slice(), ' ', ':') {
            Some(end) => {
                let pieces = str_words(s.substring_char(0, end));
                let mut i: usize = 0;
                while i < pieces.len()
                    invariant
                        i <= pieces.len(),
                        args@.len() == i,
                        forall|j: int|
                            0 <= j < i ==> args@[j]@ == pieces@[j]@ && (#[trigger] args@[j])
                                is Borrowed,
                    decreases pieces.len() - i,
                {
                    args.push(Cow::Borrowed(pieces[i]));
                    i += 1;
                }
                assert(texts(args@) =~= strs(pieces@));
                *input = s.substring_char(end + 2, n);
                args
            },
            None => {
                args.push(Cow::Borrowed(s));
                assert(texts(args@) =~= seq![s@]);
                proof {
                    reveal_strlit("");
                }
                *input = "";
                assert(input@ =~= Seq::<char>::empty());
                args
            },
        }
    }

    fn parse_data(input: &mut &'a str) -> (r: Option<Cow<'a, str>>)
        ensures
            opt_text(r) == data_of(old(input)@),
            r matches Some(text) ==> text is Borrowed,
            final(input)@ == Seq::<char>::empty(),
    {
        let s: &'a str = *input;
        if s.is_empty() {
            assert(s@ =~= Seq::<char>::empty());
            None
        } else {
            proof {
                reveal_strlit("");
            }
            *input = "";
            assert(input@ =~= Seq::<char>::empty());
            Some(Cow::Borrowed(s))
        }
    }
}

impl Message<'static> {
    /// Turns this message into the typed view `T`, lifted, where `T` is meant
    /// for its kind and the message has the parts that `T` needs. Else the
    /// message comes back as it was.
    pub fn into_typed_message<T>(self) -> (r: Result<T::Output, Message<'static>>) where
        T: TypedMessageMarker<'static> + IntoStatic,

        ensures
            r matches Ok(view) ==> T::accepts(self@.kind) && T::narrowed(self@) == Some(view@),
            r matches Err(back) ==> back == self && !(T::accepts(self@.kind) && T::narrowed(
                self@,
            ) is Some),
    {
        if !T::is_kind(&self.kind) {
            return Err(self);
        }
        match T::from_message(self) {
            Ok(view) => Ok(view.into_static()),
            Err(back) => Err(back),
        }
    }

    /// Turns this message into the typed view that its kind calls for; it
    /// stays as it is where no view fits.
    pub fn into_enum(self) -> (r: TwitchMessage<'static>)
        ensures
            r@ == union_of(self@),
            self.is_borrowed() ==> r.is_borrowed(),
    {
        match self.kind {
            MessageKind::Capability => match Capability::from_message(self) {
                Ok(view) => TwitchMessage::Capability(view),
                Err(back) => TwitchMessage::Message(back),
            },
            MessageKind::Ping => match Ping::from_message(self) {
                Ok(view) => TwitchMessage::Ping(view),
                Err(back) => TwitchMessage::Message(back),
            },
            MessageKind::Pong => match Pong::from_message(self) {
                Ok(view) => TwitchMessage::Pong(view),
                Err(back) => TwitchMessage::Message(back),
            },
            MessageKind::IrcReady => match IrcReady::from_message(self) {
                Ok(view) => TwitchMessage::IrcReady(view),
                Err(back) => TwitchMessage::Message(back),
            },
            MessageKind::Ready => match Ready::from_message(self) {
                Ok(view) => TwitchMessage::Ready(view),
                Err(back) => TwitchMessage::Message(back),
            },
            MessageKind::GlobalUserState => match GlobalUserState::from_message(self) {
                Ok(view) => TwitchMessage::GlobalUserState(view),
                Err(back) => TwitchMessage::Message(back),
            },
            MessageKind::UserState => match UserState::from_message(self) {
                Ok(view) => TwitchMessage::UserState(view),
                Err(back) => TwitchMessage::Message(back),
            },
            MessageKind::RoomState => match RoomState::from_message(self) {
                Ok(view) => TwitchMessage::RoomState(view),
                Err(back) => TwitchMessage::Message(back),
            },
            MessageKind::Privmsg => match Privmsg::from_message(self) {
                Ok(view) => TwitchMessage::Privmsg(view),
                Err(back) => TwitchMessage::Message(back),
            },
            MessageKind::Join => match Join::from_message(self) {
                Ok(view) => TwitchMessage::Join(view),
                Err(back) => TwitchMessage::Message(back),
            },
            MessageKind::Part => match Part::from_message(self) {
                Ok(view) => TwitchMessage::Part(view),
                Err(back) => TwitchMessage::Message(back),
            },
            MessageKind::ClearChat => match ClearChat::from_message(self) {
                Ok(view) => TwitchMessage::ClearChat(view),
                Err(back) => TwitchMessage::Message(back),
            },
            MessageKind::ClearMsg => match ClearMsg::from_message(self) {
                Ok(view) => TwitchMessage::ClearMsg(view),
                Err(back) => TwitchMessage::Message(back),
            },
            MessageKind::Notice => match Notice::from_message(self) {
                Ok(view) => TwitchMessage::Notice(view),
                Err(back) => TwitchMessage::Message(back),
            },
            MessageKind::HostTarget => match HostTarget::from_message(self) {
                Ok(view) => TwitchMessage::HostTarget(view),
                Err(back) => TwitchMessage::Message(back),
            },
            MessageKind::UserNotice => match UserNotice::from_message(self) {
                Ok(view) => TwitchMessage::UserNotice(view),
                Err(back) => TwitchMessage::Message(back),
            },
            MessageKind::Whisper => match Whisper::from_message(self) {
                Ok(view) => TwitchMessage::Whisper(view),
                Err(back) => TwitchMessage::Message(back),
            },
            MessageKind::Reconnect => match Reconnect::from_message(self) {
                Ok(view) => TwitchMessage::Reconnect(view),
                Err(back) => TwitchMessage::Message(back),
            },
            _ => TwitchMessage::Message(self),
        }
    }
}

impl<'a> From<Cow<'a, Message<'a>>> for Message<'static> {
    /// Lifts the message, or a copy of it where it is only lent.
    fn from(value: Cow<'a, Message<'a>>) -> (r: Message<'static>)
        ensures
            r@ == value@,
            r.is_owned(),
    {
        match value {
            Cow::Borrowed(message) => message.clone().lifted(),
            Cow::Owned(message) => message.lifted(),
        }
    }
}

impl<'a> vstd::std_specs::convert::FromSpecImpl<Cow<'a, Message<'a>>> for Message<'static> {
    /// Nothing is said of which message comes out beyond what `from` itself
    /// ensures: a copy is no value that a specification could name.
    open spec fn obeys_from_spec() -> bool {
        false
    }

    open spec fn from_spec(value: Cow<'a, Message<'a>>) -> Message<'static> {
        arbitrary()
    }
}

impl<'a> Parse<'a> for Message<'a> {
    type Output = Result<Message<'a>, Error>;

    open spec fn rest_of(input: Seq<char>) -> Seq<char> {
        rest_of_line(input)
    }

    fn parse(input: &mut &'a str) -> (r: Result<Message<'a>, Error>)
        ensures
            message_agrees(r, message_of(old(input)@)),
    {
        Message::read(input)
    }
}

} // verus!
