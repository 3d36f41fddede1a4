//! Every message as one type: the union of the typed views.
use vstd::prelude::*;
use crate::message::{Message, MessageModel};
use crate::message_kind::KindModel;
use crate::messages::capability::{Capability, CapabilityModel};
use crate::messages::clear_chat::{ClearChat, ClearChatModel};
use crate::messages::clear_msg::{ClearMsg, ClearMsgModel};
use crate::messages::global_user_state::{GlobalUserState, GlobalUserStateModel};
use crate::messages::host_target::{HostTarget, HostTargetModel};
use crate::messages::irc_ready::{IrcReady, IrcReadyModel};
use crate::messages::join::{Join, JoinModel};
use crate::messages::notice::{Notice, NoticeModel};
use crate::messages::part::{Part, PartModel};
use crate::messages::ping::{Ping, PingModel};
use crate::messages::pong::{Pong, PongModel};
use crate::messages::privmsg::{Privmsg, PrivmsgModel};
use crate::messages::ready::{Ready, ReadyModel};
use crate::messages::reconnect::{Reconnect, ReconnectModel};
use crate::messages::room_state::{RoomState, RoomStateModel};
use crate::messages::user_notice::{UserNotice, UserNoticeModel};
use crate::messages::user_state::{UserState, UserStateModel};
use crate::messages::whisper::{Whisper, WhisperModel};
use crate::typed_messages::TypedMessageMarker;

verus! {

/// A message as the typed view that its kind calls for, or as it is where no
/// view fits.
#[derive(Debug, PartialEq, Eq)]
pub enum TwitchMessage<'a> {
    /// The state of the user in a channel.
    UserState(UserState<'a>),
    /// An event in a channel.
    UserNotice(UserNotice<'a>),
    /// The server is about to close the connection.
    Reconnect(Reconnect<'a>),
    /// A channel starts or stops hosting.
    HostTarget(HostTarget<'a>),
    /// The settings of a channel.
    RoomState(RoomState<'a>),
    /// The first line of the welcome.
    IrcReady(IrcReady<'a>),
    /// A chat post.
    Privmsg(Privmsg<'a>),
    /// A private message.
    Whisper(Whisper<'a>),
    /// The outcome of a command.
    Notice(Notice<'a>),
    /// A ping.
    Ping(Ping<'a>),
    /// The answer to a ping.
    Pong(Pong<'a>),
    /// The last line of the welcome.
    Ready(Ready<'a>),
    /// The state of the user on the whole server.
    GlobalUserState(GlobalUserState<'a>),
    /// A user joins a channel.
    Join(Join<'a>),
    /// A user leaves a channel.
    Part(Part<'a>),
    /// One message was removed.
    ClearMsg(ClearMsg<'a>),
    /// A capability was granted or refused.
    Capability(Capability<'a>),
    /// Messages were removed from a channel.
    ClearChat(ClearChat<'a>),
    /// A message that no view fits.
    Message(Message<'a>),
}

/// What the union holds, as plain text.
pub enum TwitchModel {
    UserState(UserStateModel),
    UserNotice(UserNoticeModel),
    Reconnect(ReconnectModel),
    HostTarget(HostTargetModel),
    RoomState(RoomStateModel),
    IrcReady(IrcReadyModel),
    Privmsg(PrivmsgModel),
    Whisper(WhisperModel),
    Notice(NoticeModel),
    Ping(PingModel),
    Pong(PongModel),
    Ready(ReadyModel),
    GlobalUserState(GlobalUserStateModel),
    Join(JoinModel),
    Part(PartModel),
    ClearMsg(ClearMsgModel),
    Capability(CapabilityModel),
    ClearChat(ClearChatModel),
    Message(MessageModel),
}

impl<'a> View for TwitchMessage<'a> {
    type V = TwitchModel;

    open spec fn view(&self) -> TwitchModel {
        match self {
            TwitchMessage::UserState(view) => TwitchModel::UserState(view@),
            TwitchMessage::UserNotice(view) => TwitchModel::UserNotice(view@),
            TwitchMessage::Reconnect(view) => TwitchModel::Reconnect(view@),
            TwitchMessage::HostTarget(view) => TwitchModel::HostTarget(view@),
            TwitchMessage::RoomState(view) => TwitchModel::RoomState(view@),
            TwitchMessage::IrcReady(view) => TwitchModel::IrcReady(view@),
            TwitchMessage::Privmsg(view) => TwitchModel::Privmsg(view@),
            TwitchMessage::Whisper(view) => TwitchModel::Whisper(view@),
            TwitchMessage::Notice(view) => TwitchModel::Notice(view@),
            TwitchMessage::Ping(view) => TwitchModel::Ping(view@),
            TwitchMessage::Pong(view) => TwitchModel::Pong(view@),
            TwitchMessage::Ready(view) => TwitchModel::Ready(view@),
            TwitchMessage::GlobalUserState(view) => TwitchModel::GlobalUserState(view@),
            TwitchMessage::Join(view) => TwitchModel::Join(view@),
            TwitchMessage::Part(view) => TwitchModel::Part(view@),
            TwitchMessage::ClearMsg(view) => TwitchModel::ClearMsg(view@),
            TwitchMessage::Capability(view) => TwitchModel::Capability(view@),
            TwitchMessage::ClearChat(view) => TwitchModel::ClearChat(view@),
            TwitchMessage::Message(message) => TwitchModel::Message(message@),
        }
    }
}

impl<'a> Clone for TwitchMessage<'a> {
    fn clone(&self) -> (r: TwitchMessage<'a>)
        ensures
            r@ == self@,
    {
        match self {
            TwitchMessage::UserState(view) => TwitchMessage::UserState(view.clone()),
            TwitchMessage::UserNotice(view) => TwitchMessage::UserNotice(view.clone()),
            TwitchMessage::Reconnect(view) => TwitchMessage::Reconnect(view.clone()),
            TwitchMessage::HostTarget(view) => TwitchMessage::HostTarget(view.clone()),
            TwitchMessage::RoomState(view) => TwitchMessage::RoomState(view.clone()),
            TwitchMessage::IrcReady(view) => TwitchMessage::IrcReady(view.clone()),
            TwitchMessage::Privmsg(view) => TwitchMessage::Privmsg(view.clone()),
            TwitchMessage::Whisper(view) => TwitchMessage::Whisper(view.clone()),
            TwitchMessage::Notice(view) => TwitchMessage::Notice(view.clone()),
            TwitchMessage::Ping(view) => TwitchMessage::Ping(view.clone()),
            TwitchMessage::Pong(view) => TwitchMessage::Pong(view.clone()),
            TwitchMessage::Ready(view) => TwitchMessage::Ready(view.clone()),
            TwitchMessage::GlobalUserState(view) => TwitchMessage::GlobalUserState(view.clone()),
            TwitchMessage::Join(view) => TwitchMessage::Join(view.clone()),
            TwitchMessage::Part(view) => TwitchMessage::Part(view.clone()),
            TwitchMessage::ClearMsg(view) => TwitchMessage::ClearMsg(view.clone()),
            TwitchMessage::Capability(view) => TwitchMessage::Capability(view.clone()),
            TwitchMessage::ClearChat(view) => TwitchMessage::ClearChat(view.clone()),
            TwitchMessage::Message(message) => TwitchMessage::Message(message.clone()),
        }
    }
}

impl<'a> TwitchMessage<'a> {
    /// No text of this message is a copy: every text is a borrowed piece. (The
    /// tags are left out, as they are for a message.)
    pub open spec fn is_borrowed(&self) -> bool {
        match self {
            TwitchMessage::UserState(view) => view.is_borrowed(),
            TwitchMessage::UserNotice(view) => view.is_borrowed(),
            TwitchMessage::Reconnect(view) => view.is_borrowed(),
            TwitchMessage::HostTarget(view) => view.is_borrowed(),
            TwitchMessage::RoomState(view) => view.is_borrowed(),
            TwitchMessage::IrcReady(view) => view.is_borrowed(),
            TwitchMessage::Privmsg(view) => view.is_borrowed(),
            TwitchMessage::Whisper(view) => view.is_borrowed(),
            TwitchMessage::Notice(view) => view.is_borrowed(),
            TwitchMessage::Ping(view) => view.is_borrowed(),
            TwitchMessage::Pong(view) => view.is_borrowed(),
            TwitchMessage::Ready(view) => view.is_borrowed(),
            TwitchMessage::GlobalUserState(view) => view.is_borrowed(),
            TwitchMessage::Join(view) => view.is_borrowed(),
            TwitchMessage::Part(view) => view.is_borrowed(),
            TwitchMessage::ClearMsg(view) => view.is_borrowed(),
            TwitchMessage::Capability(view) => view.is_borrowed(),
            TwitchMessage::ClearChat(view) => view.is_borrowed(),
            TwitchMessage::Message(message) => message.is_borrowed(),
        }
    }

    /// Every text of this message is a text of its own: nothing is borrowed.
    pub open spec fn is_owned(&self) -> bool {
        match self {
            TwitchMessage::UserState(view) => view.is_owned(),
            TwitchMessage::UserNotice(view) => view.is_owned(),
            TwitchMessage::Reconnect(view) => view.is_owned(),
            TwitchMessage::HostTarget(view) => view.is_owned(),
            TwitchMessage::RoomState(view) => view.is_owned(),
            TwitchMessage::IrcReady(view) => view.is_owned(),
            TwitchMessage::Privmsg(view) => view.is_owned(),
            TwitchMessage::Whisper(view) => view.is_owned(),
            TwitchMessage::Notice(view) => view.is_owned(),
            TwitchMessage::Ping(view) => view.is_owned(),
            TwitchMessage::Pong(view) => view.is_owned(),
            TwitchMessage::Ready(view) => view.is_owned(),
            TwitchMessage::GlobalUserState(view) => view.is_owned(),
            TwitchMessage::Join(view) => view.is_owned(),
            TwitchMessage::Part(view) => view.is_owned(),
            TwitchMessage::ClearMsg(view) => view.is_owned(),
            TwitchMessage::Capability(view) => view.is_owned(),
            TwitchMessage::ClearChat(view) => view.is_owned(),
            TwitchMessage::Message(message) => message.is_owned(),
        }
    }

    /// This message with text of its own, which no longer borrows from the
    /// line that it was parsed from.
    pub fn lifted(self) -> (r: TwitchMessage<'static>)
        ensures
            r@ == self@,
            r.is_owned(),
    {
        match self {
            TwitchMessage::UserState(view) => TwitchMessage::UserState(view.lifted()),
            TwitchMessage::UserNotice(view) => TwitchMessage::UserNotice(view.lifted()),
            TwitchMessage::Reconnect(view) => TwitchMessage::Reconnect(view.lifted()),
            TwitchMessage::HostTarget(view) => TwitchMessage::HostTarget(view.lifted()),
            TwitchMessage::RoomState(view) => TwitchMessage::RoomState(view.lifted()),
            TwitchMessage::IrcReady(view) => TwitchMessage::IrcReady(view.lifted()),
            TwitchMessage::Privmsg(view) => TwitchMessage::Privmsg(view.lifted()),
            TwitchMessage::Whisper(view) => TwitchMessage::Whisper(view.lifted()),
            TwitchMessage::Notice(view) => TwitchMessage::Notice(view.lifted()),
            TwitchMessage::Ping(view) => TwitchMessage::Ping(view.lifted()),
            TwitchMessage::Pong(view) => TwitchMessage::Pong(view.lifted()),
            TwitchMessage::Ready(view) => TwitchMessage::Ready(view.lifted()),
            TwitchMessage::GlobalUserState(view) => TwitchMessage::GlobalUserState(view.lifted()),
            TwitchMessage::Join(view) => TwitchMessage::Join(view.lifted()),
            TwitchMessage::Part(view) => TwitchMessage::Part(view.lifted()),
            TwitchMessage::ClearMsg(view) => TwitchMessage::ClearMsg(view.lifted()),
            TwitchMessage::Capability(view) => TwitchMessage::Capability(view.lifted()),
            TwitchMessage::ClearChat(view) => TwitchMessage::ClearChat(view.lifted()),
            TwitchMessage::Message(message) => TwitchMessage::Message(message.lifted()),
        }
    }
}

/// The view of `message` that its kind calls for, where the message has the
/// parts that the view needs; else the message as it is. The views are asked in
/// a fixed order.
pub open spec fn union_of(message: MessageModel) -> TwitchModel {
    if Capability::accepts(message.kind) {
        match Capability::narrowed(message) {
            Some(view) => TwitchModel::Capability(view),
            None => TwitchModel::Message(message),
        }
    } else if Ping::accepts(message.kind) {
        match Ping::narrowed(message) {
            Some(view) => TwitchModel::Ping(view),
            None => TwitchModel::Message(message),
        }
    } else if Pong::accepts(message.kind) {
        match Pong::narrowed(message) {
            Some(view) => TwitchModel::Pong(view),
            None => TwitchModel::Message(message),
        }
    } else if IrcReady::accepts(message.kind) {
        match IrcReady::narrowed(message) {
            Some(view) => TwitchModel::IrcReady(view),
            None => TwitchModel::Message(message),
        }
    } else if Ready::accepts(message.kind) {
        match Ready::narrowed(message) {
            Some(view) => TwitchModel::Ready(view),
            None => TwitchModel::Message(message),
        }
    } else if GlobalUserState::accepts(message.kind) {
        match GlobalUserState::narrowed(message) {
            Some(view) => TwitchModel::GlobalUserState(view),
            None => TwitchModel::Message(message),
        }
    } else if UserState::accepts(message.kind) {
        match UserState::narrowed(message) {
            Some(view) => TwitchModel::UserState(view),
            None => TwitchModel::Message(message),
        }
    } else if RoomState::accepts(message.kind) {
        match RoomState::narrowed(message) {
            Some(view) => TwitchModel::RoomState(view),
            None => TwitchModel::Message(message),
        }
    } else if Privmsg::accepts(message.kind) {
        match Privmsg::narrowed(message) {
            Some(view) => TwitchModel::Privmsg(view),
            None => TwitchModel::Message(message),
        }
    } else if Join::accepts(message.kind) {
        match Join::narrowed(message) {
            Some(view) => TwitchModel::Join(view),
            None => TwitchModel::Message(message),
        }
    } else if Part::accepts(message.kind) {
        match Part::narrowed(message) {
            Some(view) => TwitchModel::Part(view),
            None => TwitchModel::Message(message),
        }
    } else if ClearChat::accepts(message.kind) {
        match ClearChat::narrowed(message) {
            Some(view) => TwitchModel::ClearChat(view),
            None => TwitchModel::Message(message),
        }
    } else if ClearMsg::accepts(message.kind) {
        match ClearMsg::narrowed(message) {
            Some(view) => TwitchModel::ClearMsg(view),
            None => TwitchModel::Message(message),
        }
    } else if Notice::accepts(message.kind) {
        match Notice::narrowed(message) {
            Some(view) => TwitchModel::Notice(view),
            None => TwitchModel::Message(message),
        }
    } else if HostTarget::accepts(message.kind) {
        match HostTarget::narrowed(message) {
            Some(view) => TwitchModel::HostTarget(view),
            None => TwitchModel::Message(message),
        }
    } else if UserNotice::accepts(message.kind) {
        match UserNotice::narrowed(message) {
            Some(view) => TwitchModel::UserNotice(view),
            None => TwitchModel::Message(message),
        }
    } else if Whisper::accepts(message.kind) {
        match Whisper::narrowed(message) {
            Some(view) => TwitchModel::Whisper(view),
            None => TwitchModel::Message(message),
        }
    } else if Reconnect::accepts(message.kind) {
        match Reconnect::narrowed(message) {
            Some(view) => TwitchModel::Reconnect(view),
            None => TwitchModel::Message(message),
        }
    } else {
        TwitchModel::Message(message)
    }
}

/// How many views are meant for a message of kind `kind`.
pub open spec fn accepting(kind: KindModel) -> nat {
    (if Capability::accepts(kind) {
        1nat
    } else {
        0nat
    }) + (if Ping::accepts(kind) {
        1nat
    } else {
        0nat
    }) + (if Pong::accepts(kind) {
        1nat
    } else {
        0nat
    }) + (if IrcReady::accepts(kind) {
        1nat
    } else {
        0nat
    }) + (if Ready::accepts(kind) {
        1nat
    } else {
        0nat
    }) + (if GlobalUserState::accepts(kind) {
        1nat
    } else {
        0nat
    }) + (if UserState::accepts(kind) {
        1nat
    } else {
        0nat
    }) + (if RoomState::accepts(kind) {
        1nat
    } else {
        0nat
    }) + (if Privmsg::accepts(kind) {
        1nat
    } else {
        0nat
    }) + (if Join::accepts(kind) {
        1nat
    } else {
        0nat
    }) + (if Part::accepts(kind) {
        1nat
    } else {
        0nat
    }) + (if ClearChat::accepts(kind) {
        1nat
    } else {
        0nat
    }) + (if ClearMsg::accepts(kind) {
        1nat
    } else {
        0nat
    }) + (if Notice::accepts(kind) {
        1nat
    } else {
        0nat
    }) + (if HostTarget::accepts(kind) {
        1nat
    } else {
        0nat
    }) + (if UserNotice::accepts(kind) {
        1nat
    } else {
        0nat
    }) + (if Whisper::accepts(kind) {
        1nat
    } else {
        0nat
    }) + (if Reconnect::accepts(kind) {
        1nat
    } else {
        0nat
    })
}

/// No kind of message is meant for two views.
pub proof fn lemma_at_most_one_view(kind: KindModel)
    ensures
        accepting(kind) <= 1,
{
}

/// The union of a message is the view of the one type that is meant for its
/// kind, where the message has what that view needs; it is the message itself
/// where it has not, and where no type is meant for its kind.
pub proof fn lemma_union_is_the_one_view(message: MessageModel)
    ensures
        Capability::accepts(message.kind) ==> union_of(message) == match Capability::narrowed(message) {
            Some(view) => TwitchModel::Capability(view),
            None => TwitchModel::Message(message),
        },
        Ping::accepts(message.kind) ==> union_of(message) == match Ping::narrowed(message) {
            Some(view) => TwitchModel::Ping(view),
            None => TwitchModel::Message(message),
        },
        Pong::accepts(message.kind) ==> union_of(message) == match Pong::narrowed(message) {
            Some(view) => TwitchModel::Pong(view),
            None => TwitchModel::Message(message),
        },
        IrcReady::accepts(message.kind) ==> union_of(message) == match IrcReady::narrowed(message) {
            Some(view) => TwitchModel::IrcReady(view),
            None => TwitchModel::Message(message),
        },
        Ready::accepts(message.kind) ==> union_of(message) == match Ready::narrowed(message) {
            Some(view) => TwitchModel::Ready(view),
            None => TwitchModel::Message(message),
        },
        GlobalUserState::accepts(message.kind) ==> union_of(message) == match GlobalUserState::narrowed(message) {
            Some(view) => TwitchModel::GlobalUserState(view),
            None => TwitchModel::Message(message),
        },
        UserState::accepts(message.kind) ==> union_of(message) == match UserState::narrowed(message) {
            Some(view) => TwitchModel::UserState(view),
            None => TwitchModel::Message(message),
        },
        RoomState::accepts(message.kind) ==> union_of(message) == match RoomState::narrowed(message) {
            Some(view) => TwitchModel::RoomState(view),
            None => TwitchModel::Message(message),
        },
        Privmsg::accepts(message.kind) ==> union_of(message) == match Privmsg::narrowed(message) {
            Some(view) => TwitchModel::Privmsg(view),
            None => TwitchModel::Message(message),
        },
        Join::accepts(message.kind) ==> union_of(message) == match Join::narrowed(message) {
            Some(view) => TwitchModel::Join(view),
            None => TwitchModel::Message(message),
        },
        Part::accepts(message.kind) ==> union_of(message) == match Part::narrowed(message) {
            Some(view) => TwitchModel::Part(view),
            None => TwitchModel::Message(message),
        },
        ClearChat::accepts(message.kind) ==> union_of(message) == match ClearChat::narrowed(message) {
            Some(view) => TwitchModel::ClearChat(view),
            None => TwitchModel::Message(message),
        },
        ClearMsg::accepts(message.kind) ==> union_of(message) == match ClearMsg::narrowed(message) {
            Some(view) => TwitchModel::ClearMsg(view),
            None => TwitchModel::Message(message),
        },
        Notice::accepts(message.kind) ==> union_of(message) == match Notice::narrowed(message) {
            Some(view) => TwitchModel::Notice(view),
            None => TwitchModel::Message(message),
        },
        HostTarget::accepts(message.kind) ==> union_of(message) == match HostTarget::narrowed(message) {
            Some(view) => TwitchModel::HostTarget(view),
            None => TwitchModel::Message(message),
        },
        UserNotice::accepts(message.kind) ==> union_of(message) == match UserNotice::narrowed(message) {
            Some(view) => TwitchModel::UserNotice(view),
            None => TwitchModel::Message(message),
        },
        Whisper::accepts(message.kind) ==> union_of(message) == match Whisper::narrowed(message) {
            Some(view) => TwitchModel::Whisper(view),
            None => TwitchModel::Message(message),
        },
        Reconnect::accepts(message.kind) ==> union_of(message) == match Reconnect::narrowed(message) {
            Some(view) => TwitchModel::Reconnect(view),
            None => TwitchModel::Message(message),
        },
        accepting(message.kind) == 0 ==> union_of(message) == TwitchModel::Message(message),
{
}

impl<'a> From<UserState<'a>> for TwitchMessage<'a> {
    fn from(view: UserState<'a>) -> (r: TwitchMessage<'a>) {
        TwitchMessage::UserState(view)
    }
}

impl<'a> vstd::std_specs::convert::FromSpecImpl<UserState<'a>> for TwitchMessage<'a> {
    open spec fn obeys_from_spec() -> bool {
        true
    }

    open spec fn from_spec(view: UserState<'a>) -> TwitchMessage<'a> {
        TwitchMessage::UserState(view)
    }
}

impl<'a> From<UserNotice<'a>> for TwitchMessage<'a> {
    fn from(view: UserNotice<'a>) -> (r: TwitchMessage<'a>) {
        TwitchMessage::UserNotice(view)
    }
}

impl<'a> vstd::std_specs::convert::FromSpecImpl<UserNotice<'a>> for TwitchMessage<'a> {
    open spec fn obeys_from_spec() -> bool {
        true
    }

    open spec fn from_spec(view: UserNotice<'a>) -> TwitchMessage<'a> {
        TwitchMessage::UserNotice(view)
    }
}

impl<'a> From<Reconnect<'a>> for TwitchMessage<'a> {
    fn from(view: Reconnect<'a>) -> (r: TwitchMessage<'a>) {
        TwitchMessage::Reconnect(view)
    }
}

impl<'a> vstd::std_specs::convert::FromSpecImpl<Reconnect<'a>> for TwitchMessage<'a> {
    open spec fn obeys_from_spec() -> bool {
        true
    }

    open spec fn from_spec(view: Reconnect<'a>) -> TwitchMessage<'a> {
        TwitchMessage::Reconnect(view)
    }
}

impl<'a> From<HostTarget<'a>> for TwitchMessage<'a> {
    fn from(view: HostTarget<'a>) -> (r: TwitchMessage<'a>) {
        TwitchMessage::HostTarget(view)
    }
}

impl<'a> vstd::std_specs::convert::FromSpecImpl<HostTarget<'a>> for TwitchMessage<'a> {
    open spec fn obeys_from_spec() -> bool {
        true
    }

    open spec fn from_spec(view: HostTarget<'a>) -> TwitchMessage<'a> {
        TwitchMessage::HostTarget(view)
    }
}

impl<'a> From<RoomState<'a>> for TwitchMessage<'a> {
    fn from(view: RoomState<'a>) -> (r: TwitchMessage<'a>) {
        TwitchMessage::RoomState(view)
    }
}

impl<'a> vstd::std_specs::convert::FromSpecImpl<RoomState<'a>> for TwitchMessage<'a> {
    open spec fn obeys_from_spec() -> bool {
        true
    }

    open spec fn from_spec(view: RoomState<'a>) -> TwitchMessage<'a> {
        TwitchMessage::RoomState(view)
    }
}

impl<'a> From<IrcReady<'a>> for TwitchMessage<'a> {
    fn from(view: IrcReady<'a>) -> (r: TwitchMessage<'a>) {
        TwitchMessage::IrcReady(view)
    }
}

impl<'a> vstd::std_specs::convert::FromSpecImpl<IrcReady<'a>> for TwitchMessage<'a> {
    open spec fn obeys_from_spec() -> bool {
        true
    }

    open spec fn from_spec(view: IrcReady<'a>) -> TwitchMessage<'a> {
        TwitchMessage::IrcReady(view)
    }
}

impl<'a> From<Privmsg<'a>> for TwitchMessage<'a> {
    fn from(view: Privmsg<'a>) -> (r: TwitchMessage<'a>) {
        TwitchMessage::Privmsg(view)
    }
}

impl<'a> vstd::std_specs::convert::FromSpecImpl<Privmsg<'a>> for TwitchMessage<'a> {
    open spec fn obeys_from_spec() -> bool {
        true
    }

    open spec fn from_spec(view: Privmsg<'a>) -> TwitchMessage<'a> {
        TwitchMessage::Privmsg(view)
    }
}

impl<'a> From<Whisper<'a>> for TwitchMessage<'a> {
    fn from(view: Whisper<'a>) -> (r: TwitchMessage<'a>) {
        TwitchMessage::Whisper(view)
    }
}

impl<'a> vstd::std_specs::convert::FromSpecImpl<Whisper<'a>> for TwitchMessage<'a> {
    open spec fn obeys_from_spec() -> bool {
        true
    }

    open spec fn from_spec(view: Whisper<'a>) -> TwitchMessage<'a> {
        TwitchMessage::Whisper(view)
    }
}

impl<'a> From<Notice<'a>> for TwitchMessage<'a> {
    fn from(view: Notice<'a>) -> (r: TwitchMessage<'a>) {
        TwitchMessage::Notice(view)
    }
}

impl<'a> vstd::std_specs::convert::FromSpecImpl<Notice<'a>> for TwitchMessage<'a> {
    open spec fn obeys_from_spec() -> bool {
        true
    }

    open spec fn from_spec(view: Notice<'a>) -> TwitchMessage<'a> {
        TwitchMessage::Notice(view)
    }
}

impl<'a> From<Ping<'a>> for TwitchMessage<'a> {
    fn from(view: Ping<'a>) -> (r: TwitchMessage<'a>) {
        TwitchMessage::Ping(view)
    }
}

impl<'a> vstd::std_specs::convert::FromSpecImpl<Ping<'a>> for TwitchMessage<'a> {
    open spec fn obeys_from_spec() -> bool {
        true
    }

    open spec fn from_spec(view: Ping<'a>) -> TwitchMessage<'a> {
        TwitchMessage::Ping(view)
    }
}

impl<'a> From<Pong<'a>> for TwitchMessage<'a> {
    fn from(view: Pong<'a>) -> (r: TwitchMessage<'a>) {
        TwitchMessage::Pong(view)
    }
}

impl<'a> vstd::std_specs::convert::FromSpecImpl<Pong<'a>> for TwitchMessage<'a> {
    open spec fn obeys_from_spec() -> bool {
        true
    }

    open spec fn from_spec(view: Pong<'a>) -> TwitchMessage<'a> {
        TwitchMessage::Pong(view)
    }
}

impl<'a> From<Ready<'a>> for TwitchMessage<'a> {
    fn from(view: Ready<'a>) -> (r: TwitchMessage<'a>) {
        TwitchMessage::Ready(view)
    }
}

impl<'a> vstd::std_specs::convert::FromSpecImpl<Ready<'a>> for TwitchMessage<'a> {
    open spec fn obeys_from_spec() -> bool {
        true
    }

    open spec fn from_spec(view: Ready<'a>) -> TwitchMessage<'a> {
        TwitchMessage::Ready(view)
    }
}

impl<'a> From<GlobalUserState<'a>> for TwitchMessage<'a> {
    fn from(view: GlobalUserState<'a>) -> (r: TwitchMessage<'a>) {
        TwitchMessage::GlobalUserState(view)
    }
}

impl<'a> vstd::std_specs::convert::FromSpecImpl<GlobalUserState<'a>> for TwitchMessage<'a> {
    open spec fn obeys_from_spec() -> bool {
        true
    }

    open spec fn from_spec(view: GlobalUserState<'a>) -> TwitchMessage<'a> {
        TwitchMessage::GlobalUserState(view)
    }
}

impl<'a> From<Join<'a>> for TwitchMessage<'a> {
    fn from(view: Join<'a>) -> (r: TwitchMessage<'a>) {
        TwitchMessage::Join(view)
    }
}

impl<'a> vstd::std_specs::convert::FromSpecImpl<Join<'a>> for TwitchMessage<'a> {
    open spec fn obeys_from_spec() -> bool {
        true
    }

    open spec fn from_spec(view: Join<'a>) -> TwitchMessage<'a> {
        TwitchMessage::Join(view)
    }
}

impl<'a> From<Part<'a>> for TwitchMessage<'a> {
    fn from(view: Part<'a>) -> (r: TwitchMessage<'a>) {
        TwitchMessage::Part(view)
    }
}

impl<'a> vstd::std_specs::convert::FromSpecImpl<Part<'a>> for TwitchMessage<'a> {
    open spec fn obeys_from_spec() -> bool {
        true
    }

    open spec fn from_spec(view: Part<'a>) -> TwitchMessage<'a> {
        TwitchMessage::Part(view)
    }
}

impl<'a> From<ClearMsg<'a>> for TwitchMessage<'a> {
    fn from(view: ClearMsg<'a>) -> (r: TwitchMessage<'a>) {
        TwitchMessage::ClearMsg(view)
    }
}

impl<'a> vstd::std_specs::convert::FromSpecImpl<ClearMsg<'a>> for TwitchMessage<'a> {
    open spec fn obeys_from_spec() -> bool {
        true
    }

    open spec fn from_spec(view: ClearMsg<'a>) -> TwitchMessage<'a> {
        TwitchMessage::ClearMsg(view)
    }
}

impl<'a> From<Capability<'a>> for TwitchMessage<'a> {
    fn from(view: Capability<'a>) -> (r: TwitchMessage<'a>) {
        TwitchMessage::Capability(view)
    }
}

impl<'a> vstd::std_specs::convert::FromSpecImpl<Capability<'a>> for TwitchMessage<'a> {
    open spec fn obeys_from_spec() -> bool {
        true
    }

    open spec fn from_spec(view: Capability<'a>) -> TwitchMessage<'a> {
        TwitchMessage::Capability(view)
    }
}

impl<'a> From<ClearChat<'a>> for TwitchMessage<'a> {
    fn from(view: ClearChat<'a>) -> (r: TwitchMessage<'a>) {
        TwitchMessage::ClearChat(view)
    }
}

impl<'a> vstd::std_specs::convert::FromSpecImpl<ClearChat<'a>> for TwitchMessage<'a> {
    open spec fn obeys_from_spec() -> bool {
        true
    }

    open spec fn from_spec(view: ClearChat<'a>) -> TwitchMessage<'a> {
        TwitchMessage::ClearChat(view)
    }
}

impl<'a> From<Message<'a>> for TwitchMessage<'a> {
    fn from(view: Message<'a>) -> (r: TwitchMessage<'a>) {
        TwitchMessage::Message(view)
    }
}

impl<'a> vstd::std_specs::convert::FromSpecImpl<Message<'a>> for TwitchMessage<'a> {
    open spec fn obeys_from_spec() -> bool {
        true
    }

    open spec fn from_spec(view: Message<'a>) -> TwitchMessage<'a> {
        TwitchMessage::Message(view)
    }
}

} // verus!
