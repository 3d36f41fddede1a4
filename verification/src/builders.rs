//! Builders of messages and tags, for tests and the like.
use std::borrow::Cow;
use vstd::prelude::*;
use vstd::string::StringExecFns;
use crate::encode::{octo, octo_of};
use crate::message::{Message, MessageModel};
use crate::message_kind::{KindModel, MessageKind};
use crate::messages::privmsg::Privmsg;
use crate::prefix::{Prefix, PrefixModel};
use crate::tags::{lists, raw_tags, Tags};
use crate::text::{as_str, copy_opt, copy_text, opt_text};
use crate::typed_messages::TypedMessageMarker;

pub use crate::tags::TagsBuilder;

verus! {

/// What a [`PrivmsgBuilder`] lacks.
#[derive(Debug, Copy, Clone, PartialEq, Eq, Structural)]
#[non_exhaustive]
pub enum PrivmsgBuilderError {
    /// No sender was given, or an empty one.
    MissingSender,
    /// No channel was given, or an empty one.
    MissingChannel,
    /// No text was given, or an empty one.
    MissingData,
}

impl PrivmsgBuilderError {
    /// The sentence that describes this error.
    pub fn to_string(&self) -> (r: String)
        ensures
            r@ == match self {
                PrivmsgBuilderError::MissingSender => "Missing sender"@,
                PrivmsgBuilderError::MissingChannel => "Missing channel"@,
                PrivmsgBuilderError::MissingData => "Missing data"@,
            },
    {
        match self {
            PrivmsgBuilderError::MissingSender => String::from_str("Missing sender"),
            PrivmsgBuilderError::MissingChannel => String::from_str("Missing channel"),
            PrivmsgBuilderError::MissingData => String::from_str("Missing data"),
        }
    }
}

/// A builder of a chat post: a [`Message`] of kind `Privmsg`, or the
/// [`Privmsg`] that it narrows to.
pub struct PrivmsgBuilder {
    tags: Option<Tags<'static>>,
    sender: Option<Cow<'static, str>>,
    channel: Option<Cow<'static, str>>,
    data: Option<Cow<'static, str>>,
}

/// What a builder has been given so far, as plain text.
pub struct PrivmsgBuilderModel {
    pub tags: Option<Map<Seq<char>, Seq<char>>>,
    pub sender: Option<Seq<char>>,
    pub channel: Option<Seq<char>>,
    pub data: Option<Seq<char>>,
}

impl View for PrivmsgBuilder {
    type V = PrivmsgBuilderModel;

    closed spec fn view(&self) -> PrivmsgBuilderModel {
        PrivmsgBuilderModel {
            tags: match self.tags {
                Some(tags) => Some(tags@),
                None => None,
            },
            sender: opt_text(self.sender),
            channel: opt_text(self.channel),
            data: opt_text(self.data),
        }
    }
}

/// A part that was given and is not empty.
pub open spec fn given(part: Option<Seq<char>>) -> bool {
    part matches Some(text) && text.len() > 0
}

/// What a builder lacks, if anything: the sender is asked for first, then the
/// channel, then the text.
pub open spec fn lack_of(b: PrivmsgBuilderModel) -> Option<PrivmsgBuilderError> {
    if !given(b.sender) {
        Some(PrivmsgBuilderError::MissingSender)
    } else if !given(b.channel) {
        Some(PrivmsgBuilderError::MissingChannel)
    } else if !given(b.data) {
        Some(PrivmsgBuilderError::MissingData)
    } else {
        None
    }
}

/// The tags of the post that is built.
pub open spec fn built_tags(b: PrivmsgBuilderModel) -> Map<Seq<char>, Seq<char>> {
    match b.tags {
        Some(tags) => tags,
        None => Map::empty(),
    }
}

/// The line of a chat post: `written`, which is how its tags are written,
/// then the sender three times over as the prefix, the command, the channel
/// with its `#`, and the text.
pub open spec fn post_line(
    written: Seq<char>,
    sender: Seq<char>,
    channel: Seq<char>,
    data: Seq<char>,
) -> Seq<char> {
    written + (if written.len() > 0 {
        seq![' ']
    } else {
        Seq::empty()
    }) + seq![':'] + sender + seq!['!'] + sender + seq!['@'] + sender + ".tmi.twitch.tv PRIVMSG "@
        + octo_of(channel) + channel + " :"@ + data + "\r\n"@
}

/// `m` is a message that the builder `b`, which lacks nothing, builds.
pub open spec fn is_built(m: MessageModel, b: PrivmsgBuilderModel) -> bool {
    &&& exists|entries: Seq<(Seq<char>, Seq<char>)>| #[trigger]
        lists(entries, built_tags(b)) && m.raw == post_line(
            raw_tags(entries),
            b.sender->0,
            b.channel->0,
            b.data->0,
        )
    &&& m.tags == built_tags(b)
    &&& m.prefix == (PrefixModel::User {
        name: b.sender->0,
        user: b.sender->0,
        host: b.sender->0,
    })
    &&& m.kind == KindModel::Privmsg
    &&& m.args == seq![b.channel->0]
    &&& m.data == Some(b.data->0)
}

fn is_given(part: &Option<Cow<'static, str>>) -> (r: bool)
    ensures
        r == given(opt_text(*part)),
{
    match part {
        Some(text) => !as_str(text).is_empty(),
        None => false,
    }
}

fn own(text: &str) -> (r: Cow<'static, str>)
    ensures
        r@ == text@,
{
    Cow::Owned(String::from_str(text))
}

impl Clone for PrivmsgBuilder {
    fn clone(&self) -> (r: PrivmsgBuilder)
        ensures
            r@ == self@,
    {
        PrivmsgBuilder {
            tags: match &self.tags {
                Some(tags) => Some(tags.clone()),
                None => None,
            },
            sender: copy_opt(&self.sender),
            channel: copy_opt(&self.channel),
            data: copy_opt(&self.data),
        }
    }
}

impl PrivmsgBuilder {
    /// A builder that has been given nothing yet.
    pub fn new() -> (r: PrivmsgBuilder)
        ensures
            r@ == (PrivmsgBuilderModel { tags: None, sender: None, channel: None, data: None }),
    {
        PrivmsgBuilder { tags: None, sender: None, channel: None, data: None }
    }

    /// Gives the tags, which a post need not have.
    pub fn tags(self, tags: Tags<'static>) -> (r: PrivmsgBuilder)
        ensures
            r@ == (PrivmsgBuilderModel { tags: Some(tags@), ..self@ }),
    {
        PrivmsgBuilder { tags: Some(tags), sender: self.sender, channel: self.channel, data: self.data }
    }

    /// Gives the sender, which a post must have.
    pub fn sender(self, sender: &str) -> (r: PrivmsgBuilder)
        ensures
            r@ == (PrivmsgBuilderModel { sender: Some(sender@), ..self@ }),
    {
        PrivmsgBuilder {
            tags: self.tags,
            sender: Some(own(sender)),
            channel: self.channel,
            data: self.data,
        }
    }

    /// Gives the channel, which a post must have.
    pub fn channel(self, channel: &str) -> (r: PrivmsgBuilder)
        ensures
            r@ == (PrivmsgBuilderModel { channel: Some(channel@), ..self@ }),
    {
        PrivmsgBuilder {
            tags: self.tags,
            sender: self.sender,
            channel: Some(own(channel)),
            data: self.data,
        }
    }

    /// Gives the text, which a post must have.
    pub fn data(self, data: &str) -> (r: PrivmsgBuilder)
        ensures
            r@ == (PrivmsgBuilderModel { data: Some(data@), ..self@ }),
    {
        PrivmsgBuilder {
            tags: self.tags,
            sender: self.sender,
            channel: self.channel,
            data: Some(own(data)),
        }
    }

    /// The message of the post.
    pub fn finish_message(self) -> (r: Result<Message<'static>, PrivmsgBuilderError>)
        ensures
            r matches Ok(message) ==> lack_of(self@) is None && is_built(message@, self@),
            r matches Err(e) ==> lack_of(self@) == Some(e),
    {
        if !is_given(&self.sender) {
            return Err(PrivmsgBuilderError::MissingSender);
        }
        if !is_given(&self.channel) {
            return Err(PrivmsgBuilderError::MissingChannel);
        }
        if !is_given(&self.data) {
            return Err(PrivmsgBuilderError::MissingData);
        }
        let ghost model = self@;
        let PrivmsgBuilder { tags, sender, channel, data } = self;
        let tags = match tags {
            Some(tags) => tags,
            None => Tags::new(),
        };
        let sender: Cow<'static, str> = sender.unwrap();
        let channel: Cow<'static, str> = channel.unwrap();
        let data: Cow<'static, str> = data.unwrap();
        let mut raw = tags.to_raw();
        let ghost written = raw@;
        let ghost entries = choose|entries: Seq<(Seq<char>, Seq<char>)>| #[trigger]
            lists(entries, tags@) && written == raw_tags(entries);
        if !raw.as_str().is_empty() {
            raw.push(' ');
        }
        raw.push(':');
        raw.append(as_str(&sender));
        raw.push('!');
        raw.append(as_str(&sender));
        raw.push('@');
        raw.append(as_str(&sender));
        raw.append(".tmi.twitch.tv PRIVMSG ");
        raw.append(octo(as_str(&channel)));
        raw.append(as_str(&channel));
        raw.append(" :");
        raw.append(as_str(&data));
        raw.append("\r\n");
        assert(raw@ =~= post_line(written, sender@, channel@, data@));
        let prefix = Prefix::User {
            name: copy_text(&sender),
            user: copy_text(&sender),
            host: sender,
        };
        let mut args: Vec<Cow<'static, str>> = Vec::new();
        args.push(channel);
        let message = Message {
            raw: Cow::Owned(raw),
            tags,
            prefix,
            kind: MessageKind::Privmsg,
            args,
            data: Some(data),
        };
        assert(message@.args =~= seq![model.channel->0]);
        assert(lists(entries, built_tags(model)) && message@.raw == post_line(
            raw_tags(entries),
            model.sender->0,
            model.channel->0,
            model.data->0,
        ));
        Ok(message)
    }

    /// The post, as the typed view of its message.
    pub fn finish_privmsg(self) -> (r: Result<Privmsg<'static>, PrivmsgBuilderError>)
        ensures
            r matches Ok(post) ==> lack_of(self@) is None && exists|m: MessageModel| #[trigger]
                is_built(m, self@) && Privmsg::narrowed(m) == Some(post@),
            r matches Err(e) ==> lack_of(self@) == Some(e),
    {
        let message = match self.finish_message() {
            Ok(message) => message,
            Err(e) => {
                return Err(e);
            },
        };
        let ghost model = message@;
        match Privmsg::from_message(message) {
            Ok(post) => Ok(post),
            Err(_) => {
                assert(model.args.len() == 1);
                vstd::pervasive::unreached()
            },
        }
    }
}

impl Default for PrivmsgBuilder {
    fn default() -> (r: PrivmsgBuilder)
        ensures
            r@ == (PrivmsgBuilderModel { tags: None, sender: None, channel: None, data: None }),
    {
        PrivmsgBuilder::new()
    }
}

} // verus!
