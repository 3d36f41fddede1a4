//! Posts a message to a channel.
use vstd::prelude::*;
use vstd::string::StringExecFns;
use crate::encode::fmt::Formattable;
use crate::encode::io::Encodable;
use crate::encode::{append_bytes, octo, octo_of};

verus! {

/// Posts a message to a channel, as an answer to another message or not.
#[derive(Copy, Clone, Debug, PartialEq, PartialOrd, Eq, Ord, Hash)]
pub struct Privmsg<'a> {
    reply_id: Option<&'a str>,
    channel: &'a str,
    data: &'a str,
}

/// How a post to `channel` with the text `data` is written.
pub open spec fn post_text(channel: Seq<char>, data: Seq<char>) -> Seq<char> {
    "PRIVMSG "@ + octo_of(channel) + channel + " :"@ + data + "\r\n"@
}

/// How an answer to the message `id` is written: the tag that names the
/// message, then the post.
pub open spec fn reply_text(id: Seq<char>, channel: Seq<char>, data: Seq<char>) -> Seq<char> {
    "@reply-parent-msg-id="@ + id + " "@ + post_text(channel, data)
}

/// Posts a message: `channel` is the channel to post to, to which its `#` is
/// added where it lacks, and `data` is the text.
pub fn privmsg<'a>(channel: &'a str, data: &'a str) -> (r: Privmsg<'a>)
    ensures
        r.wire() == post_text(channel@, data@),
{
    Privmsg { reply_id: None, channel, data }
}

/// Posts an answer to the message with the id `id`.
pub fn reply<'a>(id: &'a str, channel: &'a str, data: &'a str) -> (r: Privmsg<'a>)
    ensures
        r.wire() == reply_text(id@, channel@, data@),
{
    Privmsg { reply_id: Some(id), channel, data }
}

impl<'a> Privmsg<'a> {
    /// The message as it is sent.
    pub fn to_string(&self) -> (r: String)
        ensures
            r@ == self.wire(),
    {
        let mut out = String::new();
        self.format(&mut out);
        assert(Seq::<char>::empty() + self.wire() =~= self.wire());
        out
    }
}

impl<'a> Formattable for Privmsg<'a> {
    closed spec fn wire(&self) -> Seq<char> {
        match self.reply_id {
            Some(id) => reply_text(id@, self.channel@, self.data@),
            None => post_text(self.channel@, self.data@),
        }
    }

    fn format(&self, out: &mut String) {
        let ghost before = out@;
        match self.reply_id {
            Some(id) => {
                out.append("@reply-parent-msg-id=");
                out.append(id);
                out.append(" ");
            },
            None => {},
        }
        out.append("PRIVMSG ");
        out.append(octo(self.channel));
        out.append(self.channel);
        out.append(" :");
        out.append(self.data);
        out.append("\r\n");
        assert(out@ =~= before + self.wire());
    }
}

impl<'a> Encodable for Privmsg<'a> {
    fn encode(&self, out: &mut Vec<u8>) {
        let text = self.to_string();
        append_bytes(out, text.as_str());
    }
}

} // verus!
