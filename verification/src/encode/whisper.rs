//! Sends a private message to a user.
use vstd::prelude::*;
use vstd::string::StringExecFns;
use crate::encode::append_bytes;
use crate::encode::fmt::Formattable;
use crate::encode::io::Encodable;

verus! {

/// Sends a private message to a user.
#[derive(Copy, Clone, Debug, PartialEq, PartialOrd, Eq, Ord, Hash)]
pub struct Whisper<'a> {
    user: &'a str,
    data: &'a str,
}

/// Sends a private message to a user: `user` is the user to write to, `data` is the text.
pub fn whisper<'a>(user: &'a str, data: &'a str) -> (r: Whisper<'a>)
    ensures
        r.wire() == "PRIVMSG jtv :/w "@ + user@ + " "@ + data@ + "\r\n"@,
{
    Whisper { user, data }
}

impl<'a> Whisper<'a> {
    /// The message as it is sent.
    pub fn to_string(&self) -> (r: String)
        ensures
            r@ == self.wire(),
    {
        let mut out = String::new();
        self.format(&mut out);
        assert(Seq::<char>::empty() + self.wire() =~= self.wire());
        out
    }
}

impl<'a> Formattable for Whisper<'a> {
    closed spec fn wire(&self) -> Seq<char> {
        "PRIVMSG jtv :/w "@ + self.user@ + " "@ + self.data@ + "\r\n"@
    }

    fn format(&self, out: &mut String) {
        let ghost before = out@;
        out.append("PRIVMSG jtv :/w ");
        out.append(self.user);
        out.append(" ");
        out.append(self.data);
        out.append("\r\n");
        assert(out@ =~= before + self.wire());
    }
}

impl<'a> Encodable for Whisper<'a> {
    fn encode(&self, out: &mut Vec<u8>) {
        let text = self.to_string();
        append_bytes(out, text.as_str());
    }
}

} // verus!
