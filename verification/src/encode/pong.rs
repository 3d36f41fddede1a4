//! Answers a ping of the server.
use vstd::prelude::*;
use vstd::string::StringExecFns;
use crate::encode::append_bytes;
use crate::encode::fmt::Formattable;
use crate::encode::io::Encodable;

verus! {

/// Answers a ping of the server.
#[derive(Copy, Clone, Debug, PartialEq, PartialOrd, Eq, Ord, Hash)]
pub struct Pong<'a> {
    token: &'a str,
}

/// Answers a ping of the server: `token` is the token of the ping.
pub fn pong<'a>(token: &'a str) -> (r: Pong<'a>)
    ensures
        r.wire() == "PONG :"@ + token@ + "\r\n"@,
{
    Pong { token }
}

impl<'a> Pong<'a> {
    /// The message as it is sent.
    pub fn to_string(&self) -> (r: String)
        ensures
            r@ == self.wire(),
    {
        let mut out = String::new();
        self.format(&mut out);
        assert(Seq::<char>::empty() + self.wire() =~= self.wire());
        out
    }
}

impl<'a> Formattable for Pong<'a> {
    closed spec fn wire(&self) -> Seq<char> {
        "PONG :"@ + self.token@ + "\r\n"@
    }

    fn format(&self, out: &mut String) {
        let ghost before = out@;
        out.append("PONG :");
        out.append(self.token);
        out.append("\r\n");
        assert(out@ =~= before + self.wire());
    }
}

impl<'a> Encodable for Pong<'a> {
    fn encode(&self, out: &mut Vec<u8>) {
        let text = self.to_string();
        append_bytes(out, text.as_str());
    }
}

} // verus!
