//! Asks the server for a sign of life.
use vstd::prelude::*;
use vstd::string::StringExecFns;
use crate::encode::append_bytes;
use crate::encode::fmt::Formattable;
use crate::encode::io::Encodable;

verus! {

/// Asks the server for a sign of life.
#[derive(Copy, Clone, Debug, PartialEq, PartialOrd, Eq, Ord, Hash)]
pub struct Ping<'a> {
    token: &'a str,
}

/// Asks the server for a sign of life: `token` is the token that the answer will carry.
pub fn ping<'a>(token: &'a str) -> (r: Ping<'a>)
    ensures
        r.wire() == "PING "@ + token@ + "\r\n"@,
{
    Ping { token }
}

impl<'a> Ping<'a> {
    /// The message as it is sent.
    pub fn to_string(&self) -> (r: String)
        ensures
            r@ == self.wire(),
    {
        let mut out = String::new();
        self.format(&mut out);
        assert(Seq::<char>::empty() + self.wire() =~= self.wire());
        out
    }
}

impl<'a> Formattable for Ping<'a> {
    closed spec fn wire(&self) -> Seq<char> {
        "PING "@ + self.token@ + "\r\n"@
    }

    fn format(&self, out: &mut String) {
        let ghost before = out@;
        out.append("PING ");
        out.append(self.token);
        out.append("\r\n");
        assert(out@ =~= before + self.wire());
    }
}

impl<'a> Encodable for Ping<'a> {
    fn encode(&self, out: &mut Vec<u8>) {
        let text = self.to_string();
        append_bytes(out, text.as_str());
    }
}

} // verus!
