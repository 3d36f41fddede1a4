//! Asks to leave a channel.
use vstd::prelude::*;
use vstd::string::StringExecFns;
use crate::encode::{append_bytes, octo, octo_of};
use crate::encode::fmt::Formattable;
use crate::encode::io::Encodable;

verus! {

/// Asks to leave a channel.
#[derive(Copy, Clone, Debug, PartialEq, PartialOrd, Eq, Ord, Hash)]
pub struct Part<'a> {
    channel: &'a str,
}

/// Asks to leave a channel: `channel` is the channel to leave; its `#` is added where it lacks.
pub fn part<'a>(channel: &'a str) -> (r: Part<'a>)
    ensures
        r.wire() == "PART "@ + octo_of(channel@) + channel@ + "\r\n"@,
{
    Part { channel }
}

impl<'a> Part<'a> {
    /// The message as it is sent.
    pub fn to_string(&self) -> (r: String)
        ensures
            r@ == self.wire(),
    {
        let mut out = String::new();
        self.format(&mut out);
        assert(Seq::<char>::empty() + self.wire() =~= self.wire());
        out
    }
}

impl<'a> Formattable for Part<'a> {
    closed spec fn wire(&self) -> Seq<char> {
        "PART "@ + octo_of(self.channel@) + self.channel@ + "\r\n"@
    }

    fn format(&self, out: &mut String) {
        let ghost before = out@;
        out.append("PART ");
        out.append(octo(self.channel));
        out.append(self.channel);
        out.append("\r\n");
        assert(out@ =~= before + self.wire());
    }
}

impl<'a> Encodable for Part<'a> {
    fn encode(&self, out: &mut Vec<u8>) {
        let text = self.to_string();
        append_bytes(out, text.as_str());
    }
}

} // verus!
