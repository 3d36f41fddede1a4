//! Tells the server that the client leaves.
use vstd::prelude::*;
use vstd::string::StringExecFns;
use crate::encode::append_bytes;
use crate::encode::fmt::Formattable;
use crate::encode::io::Encodable;

verus! {

/// Tells the server that the client leaves.
#[derive(Copy, Clone, Debug, PartialEq, PartialOrd, Eq, Ord, Hash)]
pub struct Quit<'a> {
    reason: &'a str,
}

/// Tells the server that the client leaves: `reason` is why the client leaves.
pub fn quit<'a>(reason: &'a str) -> (r: Quit<'a>)
    ensures
        r.wire() == "QUIT :"@ + reason@ + "\r\n"@,
{
    Quit { reason }
}

impl<'a> Quit<'a> {
    /// The message as it is sent.
    pub fn to_string(&self) -> (r: String)
        ensures
            r@ == self.wire(),
    {
        let mut out = String::new();
        self.format(&mut out);
        assert(Seq::<char>::empty() + self.wire() =~= self.wire());
        out
    }
}

impl<'a> Formattable for Quit<'a> {
    closed spec fn wire(&self) -> Seq<char> {
        "QUIT :"@ + self.reason@ + "\r\n"@
    }

    fn format(&self, out: &mut String) {
        let ghost before = out@;
        out.append("QUIT :");
        out.append(self.reason);
        out.append("\r\n");
        assert(out@ =~= before + self.wire());
    }
}

impl<'a> Encodable for Quit<'a> {
    fn encode(&self, out: &mut Vec<u8>) {
        let text = self.to_string();
        append_bytes(out, text.as_str());
    }
}

} // verus!
