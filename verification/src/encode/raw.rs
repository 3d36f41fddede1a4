//! Sends a line as it is.
use vstd::prelude::*;
use vstd::string::StringExecFns;
use crate::encode::append_bytes;
use crate::encode::fmt::Formattable;
use crate::encode::io::Encodable;

verus! {

/// Sends a line as it is.
#[derive(Copy, Clone, Debug, PartialEq, PartialOrd, Eq, Ord, Hash)]
pub struct Raw<'a> {
    raw: &'a str,
}

/// Sends a line as it is: `line` is the line, without its terminator.
pub fn raw<'a>(line: &'a str) -> (r: Raw<'a>)
    ensures
        r.wire() == line@ + "\r\n"@,
{
    Raw { raw: line }
}

impl<'a> Raw<'a> {
    /// The message as it is sent.
    pub fn to_string(&self) -> (r: String)
        ensures
            r@ == self.wire(),
    {
        let mut out = String::new();
        self.format(&mut out);
        assert(Seq::<char>::empty() + self.wire() =~= self.wire());
        out
    }
}

impl<'a> Formattable for Raw<'a> {
    closed spec fn wire(&self) -> Seq<char> {
        self.raw@ + "\r\n"@
    }

    fn format(&self, out: &mut String) {
        let ghost before = out@;
        out.append(self.raw);
        out.append("\r\n");
        assert(out@ =~= before + self.wire());
    }
}

impl<'a> Encodable for Raw<'a> {
    fn encode(&self, out: &mut Vec<u8>) {
        let text = self.to_string();
        append_bytes(out, text.as_str());
    }
}

} // verus!
