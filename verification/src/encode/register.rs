//! Logs in to the server.
use vstd::prelude::*;
use vstd::string::StringExecFns;
use crate::encode::append_bytes;
use crate::encode::capability::{capability_name, Capability};
use crate::encode::fmt::Formattable;
use crate::encode::io::Encodable;

verus! {

/// Logs in to the server, and asks for capabilities first.
#[derive(Copy, Clone, Debug, PartialEq, PartialOrd, Eq, Ord, Hash)]
pub struct Register<'a, const N: usize> {
    name: &'a str,
    oauth: &'a str,
    caps: [Capability; N],
}

/// The lines that ask for `caps`, one for each.
pub open spec fn requests(caps: Seq<Capability>) -> Seq<char>
    decreases caps.len(),
{
    if caps.len() == 0 {
        Seq::empty()
    } else {
        requests(caps.drop_last()) + "CAP REQ "@ + capability_name(caps.last()) + "\r\n"@
    }
}

/// How a login is written: the requests for capabilities, then the password,
/// then the name.
pub open spec fn login_text(name: Seq<char>, oauth: Seq<char>, caps: Seq<Capability>) -> Seq<
    char,
> {
    requests(caps) + "PASS "@ + oauth + "\r\n"@ + "NICK "@ + name + "\r\n"@
}

/// Logs in as `name` with the password `oauth`, and asks for `caps`.
pub fn register<'a, const N: usize>(name: &'a str, oauth: &'a str, caps: [Capability; N]) -> (r:
    Register<'a, N>)
    ensures
        r.wire() == login_text(name@, oauth@, caps@),
{
    Register { name, oauth, caps }
}

impl<'a, const N: usize> Register<'a, N> {
    /// The message as it is sent.
    pub fn to_string(&self) -> (r: String)
        ensures
            r@ == self.wire(),
    {
        let mut out = String::new();
        self.format(&mut out);
        assert(Seq::<char>::empty() + self.wire() =~= self.wire());
        out
    }
}

impl<'a, const N: usize> Formattable for Register<'a, N> {
    closed spec fn wire(&self) -> Seq<char> {
        login_text(self.name@, self.oauth@, self.caps@)
    }

    fn format(&self, out: &mut String) {
        let ghost before = out@;
        let mut i: usize = 0;
        assert(self.caps@.take(0) =~= Seq::empty());
        assert(before + Seq::<char>::empty() =~= before);
        while i < N
            invariant
                i <= N,
                self.caps@.len() == N,
                out@ == before + requests(self.caps@.take(i as int)),
            decreases N - i,
        {
            let ghost sofar = out@;
            let ghost upto = self.caps@.take(i + 1);
            assert(upto.drop_last() =~= self.caps@.take(i as int));
            assert(upto.last() == self.caps@[i as int]);
            out.append("CAP REQ ");
            out.append(self.caps[i].as_str());
            out.append("\r\n");
            assert(out@ =~= before + requests(upto));
            i += 1;
        }
        assert(self.caps@.take(N as int) =~= self.caps@);
        out.append("PASS ");
        out.append(self.oauth);
        out.append("\r\n");
        out.append("NICK ");
        out.append(self.name);
        out.append("\r\n");
        assert(out@ =~= before + self.wire());
    }
}

impl<'a, const N: usize> Encodable for Register<'a, N> {
    fn encode(&self, out: &mut Vec<u8>) {
        let text = self.to_string();
        append_bytes(out, text.as_str());
    }
}

} // verus!
