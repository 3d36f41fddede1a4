//! Writing a message as bytes.
use vstd::prelude::*;
use vstd::utf8::encode_utf8;
use crate::encode::fmt::Formattable;

verus! {

/// A message that can be written as bytes: its text in UTF-8.
pub trait Encodable: Formattable {
    /// Appends the bytes of the message to `out`.
    fn encode(&self, out: &mut Vec<u8>)
        ensures
            final(out)@ == old(out)@ + encode_utf8(self.wire()),
    ;
}

/// A sink that messages can be written to as bytes.
pub trait Encode {
    /// What has been written to the sink.
    spec fn bytes(&self) -> Seq<u8>;

    /// Appends the bytes of `msg` to the sink.
    fn encode_msg<M: Encodable>(&mut self, msg: M)
        ensures
            final(self).bytes() == old(self).bytes() + encode_utf8(msg.wire()),
    ;
}

impl Encode for Vec<u8> {
    open spec fn bytes(&self) -> Seq<u8> {
        self@
    }

    fn encode_msg<M: Encodable>(&mut self, msg: M) {
        msg.encode(self)
    }
}

} // verus!
