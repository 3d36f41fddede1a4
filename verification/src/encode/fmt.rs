//! Writing a message to a `String`.
use vstd::prelude::*;

verus! {

/// A message that can be written as text.
pub trait Formattable {
    /// The text that the message is sent as, terminator included.
    spec fn wire(&self) -> Seq<char>;

    /// Appends the message to `out`.
    fn format(&self, out: &mut String)
        ensures
            final(out)@ == old(out)@ + self.wire(),
    ;
}

/// A sink that messages can be written to as text.
pub trait Format {
    /// What has been written to the sink.
    spec fn written(&self) -> Seq<char>;

    /// Appends `msg` to the sink.
    fn format_msg<M: Formattable>(&mut self, msg: M)
        ensures
            final(self).written() == old(self).written() + msg.wire(),
    ;
}

impl Format for String {
    open spec fn written(&self) -> Seq<char> {
        self@
    }

    fn format_msg<M: Formattable>(&mut self, msg: M) {
        msg.format(self)
    }
}

} // verus!
