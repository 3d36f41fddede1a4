//! Messages to send to the server, and how they are written.
//!
//! A message is made by one of the functions of this module and written to a
//! `String` ([`Formattable`], [`Format`]) or, as bytes, to a `Vec<u8>`
//! ([`Encodable`], [`Encode`]).
use vstd::prelude::*;
use vstd::string::StrSliceExecFns;
use vstd::utf8::encode_utf8;

pub mod capability;
pub mod fmt;
pub mod io;
pub mod join;
pub mod part;
pub mod ping;
pub mod pong;
pub mod privmsg;
pub mod quit;
pub mod raw;
pub mod register;
pub mod whisper;

pub use capability::{Capability, ALL_CAPABILITIES};
pub use fmt::{Format, Formattable};
pub use io::{Encodable, Encode};
pub use join::{join, Join};
pub use part::{part, Part};
pub use ping::{ping, Ping};
pub use pong::{pong, Pong};
pub use privmsg::{privmsg, reply, Privmsg};
pub use quit::{quit, Quit};
pub use raw::{raw, Raw};
pub use register::{register, Register};
pub use whisper::{whisper, Whisper};

verus! {

/// The `#` that a channel name lacks.
pub open spec fn octo_of(channel: Seq<char>) -> Seq<char> {
    if channel.len() > 0 && channel[0] == '#' {
        Seq::empty()
    } else {
        seq!['#']
    }
}

/// The `#` that the channel name `data` lacks.
pub fn octo(data: &str) -> (r: &'static str)
    ensures
        r@ == octo_of(data@),
{
    if data.unicode_len() > 0 && data.get_char(0) == '#' {
        proof {
            reveal_strlit("");
        }
        ""
    } else {
        proof {
            reveal_strlit("#");
        }
        assert("#"@ =~= seq!['#']);
        "#"
    }
}

/// Appends the bytes of `text` to `out`.
pub fn append_bytes(out: &mut Vec<u8>, text: &str)
    ensures
        final(out)@ == old(out)@ + encode_utf8(text@),
{
    let bytes = text.as_bytes();
    let ghost before = out@;
    out.extend_from_slice(bytes);
    assert(out@ =~= before + encode_utf8(text@));
}

} // verus!
