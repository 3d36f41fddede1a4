//! The sender that a line names in front of its command.
use std::borrow::Cow;
use vstd::prelude::*;
use vstd::string::StrSliceExecFns;
use crate::parse::Parse;
use crate::text::{
    as_str, chars_of, copy_text, find, find_char, lift_text, opt_str, split_once, str_cut_once,
};

verus! {

/// An IRC-styled prefix: who sent the message.
#[derive(Debug, PartialEq, Eq)]
pub enum Prefix<'a> {
    /// The message comes from a user.
    User {
        /// Their (nick) name.
        name: Cow<'a, str>,
        /// Their user name.
        user: Cow<'a, str>,
        /// Their host.
        host: Cow<'a, str>,
    },
    /// The message comes from the server.
    Server {
        /// The host of the server.
        host: Cow<'a, str>,
    },
    /// No prefix was attached.
    Absent,
}

/// What a prefix holds, as plain text.
pub enum PrefixModel {
    User { name: Seq<char>, user: Seq<char>, host: Seq<char> },
    Server { host: Seq<char> },
    Absent,
}

impl<'a> View for Prefix<'a> {
    type V = PrefixModel;

    open spec fn view(&self) -> PrefixModel {
        match self {
            Prefix::User { name, user, host } => PrefixModel::User {
                name: name@,
                user: user@,
                host: host@,
            },
            Prefix::Server { host } => PrefixModel::Server { host: host@ },
            Prefix::Absent => PrefixModel::Absent,
        }
    }
}

impl<'a> Clone for Prefix<'a> {
    fn clone(&self) -> (r: Prefix<'a>)
        ensures
            r@ == self@,
            self.is_borrowed() ==> r.is_borrowed(),
    {
        match self {
            Prefix::User { name, user, host } => Prefix::User {
                name: copy_text(name),
                user: copy_text(user),
                host: copy_text(host),
            },
            Prefix::Server { host } => Prefix::Server { host: copy_text(host) },
            Prefix::Absent => Prefix::Absent,
        }
    }
}

impl<'a> Default for Prefix<'a> {
    fn default() -> (r: Self)
        ensures
            r == Prefix::Absent,
    {
        Prefix::Absent
    }
}

/// The sender that the text between `:` and the next space names: with a `!`
/// in it a user, as `name!user@host`, and without one a server host. A `!`
/// that no `@` follows names nobody.
pub open spec fn sender_of(head: Seq<char>) -> PrefixModel {
    match find(head, '!') {
        Some(bang) => match split_once(head.skip(bang + 1), '@') {
            Some((user, host)) => PrefixModel::User { name: head.take(bang), user, host },
            None => PrefixModel::Absent,
        },
        None => PrefixModel::Server { host: head },
    }
}

/// The prefix at the beginning of `s` and what follows it. A text that does not
/// start with `:`, or has no space after it, is left as it is.
pub open spec fn prefix_of(s: Seq<char>) -> (PrefixModel, Seq<char>) {
    if s.len() > 0 && s[0] == ':' {
        match split_once(s.skip(1), ' ') {
            Some((head, tail)) => (sender_of(head), tail),
            None => (PrefixModel::Absent, s),
        }
    } else {
        (PrefixModel::Absent, s)
    }
}

/// The name by which a prefix is known: the nick name of a user, the host of a
/// server.
pub open spec fn name_of(p: PrefixModel) -> Option<Seq<char>> {
    match p {
        PrefixModel::User { name, user, host } => Some(name),
        PrefixModel::Server { host } => Some(host),
        PrefixModel::Absent => None,
    }
}

impl<'a> Prefix<'a> {
    /// Every part of this prefix is a borrowed piece.
    pub open spec fn is_borrowed(&self) -> bool {
        match self {
            Prefix::User { name, user, host } => name is Borrowed && user is Borrowed
                && host is Borrowed,
            Prefix::Server { host } => host is Borrowed,
            Prefix::Absent => true,
        }
    }

    /// Every part of this prefix is a text of its own.
    pub open spec fn is_owned(&self) -> bool {
        match self {
            Prefix::User { name, user, host } => name is Owned && user is Owned && host is Owned,
            Prefix::Server { host } => host is Owned,
            Prefix::Absent => true,
        }
    }

    /// Is this a [`User`](Self::User) prefix?
    pub fn is_user(&self) -> (r: bool)
        ensures
            r == (self@ is User),
    {
        match self {
            Prefix::User { .. } => true,
            _ => false,
        }
    }

    /// Is this a [`Server`](Self::Server) prefix?
    pub fn is_server(&self) -> (r: bool)
        ensures
            r == (self@ is Server),
    {
        match self {
            Prefix::Server { .. } => true,
            _ => false,
        }
    }

    /// The user name, or the host name of the server.
    pub fn as_name_str(&self) -> (r: Option<&str>)
        ensures
            opt_str(r) == name_of(self@),
    {
        match self {
            Prefix::User { name, .. } => Some(as_str(name)),
            Prefix::Server { host } => Some(as_str(host)),
            Prefix::Absent => None,
        }
    }

    /// This prefix with text of its own, which no longer borrows from the
    /// input.
    pub fn lifted(self) -> (r: Prefix<'static>)
        ensures
            r@ == self@,
            r.is_owned(),
    {
        match self {
            Prefix::User { name, user, host } => Prefix::User {
                name: lift_text(name),
                user: lift_text(user),
                host: lift_text(host),
            },
            Prefix::Server { host } => Prefix::Server { host: lift_text(host) },
            Prefix::Absent => Prefix::Absent,
        }
    }

    /// Reads the prefix at the beginning of `input`, and leaves in `input` what
    /// follows it.
    pub fn read(input: &mut &'a str) -> (r: Prefix<'a>)
        ensures
            r@ == prefix_of(old(input)@).0,
            r.is_borrowed(),
            final(input)@ == prefix_of(old(input)@).1,
    {
        let s: &'a str = *input;
        let n: usize = s.unicode_len();
        if n == 0 || s.get_char(0) != ':' {
            return Prefix::Absent;
        }
        match str_cut_once(s.substring_char(1, n), ' ') {
            Some((head, tail)) => {
                *input = tail;
                Prefix::sender(head)
            },
            None => Prefix::Absent,
        }
    }

    fn sender(head: &'a str) -> (r: Prefix<'a>)
        ensures
            r@ == sender_of(head@),
            r.is_borrowed(),
    {
        let chars = chars_of(head);
        match find_char(chars.as_slice(), '!') {
            Some(bang) => {
                match str_cut_once(head.substring_char(bang + 1, chars.len()), '@') {
                    Some((user, host)) => Prefix::User {
                        name: Cow::Borrowed(head.substring_char(0, bang)),
                        user: Cow::Borrowed(user),
                        host: Cow::Borrowed(host),
                    },
                    None => Prefix::Absent,
                }
            },
            None => Prefix::Server { host: Cow::Borrowed(head) },
        }
    }
}

impl<'a> Parse<'a> for Prefix<'a> {
    type Output = Prefix<'a>;

    open spec fn rest_of(input: Seq<char>) -> Seq<char> {
        prefix_of(input).1
    }

    fn parse(input: &mut &'a str) -> (r: Prefix<'a>)
        ensures
            r@ == prefix_of(old(input)@).0,
    {
        Prefix::read(input)
    }
}

} // verus!
