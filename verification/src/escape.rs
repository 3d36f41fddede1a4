//! The escaping of tag values.
//!
//! | Character | Written as |
//! |---|---|
//! | `;` | `\:` |
//! | space | `\s` |
//! | `\` | `\\` |
//! | carriage return | `\r` |
//! | line feed | `\n` |
//! | any other | itself |
use std::borrow::Cow;
use vstd::prelude::*;
use crate::text::{chars_of, find, find_char, lemma_find_is_first};

verus! {

/// A character that is not written as itself in a tag value.
pub open spec fn is_reserved(c: char) -> bool {
    c == ';' || c == ' ' || c == '\\' || c == '\n' || c == '\r'
}

/// How many characters of `s` are reserved.
pub open spec fn reserved_count(s: Seq<char>) -> nat
    decreases s.len(),
{
    if s.len() == 0 {
        0
    } else {
        reserved_count(s.drop_last()) + if is_reserved(s.last()) {
            1nat
        } else {
            0nat
        }
    }
}

/// What is written for the character `c`.
pub open spec fn escape_of(c: char) -> Seq<char> {
    if c == ';' {
        seq!['\\', ':']
    } else if c == ' ' {
        seq!['\\', 's']
    } else if c == '\\' {
        seq!['\\', '\\']
    } else if c == '\r' {
        seq!['\\', 'r']
    } else if c == '\n' {
        seq!['\\', 'n']
    } else {
        seq![c]
    }
}

/// The character that is meant by `c` behind a backslash.
pub open spec fn unescape_of(c: char) -> char {
    if c == ':' {
        ';'
    } else if c == 's' {
        ' '
    } else if c == 'r' {
        '\r'
    } else if c == 'n' {
        '\n'
    } else {
        c
    }
}

/// `s` with every character written as the table says.
pub open spec fn escaped(s: Seq<char>) -> Seq<char>
    decreases s.len(),
{
    if s.len() == 0 {
        Seq::empty()
    } else {
        escape_of(s[0]) + escaped(s.skip(1))
    }
}

/// `s` read back: a backslash and the character behind it stand for one
/// character, and a backslash at the very end stands for nothing.
pub open spec fn unescaped(s: Seq<char>) -> Seq<char>
    decreases s.len(),
{
    if s.len() == 0 {
        Seq::empty()
    } else if s[0] != '\\' {
        seq![s[0]] + unescaped(s.skip(1))
    } else if s.len() == 1 {
        Seq::empty()
    } else {
        seq![unescape_of(s[1])] + unescaped(s.skip(2))
    }
}

/// Reading back what was written gives the text that was written.
pub proof fn lemma_unescape_escape(s: Seq<char>)
    ensures
        unescaped(escaped(s)) == s,
    decreases s.len(),
{
    if s.len() > 0 {
        let rest = escaped(s.skip(1));
        let whole = escaped(s);
        lemma_unescape_escape(s.skip(1));
        if is_reserved(s[0]) {
            assert(whole.skip(2) =~= rest);
            assert(unescape_of(whole[1]) == s[0]);
        } else {
            assert(whole.skip(1) =~= rest);
        }
        assert(s =~= seq![s[0]] + s.skip(1));
    } else {
        assert(s =~= Seq::<char>::empty());
    }
}

/// A text without reserved characters is written as it is.
pub proof fn lemma_escaped_plain(s: Seq<char>)
    requires
        forall|i: int| 0 <= i < s.len() ==> !is_reserved(#[trigger] s[i]),
    ensures
        escaped(s) == s,
    decreases s.len(),
{
    if s.len() > 0 {
        lemma_escaped_plain(s.skip(1));
        assert(s =~= seq![s[0]] + s.skip(1));
    } else {
        assert(s =~= Seq::<char>::empty());
    }
}

/// A text without a backslash reads back as it is.
pub proof fn lemma_unescaped_plain(s: Seq<char>)
    requires
        forall|i: int| 0 <= i < s.len() ==> #[trigger] s[i] != '\\',
    ensures
        unescaped(s) == s,
    decreases s.len(),
{
    if s.len() > 0 {
        lemma_unescaped_plain(s.skip(1));
        assert(s =~= seq![s[0]] + s.skip(1));
    } else {
        assert(s =~= Seq::<char>::empty());
    }
}

/// A text in which no reserved character is counted holds none.
pub proof fn lemma_none_reserved(s: Seq<char>)
    requires
        reserved_count(s) == 0,
    ensures
        forall|i: int| 0 <= i < s.len() ==> !is_reserved(#[trigger] s[i]),
    decreases s.len(),
{
    if s.len() > 0 {
        lemma_none_reserved(s.drop_last());
        assert forall|i: int| 0 <= i < s.len() implies !is_reserved(#[trigger] s[i]) by {
            if i < s.len() - 1 {
                assert(s[i] == s.drop_last()[i]);
            }
        }
    }
}

fn count_reserved(s: &[char]) -> (n: usize)
    ensures
        n == reserved_count(s@),
{
    let mut n: usize = 0;
    let mut i: usize = 0;
    while i < s.len()
        invariant
            i <= s.len(),
            n <= i,
            n == reserved_count(s@.take(i as int)),
        decreases s.len() - i,
    {
        let c = s[i];
        proof {
            let t = s@.take(i + 1);
            assert(t.drop_last() =~= s@.take(i as int));
            assert(t.last() == c);
        }
        if c == ';' || c == ' ' || c == '\\' || c == '\n' || c == '\r' {
            n += 1;
        }
        i += 1;
    }
    assert(s@.take(s.len() as int) =~= s@);
    n
}

/// How many bytes longer the escaped form of `input` is than `input`.
pub fn estimate_escape_size(input: &str) -> (n: usize)
    ensures
        n == reserved_count(input@),
{
    let chars = chars_of(input);
    count_reserved(chars.as_slice())
}

/// Reads an escaped tag value back. A value without a backslash is handed
/// back as it came, without a copy; only a value with one is written anew.
pub fn unescape_tag<'a>(input: &'a str) -> (r: Cow<'a, str>)
    ensures
        r@ == unescaped(input@),
        find(input@, '\\') is None ==> r == Cow::<'a, str>::Borrowed(input),
        find(input@, '\\') is Some ==> r is Owned,
{
    let chars = chars_of(input);
    match unescape_chars(chars.as_slice()) {
        Some(text) => Cow::Owned(text),
        None => Cow::Borrowed(input),
    }
}

/// The text that `s` reads back as; `None` where that is `s` itself because it
/// holds no backslash.
pub fn unescape_chars(s: &[char]) -> (r: Option<String>)
    ensures
        r is None <==> find(s@, '\\') is None,
        r matches Some(text) ==> text@ == unescaped(s@),
        r is None ==> unescaped(s@) == s@,
{
    if find_char(s, '\\').is_none() {
        proof {
            lemma_find_is_first(s@, '\\');
            lemma_unescaped_plain(s@);
        }
        return None;
    }
    let mut out = String::new();
    let mut i: usize = 0;
    assert(s@.skip(0) =~= s@);
    while i < s.len()
        invariant
            i <= s.len(),
            out@ + unescaped(s@.skip(i as int)) == unescaped(s@),
        decreases s.len() - i,
    {
        let ghost rest = s@.skip(i as int);
        let ghost before = out@;
        let c = s[i];
        if c != '\\' {
            out.push(c);
            assert(rest.skip(1) =~= s@.skip(i + 1));
            assert(before.push(c) + unescaped(s@.skip(i + 1)) =~= before + (seq![c] + unescaped(
                s@.skip(i + 1),
            )));
            i += 1;
        } else if i + 1 < s.len() {
            let d = s[i + 1];
            let plain: char = if d == ':' {
                ';'
            } else if d == 's' {
                ' '
            } else if d == 'r' {
                '\r'
            } else if d == 'n' {
                '\n'
            } else {
                d
            };
            out.push(plain);
            assert(rest.skip(2) =~= s@.skip(i + 2));
            assert(rest[1] == d);
            assert(before.push(plain) + unescaped(s@.skip(i + 2)) =~= before + (seq![plain]
                + unescaped(s@.skip(i + 2))));
            i += 2;
        } else {
            assert(rest.len() == 1);
            assert(unescaped(rest) =~= Seq::<char>::empty());
            assert(unescaped(s@.skip(i + 1)) =~= Seq::<char>::empty());
            i += 1;
        }
    }
    assert(unescaped(s@.skip(i as int)) =~= Seq::<char>::empty());
    assert(out@ + Seq::<char>::empty() =~= out@);
    Some(out)
}

/// Writes a tag value in its escaped form. A value without reserved characters
/// is handed back as it came, without a copy; only a value with one is written
/// anew.
pub fn escape_tag<'a>(input: &'a str) -> (r: Cow<'a, str>)
    ensures
        r@ == escaped(input@),
        reserved_count(input@) == 0 ==> r == Cow::<'a, str>::Borrowed(input),
        reserved_count(input@) > 0 ==> r is Owned,
{
    let chars = chars_of(input);
    match escape_chars(chars.as_slice()) {
        Some(text) => Cow::Owned(text),
        None => Cow::Borrowed(input),
    }
}

/// The escaped form of `s`; `None` where that is `s` itself because it holds
/// no reserved character.
pub fn escape_chars(s: &[char]) -> (r: Option<String>)
    ensures
        r is None <==> reserved_count(s@) == 0,
        r matches Some(text) ==> text@ == escaped(s@),
        r is None ==> escaped(s@) == s@,
{
    if count_reserved(s) == 0 {
        proof {
            lemma_none_reserved(s@);
            lemma_escaped_plain(s@);
        }
        return None;
    }
    let mut out = String::new();
    let mut i: usize = 0;
    assert(s@.skip(0) =~= s@);
    while i < s.len()
        invariant
            i <= s.len(),
            out@ + escaped(s@.skip(i as int)) == escaped(s@),
        decreases s.len() - i,
    {
        let ghost rest = s@.skip(i as int);
        let ghost before = out@;
        let c = s[i];
        assert(rest.skip(1) =~= s@.skip(i + 1));
        if c == ';' {
            out.push('\\');
            out.push(':');
        } else if c == ' ' {
            out.push('\\');
            out.push('s');
        } else if c == '\\' {
            out.push('\\');
            out.push('\\');
        } else if c == '\r' {
            out.push('\\');
            out.push('r');
        } else if c == '\n' {
            out.push('\\');
            out.push('n');
        } else {
            out.push(c);
        }
        assert(out@ =~= before + escape_of(c));
        assert((before + escape_of(c)) + escaped(s@.skip(i + 1)) =~= before + (escape_of(c)
            + escaped(s@.skip(i + 1))));
        i += 1;
    }
    assert(escaped(s@.skip(i as int)) =~= Seq::<char>::empty());
    assert(out@ + Seq::<char>::empty() =~= out@);
    Some(out)
}

} // verus!
