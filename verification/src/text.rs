//! Text as sequences of characters: the vocabulary in which every contract of
//! this crate is written, and the executable helpers that compute it.
//!
//! Parsed text is kept as `Cow<'a, str>`: a piece of the input where that will
//! do, a string of its own where the text had to be changed.
use std::borrow::Cow;
use vstd::prelude::*;
use vstd::slice::slice_subrange;
use vstd::std_specs::iter::IteratorSpec;
use vstd::string::{StrSliceExecFns, StringExecFns};

verus! {

/// `String::push` appends one character to the end of the string.
pub assume_specification[ String::push ](s: &mut String, c: char)
    ensures
        final(s)@ == old(s)@.push(c),
;

/// Whether `a` and `b` hold the same characters in the same order.
pub fn str_eq(a: &str, b: &str) -> (r: bool)
    ensures
        r == (a@ == b@),
{
    broadcast use vstd::string::group_string_axioms;

    let mut left = a.chars();
    let mut right = b.chars();
    let ghost mut seen: Seq<char> = Seq::empty();
    assert(seen + left.remaining() =~= a@);
    assert(seen + right.remaining() =~= b@);
    loop
        invariant
            left.obeys_prophetic_iter_laws(),
            right.obeys_prophetic_iter_laws(),
            seen + left.remaining() == a@,
            seen + right.remaining() == b@,
        decreases a@.len() - seen.len(),
    {
        let ghost ahead = left.remaining();
        let ghost other = right.remaining();
        match left.next() {
            Some(c) => match right.next() {
                Some(d) => {
                    assert(ahead =~= seq![c] + left.remaining());
                    assert(other =~= seq![d] + right.remaining());
                    if c != d {
                        assert(a@[seen.len() as int] == c);
                        assert(b@[seen.len() as int] == d);
                        return false;
                    }
                    proof {
                        seen = seen.push(c);
                        assert(seen + left.remaining() =~= a@);
                        assert(seen + right.remaining() =~= b@);
                    }
                },
                None => {
                    assert(other.len() == 0);
                    assert(ahead.len() > 0);
                    assert(a@.len() != b@.len());
                    return false;
                },
            },
            None => {
                assert(ahead.len() == 0);
                match right.next() {
                    Some(_) => {
                        assert(other.len() > 0);
                        assert(a@.len() != b@.len());
                        return false;
                    },
                    None => {
                        assert(other.len() == 0);
                        assert(a@ =~= seen);
                        assert(b@ =~= seen);
                        return true;
                    },
                }
            },
        }
    }
}

/// The views of a sequence of string slices, in order.
pub open spec fn strs<'a>(pieces: Seq<&'a str>) -> Seq<Seq<char>> {
    Seq::new(pieces.len(), |i: int| pieces[i]@)
}

/// The views of a sequence of texts, in order.
pub open spec fn texts<'a>(items: Seq<Cow<'a, str>>) -> Seq<Seq<char>> {
    Seq::new(items.len(), |i: int| items[i]@)
}

/// The view of an optional text.
pub open spec fn opt_text<'a>(item: Option<Cow<'a, str>>) -> Option<Seq<char>> {
    match item {
        Some(s) => Some(s@),
        None => None,
    }
}

/// The view of an optional string slice.
pub open spec fn opt_str(item: Option<&str>) -> Option<Seq<char>> {
    match item {
        Some(s) => Some(s@),
        None => None,
    }
}

/// Every one of `items` is a borrowed piece.
pub open spec fn all_borrowed<'a>(items: Seq<Cow<'a, str>>) -> bool {
    forall|i: int| 0 <= i < items.len() ==> (#[trigger] items[i]) is Borrowed
}

/// Every one of `items` owns its text.
pub open spec fn all_owned<'a>(items: Seq<Cow<'a, str>>) -> bool {
    forall|i: int| 0 <= i < items.len() ==> (#[trigger] items[i]) is Owned
}

/// The text as a string slice.
pub fn as_str<'a, 'b>(text: &'b Cow<'a, str>) -> (r: &'b str)
    ensures
        r@ == text@,
{
    match text {
        Cow::Borrowed(piece) => piece,
        Cow::Owned(own) => own.as_str(),
    }
}

/// Another handle on the same text: a borrowed piece is borrowed once more,
/// and only a text that owns its characters is copied.
pub fn copy_text<'a>(text: &Cow<'a, str>) -> (r: Cow<'a, str>)
    ensures
        r@ == text@,
        r is Owned <==> *text is Owned,
{
    match text {
        Cow::Borrowed(piece) => Cow::Borrowed(*piece),
        Cow::Owned(own) => Cow::Owned(own.clone()),
    }
}

/// Another handle on each of `items`.
pub fn copy_texts<'a>(items: &Vec<Cow<'a, str>>) -> (r: Vec<Cow<'a, str>>)
    ensures
        texts(r@) == texts(items@),
        all_borrowed(items@) ==> all_borrowed(r@),
{
    let mut out: Vec<Cow<'a, str>> = Vec::new();
    let mut i: usize = 0;
    while i < items.len()
        invariant
            i <= items.len(),
            out@.len() == i,
            forall|j: int|
                0 <= j < i ==> out@[j]@ == items@[j]@ && ((#[trigger] out@[j]) is Owned
                    <==> items@[j] is Owned),
        decreases items.len() - i,
    {
        out.push(copy_text(&items[i]));
        i += 1;
    }
    assert(texts(out@) =~= texts(items@));
    assert(all_borrowed(items@) ==> all_borrowed(out@)) by {
        if all_borrowed(items@) {
            assert forall|j: int| 0 <= j < out@.len() implies (#[trigger] out@[j]) is Borrowed by {
                assert(items@[j] is Borrowed);
            }
        }
    }
    out
}

/// Another handle on `item`, if there is one.
pub fn copy_opt<'a>(item: &Option<Cow<'a, str>>) -> (r: Option<Cow<'a, str>>)
    ensures
        opt_text(r) == opt_text(*item),
        r matches Some(text) ==> (text is Owned <==> (*item)->0 is Owned),
{
    match item {
        Some(text) => Some(copy_text(text)),
        None => None,
    }
}

/// The text with characters of its own: a borrowed piece is copied, and a
/// text that owns its characters stays as it is.
pub fn lift_text<'a>(text: Cow<'a, str>) -> (r: Cow<'static, str>)
    ensures
        r@ == text@,
        r is Owned,
{
    match text {
        Cow::Borrowed(piece) => Cow::Owned(String::from_str(piece)),
        Cow::Owned(own) => Cow::Owned(own),
    }
}

/// Each of `items` with characters of its own.
pub fn lift_texts<'a>(items: Vec<Cow<'a, str>>) -> (r: Vec<Cow<'static, str>>)
    ensures
        texts(r@) == texts(items@),
        all_owned(r@),
{
    let mut out: Vec<Cow<'static, str>> = Vec::new();
    let mut i: usize = 0;
    while i < items.len()
        invariant
            i <= items.len(),
            out@.len() == i,
            forall|j: int| 0 <= j < i ==> out@[j]@ == items@[j]@ && (#[trigger] out@[j]) is Owned,
        decreases items.len() - i,
    {
        out.push(lift_text(copy_text(&items[i])));
        i += 1;
    }
    assert(texts(out@) =~= texts(items@));
    out
}

/// `item` with characters of its own, if there is one.
pub fn lift_opt<'a>(item: Option<Cow<'a, str>>) -> (r: Option<Cow<'static, str>>)
    ensures
        opt_text(r) == opt_text(item),
        r matches Some(text) ==> text is Owned,
{
    match item {
        Some(text) => Some(lift_text(text)),
        None => None,
    }
}

/// `i` is the first position of `c` in `s`.
pub open spec fn first_at(s: Seq<char>, c: char, i: int) -> bool {
    &&& 0 <= i < s.len()
    &&& s[i] == c
    &&& forall|j: int| 0 <= j < i ==> s[j] != c
}

/// The first position of `c` in `s`, if it occurs at all.
pub open spec fn find(s: Seq<char>, c: char) -> Option<int> {
    if exists|i: int| first_at(s, c, i) {
        Some(choose|i: int| first_at(s, c, i))
    } else {
        None
    }
}

/// `i` is the first position at which `a` is directly followed by `b`.
pub open spec fn first_pair_at(s: Seq<char>, a: char, b: char, i: int) -> bool {
    &&& 0 <= i < s.len() - 1
    &&& s[i] == a
    &&& s[i + 1] == b
    &&& forall|j: int| 0 <= j < i ==> !(s[j] == a && #[trigger] s[j + 1] == b)
}

/// The first position at which `a` is directly followed by `b`, if there is one.
pub open spec fn find_pair(s: Seq<char>, a: char, b: char) -> Option<int> {
    if exists|i: int| first_pair_at(s, a, b, i) {
        Some(choose|i: int| first_pair_at(s, a, b, i))
    } else {
        None
    }
}

/// What stands before and after the first `c` in `s`.
pub open spec fn split_once(s: Seq<char>, c: char) -> Option<(Seq<char>, Seq<char>)> {
    match find(s, c) {
        Some(i) => Some((s.take(i), s.skip(i + 1))),
        None => None,
    }
}

/// The pieces of `s` between occurrences of `c`: one more than there are
/// occurrences, empty pieces included.
pub open spec fn split(s: Seq<char>, c: char) -> Seq<Seq<char>>
    decreases s.len(),
{
    match find(s, c) {
        Some(i) => if 0 <= i < s.len() {
            seq![s.take(i)] + split(s.skip(i + 1), c)
        } else {
            seq![s]
        },
        None => seq![s],
    }
}

/// A first position is what `find` returns.
pub proof fn lemma_find_some(s: Seq<char>, c: char, i: int)
    requires
        first_at(s, c, i),
    ensures
        find(s, c) == Some(i),
{
    let k = choose|k: int| first_at(s, c, k);
    assert(first_at(s, c, k));
    if k < i {
        assert(s[k] != c);
    } else if i < k {
        assert(s[i] != c);
    }
}

/// Where `c` does not occur, `find` returns nothing.
pub proof fn lemma_find_none(s: Seq<char>, c: char)
    requires
        forall|j: int| 0 <= j < s.len() ==> s[j] != c,
    ensures
        find(s, c) is None,
{
    if exists|i: int| first_at(s, c, i) {
        let k = choose|k: int| first_at(s, c, k);
        assert(s[k] != c);
    }
}

/// Whatever `find` returns is a first position.
pub proof fn lemma_find_is_first(s: Seq<char>, c: char)
    ensures
        find(s, c) matches Some(i) ==> first_at(s, c, i),
        find(s, c) is None ==> forall|j: int| 0 <= j < s.len() ==> s[j] != c,
{
    if find(s, c) is None {
        assert forall|j: int| 0 <= j < s.len() implies s[j] != c by {
            if s[j] == c {
                lemma_first_exists(s, c, j);
            }
        }
    }
}

/// An occurrence anywhere means that there is a first one, at or before it.
pub proof fn lemma_first_exists(s: Seq<char>, c: char, j: int)
    requires
        0 <= j < s.len(),
        s[j] == c,
    ensures
        exists|i: int| first_at(s, c, i) && i <= j,
    decreases j,
{
    if forall|k: int| 0 <= k < j ==> s[k] != c {
        assert(first_at(s, c, j));
    } else {
        let k = choose|k: int| 0 <= k < j && s[k] == c;
        lemma_first_exists(s, c, k);
    }
}

/// A first position of a pair is what `find_pair` returns.
pub proof fn lemma_find_pair_some(s: Seq<char>, a: char, b: char, i: int)
    requires
        first_pair_at(s, a, b, i),
    ensures
        find_pair(s, a, b) == Some(i),
{
    let k = choose|k: int| first_pair_at(s, a, b, k);
    assert(first_pair_at(s, a, b, k));
    if k < i {
        assert(!(s[k] == a && s[k + 1] == b));
    } else if i < k {
        assert(!(s[i] == a && s[i + 1] == b));
    }
}

/// Where no `a` is directly followed by `b`, `find_pair` returns nothing.
pub proof fn lemma_find_pair_none(s: Seq<char>, a: char, b: char)
    requires
        forall|j: int| 0 <= j < s.len() - 1 ==> !(s[j] == a && #[trigger] s[j + 1] == b),
    ensures
        find_pair(s, a, b) is None,
{
    if exists|i: int| first_pair_at(s, a, b, i) {
        let k = choose|k: int| first_pair_at(s, a, b, k);
        assert(!(s[k] == a && s[k + 1] == b));
    }
}

/// A pair anywhere means that there is a first one, at or before it.
pub proof fn lemma_first_pair_exists(s: Seq<char>, a: char, b: char, j: int)
    requires
        0 <= j < s.len() - 1,
        s[j] == a,
        s[j + 1] == b,
    ensures
        exists|i: int| first_pair_at(s, a, b, i) && i <= j,
    decreases j,
{
    if forall|k: int| 0 <= k < j ==> !(s[k] == a && #[trigger] s[k + 1] == b) {
        assert(first_pair_at(s, a, b, j));
    } else {
        let k = choose|k: int| 0 <= k < j && s[k] == a && #[trigger] s[k + 1] == b;
        lemma_first_pair_exists(s, a, b, k);
    }
}

/// Whatever `find_pair` returns is a first position of a pair.
pub proof fn lemma_find_pair_is_first(s: Seq<char>, a: char, b: char)
    ensures
        find_pair(s, a, b) matches Some(i) ==> first_pair_at(s, a, b, i),
{
}

/// Where `find_pair` finds nothing, no `a` is directly followed by `b`.
pub proof fn lemma_no_pair(s: Seq<char>, a: char, b: char)
    requires
        find_pair(s, a, b) is None,
    ensures
        forall|j: int| 0 <= j < s.len() - 1 ==> !(s[j] == a && #[trigger] s[j + 1] == b),
{
    assert forall|j: int| 0 <= j < s.len() - 1 implies !(s[j] == a && #[trigger] s[j + 1]
        == b) by {
        if s[j] == a && s[j + 1] == b {
            lemma_first_pair_exists(s, a, b, j);
        }
    }
}

/// The characters of a string slice, one by one.
pub fn chars_of(s: &str) -> (v: Vec<char>)
    ensures
        v@ == s@,
{
    broadcast use vstd::string::group_string_axioms;

    let mut v: Vec<char> = Vec::new();
    let mut it = s.chars();
    loop
        invariant
            it.obeys_prophetic_iter_laws(),
            v@ + it.remaining() == s@,
        ensures
            v@ == s@,
        decreases s@.len() - v@.len(),
    {
        let ghost before = it.remaining();
        match it.next() {
            Some(c) => {
                v.push(c);
                assert(before == seq![c] + it.remaining());
                assert(v@ + it.remaining() == s@);
            },
            None => {
                assert(it.remaining().len() == 0);
                assert(v@ + it.remaining() == v@);
                break ;
            },
        }
    }
    v
}

/// The first position of `c` in `s`.
pub fn find_char(s: &[char], c: char) -> (r: Option<usize>)
    ensures
        r is Some <==> find(s@, c) is Some,
        r matches Some(i) ==> i < s.len() && find(s@, c) == Some(i as int) && first_at(
            s@,
            c,
            i as int,
        ),
{
    let mut i: usize = 0;
    while i < s.len()
        invariant
            i <= s.len(),
            forall|j: int| 0 <= j < i ==> s@[j] != c,
        decreases s.len() - i,
    {
        if s[i] == c {
            proof {
                lemma_find_some(s@, c, i as int);
            }
            return Some(i);
        }
        i += 1;
    }
    proof {
        lemma_find_none(s@, c);
    }
    None
}

/// The first position in `s` at which `a` is directly followed by `b`.
pub fn find_two(s: &[char], a: char, b: char) -> (r: Option<usize>)
    ensures
        r is Some <==> find_pair(s@, a, b) is Some,
        r matches Some(i) ==> i + 1 < s.len() && find_pair(s@, a, b) == Some(i as int)
            && first_pair_at(s@, a, b, i as int),
{
    if s.len() < 2 {
        proof {
            lemma_find_pair_none(s@, a, b);
        }
        return None;
    }
    let last: usize = s.len() - 1;
    let mut i: usize = 0;
    while i < last
        invariant
            last == s.len() - 1,
            i <= last,
            forall|j: int| 0 <= j < i ==> !(s@[j] == a && #[trigger] s@[j + 1] == b),
        decreases last - i,
    {
        if s[i] == a && s[i + 1] == b {
            proof {
                lemma_find_pair_some(s@, a, b, i as int);
            }
            return Some(i);
        }
        i += 1;
    }
    proof {
        lemma_find_pair_none(s@, a, b);
    }
    None
}

/// Cuts `s` at its first `c`.
pub fn cut_once<'a>(s: &'a [char], c: char) -> (r: Option<(&'a [char], &'a [char])>)
    ensures
        r is Some <==> split_once(s@, c) is Some,
        r matches Some((head, tail)) ==> split_once(s@, c) == Some((head@, tail@)),
{
    match find_char(s, c) {
        Some(i) => Some((slice_subrange(s, 0, i), slice_subrange(s, i + 1, s.len()))),
        None => None,
    }
}

/// An ASCII decimal digit.
pub open spec fn is_digit(c: char) -> bool {
    '0' <= c && c <= '9'
}

/// Every character of `s` is an ASCII decimal digit (true of the empty text).
pub open spec fn all_digits(s: Seq<char>) -> bool {
    forall|i: int| 0 <= i < s.len() ==> is_digit(#[trigger] s[i])
}

/// The number that a digit stands for; 0 for any other character.
pub open spec fn digit_value(c: char) -> nat {
    if is_digit(c) {
        (c as u32 - '0' as u32) as nat
    } else {
        0
    }
}

/// The number that a text of decimal digits stands for.
pub open spec fn digits_value(s: Seq<char>) -> nat
    decreases s.len(),
{
    if s.len() == 0 {
        0
    } else {
        digits_value(s.drop_last()) * 10 + digit_value(s.last())
    }
}

/// The unsigned number that `s` is the decimal notation of, for a type whose
/// largest value is `max`: an optional `+`, then one or more digits and nothing
/// else, and a value that fits.
pub open spec fn decimal(s: Seq<char>, max: nat) -> Option<nat> {
    let digits = if s.len() > 0 && s[0] == '+' {
        s.skip(1)
    } else {
        s
    };
    if digits.len() > 0 && all_digits(digits) && digits_value(digits) <= max {
        Some(digits_value(digits))
    } else {
        None
    }
}

/// A longer text of digits stands for no smaller number than its beginning.
pub proof fn lemma_value_prefix(s: Seq<char>, n: int)
    requires
        0 <= n <= s.len(),
    ensures
        digits_value(s.take(n)) <= digits_value(s),
    decreases s.len(),
{
    if n == s.len() {
        assert(s.take(n) == s);
    } else {
        assert(s.drop_last().take(n) == s.take(n));
        lemma_value_prefix(s.drop_last(), n);
    }
}

/// Whether `c` is an ASCII decimal digit.
pub fn is_ascii_digit(c: char) -> (r: bool)
    ensures
        r == is_digit(c),
{
    '0' <= c && c <= '9'
}

/// The number that the digit `c` stands for.
pub(crate) fn digit_of(c: char) -> (r: usize)
    requires
        is_digit(c),
    ensures
        r == digit_value(c),
        r <= 9,
{
    (c as u32 - '0' as u32) as usize
}

/// Whether every character of `s` is an ASCII decimal digit.
pub fn is_all_digits(s: &[char]) -> (r: bool)
    ensures
        r == all_digits(s@),
{
    let mut i: usize = 0;
    while i < s.len()
        invariant
            i <= s.len(),
            forall|j: int| 0 <= j < i ==> is_digit(#[trigger] s@[j]),
        decreases s.len() - i,
    {
        if !is_ascii_digit(s[i]) {
            return false;
        }
        i += 1;
    }
    true
}

/// Reads `s` as the decimal notation of an unsigned number of at most `max`.
pub fn parse_decimal(s: &[char], max: usize) -> (r: Option<usize>)
    ensures
        r is Some <==> decimal(s@, max as nat) is Some,
        r matches Some(n) ==> decimal(s@, max as nat) == Some(n as nat),
{
    let digits: &[char] = if s.len() > 0 && s[0] == '+' {
        slice_subrange(s, 1, s.len())
    } else {
        s
    };
    if digits.len() == 0 {
        return None;
    }
    let mut acc: usize = 0;
    let mut i: usize = 0;
    while i < digits.len()
        invariant
            i <= digits.len(),
            acc <= max,
            acc == digits_value(digits@.take(i as int)),
            all_digits(digits@.take(i as int)),
            digits@.len() > 0,
            digits@ == if s@.len() > 0 && s@[0] == '+' {
                s@.skip(1)
            } else {
                s@
            },
        decreases digits.len() - i,
    {
        let c = digits[i];
        if !is_ascii_digit(c) {
            assert(!is_digit(digits@[i as int]));
            return None;
        }
        let d: usize = digit_of(c);
        proof {
            let t = digits@.take(i + 1);
            assert(t.drop_last() == digits@.take(i as int));
            assert(t.last() == c);
            assert(digits_value(t) == acc * 10 + d);
            lemma_value_prefix(digits@, i + 1);
        }
        if acc > max / 10 {
            return None;
        }
        if d > max - acc * 10 {
            return None;
        }
        acc = acc * 10 + d;
        i += 1;
    }
    assert(digits@.take(digits.len() as int) == digits@);
    Some(acc)
}

/// ASCII whitespace: space, tab, line feed, form feed, carriage return.
pub open spec fn is_ascii_space(c: char) -> bool {
    c == ' ' || c == '\t' || c == '\n' || c == '\x0C' || c == '\r'
}

/// A character with the Unicode property `White_Space`.
pub open spec fn is_space(c: char) -> bool {
    ||| ('\u{9}' <= c && c <= '\u{D}')
    ||| c == ' '
    ||| c == '\u{85}'
    ||| c == '\u{A0}'
    ||| c == '\u{1680}'
    ||| ('\u{2000}' <= c && c <= '\u{200A}')
    ||| c == '\u{2028}'
    ||| c == '\u{2029}'
    ||| c == '\u{202F}'
    ||| c == '\u{205F}'
    ||| c == '\u{3000}'
}

/// Whether `c` is ASCII whitespace.
pub fn is_ascii_whitespace(c: char) -> (r: bool)
    ensures
        r == is_ascii_space(c),
{
    c == ' ' || c == '\t' || c == '\n' || c == '\x0C' || c == '\r'
}

/// Whether `c` has the Unicode property `White_Space`.
pub fn is_whitespace(c: char) -> (r: bool)
    ensures
        r == is_space(c),
{
    ('\u{9}' <= c && c <= '\u{D}') || c == ' ' || c == '\u{85}' || c == '\u{A0}' || c
        == '\u{1680}' || ('\u{2000}' <= c && c <= '\u{200A}') || c == '\u{2028}' || c
        == '\u{2029}' || c == '\u{202F}' || c == '\u{205F}' || c == '\u{3000}'
}

/// `s` without the whitespace at its beginning.
pub open spec fn trim_start(s: Seq<char>) -> Seq<char>
    decreases s.len(),
{
    if s.len() > 0 && is_space(s[0]) {
        trim_start(s.skip(1))
    } else {
        s
    }
}

/// `s` without the whitespace at its end.
pub open spec fn trim_end(s: Seq<char>) -> Seq<char>
    decreases s.len(),
{
    if s.len() > 0 && is_space(s.last()) {
        trim_end(s.drop_last())
    } else {
        s
    }
}

/// `s` without the whitespace at either end.
pub open spec fn trim(s: Seq<char>) -> Seq<char> {
    trim_end(trim_start(s))
}

/// How many characters stand at the beginning of `s` before its first ASCII
/// whitespace.
pub open spec fn word_len(s: Seq<char>) -> nat
    decreases s.len(),
{
    if s.len() == 0 || is_ascii_space(s[0]) {
        0
    } else {
        1 + word_len(s.skip(1))
    }
}

/// The runs of characters of `s` that ASCII whitespace separates; none of them
/// is empty.
pub open spec fn words(s: Seq<char>) -> Seq<Seq<char>>
    decreases s.len(),
{
    if s.len() == 0 {
        Seq::empty()
    } else if is_ascii_space(s[0]) {
        words(s.skip(1))
    } else {
        let n = word_len(s);
        if 0 < n <= s.len() {
            seq![s.take(n as int)] + words(s.skip(n as int))
        } else {
            Seq::empty()
        }
    }
}

/// How many bytes the UTF-8 encoding of `c` takes.
pub open spec fn utf8_len(c: char) -> nat {
    if (c as u32) < 0x80 {
        1
    } else if (c as u32) < 0x800 {
        2
    } else if (c as u32) < 0x10000 {
        3
    } else {
        4
    }
}

/// How many bytes the UTF-8 encoding of `s` takes.
pub open spec fn byte_len(s: Seq<char>) -> nat
    decreases s.len(),
{
    if s.len() == 0 {
        0
    } else {
        byte_len(s.drop_last()) + utf8_len(s.last())
    }
}

/// The byte offset at which the character with index `n` starts in the UTF-8
/// encoding of `s`; the largest `usize` where the offset is beyond it.
pub open spec fn byte_offset(s: Seq<char>, n: int) -> nat {
    let exact = byte_len(s.take(n));
    if exact > usize::MAX {
        usize::MAX as nat
    } else {
        exact
    }
}

/// How many bytes the UTF-8 encoding of `c` takes.
pub fn len_utf8(c: char) -> (r: usize)
    ensures
        r == utf8_len(c),
{
    let n: u32 = c as u32;
    if n < 0x80 {
        1
    } else if n < 0x800 {
        2
    } else if n < 0x10000 {
        3
    } else {
        4
    }
}

/// The byte offset of the character with index `n`.
pub(crate) fn offset_of(s: &[char], n: usize) -> (r: usize)
    requires
        n <= s.len(),
    ensures
        r == byte_offset(s@, n as int),
{
    let mut acc: usize = 0;
    let mut i: usize = 0;
    while i < n
        invariant
            i <= n <= s.len(),
            acc == byte_offset(s@, i as int),
        decreases n - i,
    {
        let w: usize = len_utf8(s[i]);
        proof {
            let t = s@.take(i + 1);
            assert(t.drop_last() == s@.take(i as int));
            assert(t.last() == s@[i as int]);
        }
        if acc > usize::MAX - w {
            acc = usize::MAX;
        } else {
            acc = acc + w;
        }
        i += 1;
    }
    acc
}

/// The character with index `i` starts at the byte offset `byte` of `s`; for
/// `i` the length of `s`, the offset is that of the end.
pub open spec fn starts_at(s: Seq<char>, byte: nat, i: int) -> bool {
    0 <= i <= s.len() && byte_len(s.take(i)) == byte
}

/// The index of the character that starts at the byte offset `byte` of `s`;
/// the length of `s` for the offset of its end. None where the offset falls
/// within a character or beyond the end.
pub open spec fn char_index(s: Seq<char>, byte: nat) -> Option<int> {
    if exists|i: int| starts_at(s, byte, i) {
        Some(choose|i: int| starts_at(s, byte, i))
    } else {
        None
    }
}

/// Every character takes at least one byte: a later character starts at a
/// later offset.
pub proof fn lemma_byte_len_grows(s: Seq<char>, k: int, m: int)
    requires
        0 <= k <= m <= s.len(),
    ensures
        byte_len(s.take(k)) + (m - k) <= byte_len(s.take(m)),
    decreases m - k,
{
    if k < m {
        lemma_byte_len_grows(s, k, m - 1);
        assert(s.take(m).drop_last() =~= s.take(m - 1));
    }
}

/// No two characters start at one offset.
pub proof fn lemma_char_index(s: Seq<char>, byte: nat, i: int)
    requires
        starts_at(s, byte, i),
    ensures
        char_index(s, byte) == Some(i),
{
    let k = choose|k: int| starts_at(s, byte, k);
    if k < i {
        lemma_byte_len_grows(s, k, i);
    } else if i < k {
        lemma_byte_len_grows(s, i, k);
    }
}

/// The index of the character that starts at the byte offset `byte`.
pub fn index_at(s: &[char], byte: usize) -> (r: Option<usize>)
    ensures
        r is Some <==> char_index(s@, byte as nat) is Some,
        r matches Some(i) ==> i <= s.len() && char_index(s@, byte as nat) == Some(i as int),
{
    let mut acc: usize = 0;
    let mut i: usize = 0;
    assert(s@.take(0) =~= Seq::<char>::empty());
    while i < s.len() && acc < byte
        invariant
            i <= s.len(),
            acc <= byte,
            acc == byte_len(s@.take(i as int)),
        decreases s.len() - i,
    {
        let w: usize = len_utf8(s[i]);
        proof {
            let t = s@.take(i + 1);
            assert(t.drop_last() =~= s@.take(i as int));
            assert(t.last() == s@[i as int]);
        }
        if w > byte - acc {
            proof {
                assert forall|k: int| !starts_at(s@, byte as nat, k) by {
                    if 0 <= k <= i {
                        lemma_byte_len_grows(s@, k, i as int);
                    } else if i < k <= s.len() {
                        lemma_byte_len_grows(s@, i + 1, k);
                    }
                }
            }
            return None;
        }
        acc = acc + w;
        i += 1;
    }
    if acc == byte {
        proof {
            lemma_char_index(s@, byte as nat, i as int);
        }
        Some(i)
    } else {
        proof {
            assert forall|k: int| !starts_at(s@, byte as nat, k) by {
                if 0 <= k <= s.len() {
                    lemma_byte_len_grows(s@, k, i as int);
                }
            }
        }
        None
    }
}

/// Cuts `s` at its first `c`, into pieces of `s` itself.
pub fn str_cut_once<'a>(s: &'a str, c: char) -> (r: Option<(&'a str, &'a str)>)
    ensures
        r is Some <==> split_once(s@, c) is Some,
        r matches Some((head, tail)) ==> split_once(s@, c) == Some((head@, tail@)),
{
    let chars = chars_of(s);
    match find_char(chars.as_slice(), c) {
        Some(i) => Some((s.substring_char(0, i), s.substring_char(i + 1, chars.len()))),
        None => None,
    }
}

/// Cuts `s` at every `c`, into pieces of `s` itself.
pub fn str_cut<'a>(s: &'a str, c: char) -> (r: Vec<&'a str>)
    ensures
        strs(r@) == split(s@, c),
{
    let chars = chars_of(s);
    let n: usize = chars.len();
    let mut out: Vec<&'a str> = Vec::new();
    let mut start: usize = 0;
    assert(s@.skip(0) =~= s@);
    loop
        invariant_except_break
            start <= n,
            n == s@.len(),
            chars@ == s@,
            strs(out@) + split(s@.skip(start as int), c) == split(s@, c),
        ensures
            strs(out@) == split(s@, c),
        decreases n - start,
    {
        let ghost before = strs(out@);
        let ghost rest = s@.skip(start as int);
        let window = slice_subrange(chars.as_slice(), start, n);
        assert(window@ =~= rest);
        match find_char(window, c) {
            Some(i) => {
                let piece = s.substring_char(start, start + i);
                out.push(piece);
                assert(piece@ =~= rest.take(i as int));
                assert(rest.skip(i + 1) =~= s@.skip(start + i + 1));
                assert(strs(out@) =~= before.push(piece@));
                assert(before.push(piece@) + split(s@.skip(start + i + 1), c) =~= before + (seq![
                    piece@,
                ] + split(s@.skip(start + i + 1), c)));
                start = start + i + 1;
            },
            None => {
                let piece = s.substring_char(start, n);
                out.push(piece);
                assert(piece@ =~= rest);
                assert(strs(out@) =~= before.push(piece@));
                assert(before.push(piece@) =~= before + seq![piece@]);
                break ;
            },
        }
    }
    out
}

/// Cuts `s` into the runs of characters that ASCII whitespace separates, as
/// pieces of `s` itself.
pub fn str_words<'a>(s: &'a str) -> (r: Vec<&'a str>)
    ensures
        strs(r@) == words(s@),
{
    let chars = chars_of(s);
    let text = chars.as_slice();
    let mut out: Vec<&'a str> = Vec::new();
    let mut pos: usize = 0;
    assert(s@.skip(0) =~= s@);
    while pos < text.len()
        invariant
            pos <= text.len(),
            text@ == s@,
            strs(out@) + words(s@.skip(pos as int)) == words(s@),
        decreases text.len() - pos,
    {
        assert(s@.skip(pos as int).skip(1) =~= s@.skip(pos + 1));
        if is_ascii_whitespace(text[pos]) {
            pos += 1;
        } else {
            let start: usize = pos;
            let ghost from = s@.skip(start as int);
            pos += 1;
            while pos < text.len() && !is_ascii_whitespace(text[pos])
                invariant
                    start < pos <= text.len(),
                    text@ == s@,
                    from == s@.skip(start as int),
                    word_len(from) == (pos - start) + word_len(s@.skip(pos as int)),
                decreases text.len() - pos,
            {
                assert(s@.skip(pos as int).skip(1) =~= s@.skip(pos + 1));
                pos += 1;
            }
            let ghost before = strs(out@);
            let piece = s.substring_char(start, pos);
            out.push(piece);
            proof {
                let n = word_len(from);
                assert(n == pos - start);
                assert(from.take(n as int) =~= piece@);
                assert(from.skip(n as int) =~= s@.skip(pos as int));
                assert(strs(out@) =~= before.push(piece@));
                assert(before.push(piece@) + words(s@.skip(pos as int)) =~= before + (seq![piece@]
                    + words(s@.skip(pos as int))));
            }
        }
    }
    assert(words(s@.skip(pos as int)) =~= Seq::<Seq<char>>::empty());
    out
}

/// The part of `s` that is left when the whitespace at both ends is taken
/// off, as a piece of `s` itself.
pub fn str_trim<'a>(s: &'a str) -> (r: &'a str)
    ensures
        r@ == trim(s@),
{
    let chars = chars_of(s);
    let text = chars.as_slice();
    let mut a: usize = 0;
    assert(s@.skip(0) =~= s@);
    while a < text.len() && is_whitespace(text[a])
        invariant
            a <= text.len(),
            text@ == s@,
            trim_start(s@.skip(a as int)) == trim_start(s@),
        decreases text.len() - a,
    {
        assert(s@.skip(a as int).skip(1) =~= s@.skip(a + 1));
        a += 1;
    }
    assert(trim_start(s@) == s@.skip(a as int));
    let mut b: usize = text.len();
    assert(s@.subrange(a as int, b as int) =~= s@.skip(a as int));
    while b > a && is_whitespace(text[b - 1])
        invariant
            a <= b <= text.len(),
            text@ == s@,
            trim_end(s@.subrange(a as int, b as int)) == trim_end(s@.skip(a as int)),
        decreases b,
    {
        assert(s@.subrange(a as int, b as int).drop_last() =~= s@.subrange(a as int, b - 1));
        b -= 1;
    }
    s.substring_char(a, b)
}

} // verus!
