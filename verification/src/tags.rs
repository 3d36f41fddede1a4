//! The metadata attached to a line: a mapping from keys to values.
use std::borrow::Cow;
use vstd::prelude::*;
use vstd::string::{StrSliceExecFns, StringExecFns};
use crate::color::{color_of, Color};
use crate::escape::{escape_tag, escaped, unescape_tag, unescaped};
use crate::parse::Parse;
use crate::text::{
    as_str, chars_of, copy_text, decimal, lemma_find_is_first, lift_text, opt_str,
    parse_decimal, split, split_once, str_cut, str_cut_once, str_eq, strs,
};

verus! {

/// Tags are metadata attached to many messages: a mapping of a key to a value,
/// each key once.
#[derive(Debug)]
pub struct Tags<'a> {
    inner: Vec<(Cow<'a, str>, Cow<'a, str>)>,
}

/// What a list of entries maps each key to; where a key comes twice, the later
/// entry counts.
pub open spec fn map_of(entries: Seq<(Seq<char>, Seq<char>)>) -> Map<Seq<char>, Seq<char>>
    decreases entries.len(),
{
    if entries.len() == 0 {
        Map::empty()
    } else {
        map_of(entries.drop_last()).insert(entries.last().0, entries.last().1)
    }
}

/// No key comes twice in `entries`.
pub open spec fn distinct_keys(entries: Seq<(Seq<char>, Seq<char>)>) -> bool {
    forall|i: int, j: int|
        0 <= i < j < entries.len() ==> (#[trigger] entries[i]).0 != (#[trigger] entries[j]).0
}

/// `entries` lists what `tags` holds, every key once, in some order.
pub open spec fn lists(
    entries: Seq<(Seq<char>, Seq<char>)>,
    tags: Map<Seq<char>, Seq<char>>,
) -> bool {
    distinct_keys(entries) && map_of(entries) == tags
}

/// The value of the tag `key`, where there is one and it is not empty.
pub open spec fn tag_value(tags: Map<Seq<char>, Seq<char>>, key: Seq<char>) -> Option<
    Seq<char>,
> {
    if tags.contains_key(key) && tags[key].len() > 0 {
        Some(tags[key])
    } else {
        None
    }
}

/// Whether the tag `key` is set to `1`.
pub open spec fn tag_flag(tags: Map<Seq<char>, Seq<char>>, key: Seq<char>) -> bool {
    tag_value(tags, key) == Some("1"@)
}

/// The number that the tag `key` holds, where there is such a tag and it holds
/// one.
pub open spec fn tag_number(tags: Map<Seq<char>, Seq<char>>, key: Seq<char>) -> Option<nat> {
    match tag_value(tags, key) {
        Some(v) => decimal(v, usize::MAX as nat),
        None => None,
    }
}

/// The colour that the tag `color` names, where it names one.
pub open spec fn tag_color(tags: Map<Seq<char>, Seq<char>>) -> Option<Color> {
    match tag_value(tags, "color"@) {
        Some(v) => match color_of(v) {
            Ok(c) => Some(c),
            Err(_) => None,
        },
        None => None,
    }
}

/// The tags that the entries of a tag block set, the later entry winning: an
/// entry is a key, `=` and an escaped value, and an entry without `=` sets
/// nothing.
pub open spec fn tag_map(entries: Seq<Seq<char>>) -> Map<Seq<char>, Seq<char>>
    decreases entries.len(),
{
    if entries.len() == 0 {
        Map::empty()
    } else {
        let before = tag_map(entries.drop_last());
        match split_once(entries.last(), '=') {
            Some((key, value)) => before.insert(key, unescaped(value)),
            None => before,
        }
    }
}

/// The tag block at the beginning of `s`, read, and what follows it. A text
/// that does not start with `@`, or holds no space, has no tag block and is
/// left as it is.
pub open spec fn tags_of(s: Seq<char>) -> (Option<Map<Seq<char>, Seq<char>>>, Seq<char>) {
    if s.len() > 0 && s[0] == '@' {
        match split_once(s, ' ') {
            Some((head, tail)) => (Some(tag_map(split(head.skip(1), ';'))), tail),
            None => (None, s),
        }
    } else {
        (None, s)
    }
}

/// How one entry is written: its key, `=` and its escaped value.
pub open spec fn entry_text(entry: (Seq<char>, Seq<char>)) -> Seq<char> {
    entry.0 + seq!['='] + escaped(entry.1)
}

/// How entries are written in front of a line: `@` before the first entry and
/// `;` before every other; for no entries, nothing.
pub open spec fn raw_tags(entries: Seq<(Seq<char>, Seq<char>)>) -> Seq<char>
    decreases entries.len(),
{
    if entries.len() == 0 {
        Seq::empty()
    } else {
        raw_tags(entries.drop_last()) + seq![
            if entries.len() == 1 {
                '@'
            } else {
                ';'
            },
        ] + entry_text(entries.last())
    }
}

/// What a vector of entries holds, as plain text.
pub open spec fn listing<'a>(inner: Seq<(Cow<'a, str>, Cow<'a, str>)>) -> Seq<
    (Seq<char>, Seq<char>),
> {
    Seq::new(inner.len(), |i: int| (inner[i].0@, inner[i].1@))
}

proof fn lemma_map_of_absent(entries: Seq<(Seq<char>, Seq<char>)>, key: Seq<char>)
    requires
        forall|i: int| 0 <= i < entries.len() ==> (#[trigger] entries[i]).0 != key,
    ensures
        !map_of(entries).contains_key(key),
    decreases entries.len(),
{
    if entries.len() > 0 {
        assert(entries.last() == entries[entries.len() - 1]);
        assert forall|i: int| 0 <= i < entries.drop_last().len() implies (
        #[trigger] entries.drop_last()[i]).0 != key by {
            assert(entries.drop_last()[i] == entries[i]);
        }
        lemma_map_of_absent(entries.drop_last(), key);
    }
}

proof fn lemma_distinct_drop_last(entries: Seq<(Seq<char>, Seq<char>)>)
    requires
        distinct_keys(entries),
        entries.len() > 0,
    ensures
        distinct_keys(entries.drop_last()),
{
    let shorter = entries.drop_last();
    assert forall|i: int, j: int| 0 <= i < j < shorter.len() implies (#[trigger] shorter[i]).0 != (
    #[trigger] shorter[j]).0 by {
        assert(shorter[i] == entries[i]);
        assert(shorter[j] == entries[j]);
    }
}

proof fn lemma_map_of_present(entries: Seq<(Seq<char>, Seq<char>)>, at: int)
    requires
        distinct_keys(entries),
        0 <= at < entries.len(),
    ensures
        map_of(entries).contains_key(entries[at].0),
        map_of(entries)[entries[at].0] == entries[at].1,
    decreases entries.len(),
{
    if at < entries.len() - 1 {
        lemma_distinct_drop_last(entries);
        assert(entries.drop_last()[at] == entries[at]);
        lemma_map_of_present(entries.drop_last(), at);
        assert(entries[at].0 != entries[entries.len() - 1].0);
    }
}

proof fn lemma_map_of_update(entries: Seq<(Seq<char>, Seq<char>)>, at: int, value: Seq<char>)
    requires
        distinct_keys(entries),
        0 <= at < entries.len(),
    ensures
        distinct_keys(entries.update(at, (entries[at].0, value))),
        map_of(entries.update(at, (entries[at].0, value))) == map_of(entries).insert(
            entries[at].0,
            value,
        ),
    decreases entries.len(),
{
    let key = entries[at].0;
    let changed = entries.update(at, (key, value));
    assert forall|i: int, j: int| 0 <= i < j < changed.len() implies (#[trigger] changed[i]).0 != (
    #[trigger] changed[j]).0 by {
        assert(changed[i].0 == entries[i].0);
        assert(changed[j].0 == entries[j].0);
    }
    if at == entries.len() - 1 {
        assert(changed.drop_last() =~= entries.drop_last());
        assert(map_of(changed) =~= map_of(entries).insert(key, value));
    } else {
        lemma_distinct_drop_last(entries);
        assert(entries.drop_last()[at] == entries[at]);
        assert(changed.drop_last() =~= entries.drop_last().update(at, (key, value)));
        lemma_map_of_update(entries.drop_last(), at, value);
        assert(entries[at].0 != entries[entries.len() - 1].0);
        assert(changed.last() == entries.last());
        assert(map_of(changed) =~= map_of(entries).insert(key, value));
    }
}

/// Whatever a list of entries maps a key to stands in the list.
proof fn lemma_map_of_witness(entries: Seq<(Seq<char>, Seq<char>)>, key: Seq<char>)
    requires
        map_of(entries).contains_key(key),
    ensures
        exists|i: int| 0 <= i < entries.len() && (#[trigger] entries[i]).0 == key,
{
    if forall|i: int| 0 <= i < entries.len() ==> (#[trigger] entries[i]).0 != key {
        lemma_map_of_absent(entries, key);
    }
}

impl<'a> Tags<'a> {
    /// The entries in the order in which they are kept.
    pub closed spec fn entries(&self) -> Seq<(Seq<char>, Seq<char>)> {
        listing(self.inner@)
    }

    /// Every key and every value is a text of its own.
    pub closed spec fn is_owned(&self) -> bool {
        forall|i: int|
            0 <= i < self.inner@.len() ==> (#[trigger] self.inner@[i]).0 is Owned
                && self.inner@[i].1 is Owned
    }

    #[verifier::type_invariant]
    spec fn well_formed(&self) -> bool {
        distinct_keys(self.entries())
    }

    /// No tags at all.
    pub fn new() -> (r: Tags<'a>)
        ensures
            r@ == Map::<Seq<char>, Seq<char>>::empty(),
    {
        let inner: Vec<(Cow<'a, str>, Cow<'a, str>)> = Vec::new();
        assert(listing(inner@) =~= Seq::empty());
        Tags { inner }
    }

    /// How many tags there are.
    pub fn len(&self) -> (r: usize)
        ensures
            r == self@.dom().len(),
            self@.dom().finite(),
    {
        proof {
            use_type_invariant(self);
            lemma_domain_size(self.entries());
        }
        self.inner.len()
    }

    /// The tags as pairs of key and value, every key once, in some order.
    pub fn pairs(&self) -> (r: Vec<(Cow<'a, str>, Cow<'a, str>)>)
        ensures
            lists(listing(r@), self@),
    {
        proof {
            use_type_invariant(self);
        }
        copy_entries(&self.inner)
    }

    /// The value that `key` is mapped to, empty or not.
    pub fn lookup(&self, key: &str) -> (r: Option<&str>)
        ensures
            r is Some <==> self@.contains_key(key@),
            r matches Some(v) ==> v@ == self@[key@],
    {
        proof {
            use_type_invariant(self);
        }
        let mut i: usize = 0;
        while i < self.inner.len()
            invariant
                i <= self.inner@.len(),
                distinct_keys(self.entries()),
                forall|j: int| 0 <= j < i ==> (#[trigger] self.entries()[j]).0 != key@,
            decreases self.inner@.len() - i,
        {
            if str_eq(as_str(&self.inner[i].0), key) {
                proof {
                    lemma_map_of_present(self.entries(), i as int);
                }
                return Some(as_str(&self.inner[i].1));
            }
            i += 1;
        }
        proof {
            lemma_map_of_absent(self.entries(), key@);
        }
        None
    }

    /// The value of the tag `key`; a tag with an empty value counts as not
    /// there.
    pub fn get(&self, key: &str) -> (r: Option<&str>)
        ensures
            opt_str(r) == tag_value(self@, key@),
    {
        match self.lookup(key) {
            Some(v) => if v.is_empty() {
                None
            } else {
                Some(v)
            },
            None => None,
        }
    }

    /// The number that the tag `key` holds: `None` where there is no such
    /// tag, `Some(None)` where its value is no number.
    pub fn parsed(&self, key: &str) -> (r: Option<Option<usize>>)
        ensures
            r is Some <==> tag_value(self@, key@) is Some,
            r matches Some(Some(n)) ==> tag_number(self@, key@) == Some(n as nat),
            r matches Some(None) ==> tag_number(self@, key@) is None,
    {
        match self.get(key) {
            Some(v) => {
                let chars = chars_of(v);
                Some(parse_decimal(chars.as_slice(), usize::MAX))
            },
            None => None,
        }
    }

    /// The number that the tag `key` holds, where there is such a tag and it
    /// holds one.
    pub fn number(&self, key: &str) -> (r: Option<usize>)
        ensures
            r is Some <==> tag_number(self@, key@) is Some,
            r matches Some(n) ==> tag_number(self@, key@) == Some(n as nat),
    {
        match self.parsed(key) {
            Some(Some(n)) => Some(n),
            _ => None,
        }
    }

    /// Whether the tag `key` is set to `1`.
    pub fn bool(&self, key: &str) -> (r: bool)
        ensures
            r == tag_flag(self@, key@),
    {
        match self.get(key) {
            Some(v) => str_eq(v, "1"),
            None => false,
        }
    }

    /// The colour that the tag `color` names.
    pub fn color(&self) -> (r: Option<Color>)
        ensures
            r == tag_color(self@),
    {
        match self.get("color") {
            Some(v) => match Color::parse(v) {
                Ok(c) => Some(c),
                Err(_) => None,
            },
            None => None,
        }
    }

    /// These tags with `key` mapped to `value`, in place of what it was mapped
    /// to before.
    pub fn insert(self, key: Cow<'a, str>, value: Cow<'a, str>) -> (r: Tags<'a>)
        ensures
            r@ == self@.insert(key@, value@),
    {
        proof {
            use_type_invariant(&self);
        }
        let ghost before = self.entries();
        let mut inner = self.inner;
        let mut found: Option<usize> = None;
        let mut i: usize = 0;
        while i < inner.len() && found.is_none()
            invariant
                i <= inner@.len(),
                before == listing(inner@),
                found is None ==> forall|j: int| 0 <= j < i ==> (#[trigger] before[j]).0 != key@,
                found matches Some(at) ==> at < inner@.len() && before[at as int].0 == key@,
            decreases inner@.len() - i + if found is None {
                1int
            } else {
                0int
            },
        {
            if str_eq(as_str(&inner[i].0), as_str(&key)) {
                found = Some(i);
            } else {
                i += 1;
            }
        }
        if let Some(at) = found {
            proof {
                lemma_map_of_update(before, at as int, value@);
            }
            inner.set(at, (key, value));
            assert(listing(inner@) =~= before.update(at as int, (before[at as int].0, value@)));
            return Tags { inner };
        }
        inner.push((key, value));
        proof {
            let after = listing(inner@);
            assert(after =~= before.push((key@, value@)));
            assert(after.drop_last() =~= before);
            assert forall|a: int, b: int| 0 <= a < b < after.len() implies (#[trigger] after[a]).0
                != (#[trigger] after[b]).0 by {
                if b < before.len() {
                    assert(after[a] == before[a]);
                    assert(after[b] == before[b]);
                } else {
                    assert(after[a] == before[a]);
                }
            }
        }
        Tags { inner }
    }

    /// A builder of tags.
    pub fn builder() -> (r: TagsBuilder)
        ensures
            r@ == Map::<Seq<char>, Seq<char>>::empty(),
    {
        TagsBuilder { tags: Tags::new() }
    }

    /// Reads the tag block at the beginning of `input`, and leaves in `input`
    /// what follows it. The keys are pieces of `input`, and so are the values
    /// but for those in which something was escaped.
    pub fn read(input: &mut &'a str) -> (r: Option<Tags<'a>>)
        ensures
            r is Some <==> tags_of(old(input)@).0 is Some,
            r matches Some(tags) ==> tags_of(old(input)@).0 == Some(tags@),
            final(input)@ == tags_of(old(input)@).1,
    {
        let s: &'a str = *input;
        let n: usize = s.unicode_len();
        if n == 0 || s.get_char(0) != '@' {
            return None;
        }
        match str_cut_once(s, ' ') {
            Some((head, tail)) => {
                proof {
                    lemma_find_is_first(s@, ' ');
                }
                *input = tail;
                let block = head.substring_char(1, head.unicode_len());
                let entries = str_cut(block, ';');
                let mut tags: Tags<'a> = Tags::new();
                let mut i: usize = 0;
                assert(strs(entries@).take(0) =~= Seq::empty());
                while i < entries.len()
                    invariant
                        i <= entries.len(),
                        tags@ == tag_map(strs(entries@).take(i as int)),
                    decreases entries.len() - i,
                {
                    let ghost upto = strs(entries@).take(i + 1);
                    assert(upto.drop_last() =~= strs(entries@).take(i as int));
                    assert(upto.last() == entries@[i as int]@);
                    match str_cut_once(entries[i], '=') {
                        Some((key, value)) => {
                            tags = tags.insert(Cow::Borrowed(key), unescape_tag(value));
                        },
                        None => {},
                    }
                    i += 1;
                }
                assert(strs(entries@).take(entries.len() as int) =~= strs(entries@));
                Some(tags)
            },
            None => None,
        }
    }

    /// These tags with text of their own, which no longer borrow from the
    /// input.
    pub fn lifted(self) -> (r: Tags<'static>)
        ensures
            r@ == self@,
            r.is_owned(),
    {
        proof {
            use_type_invariant(&self);
        }
        let ghost before = self.entries();
        let inner = self.inner;
        let mut out: Vec<(Cow<'static, str>, Cow<'static, str>)> = Vec::new();
        let mut i: usize = 0;
        while i < inner.len()
            invariant
                i <= inner@.len(),
                out@.len() == i,
                listing(out@) == listing(inner@).take(i as int),
                forall|j: int|
                    0 <= j < i ==> (#[trigger] out@[j]).0 is Owned && out@[j].1 is Owned,
            decreases inner@.len() - i,
        {
            let ghost prev = out@;
            let key = lift_text(copy_text(&inner[i].0));
            let value = lift_text(copy_text(&inner[i].1));
            out.push((key, value));
            proof {
                let want = listing(inner@).take(i + 1);
                assert forall|j: int| 0 <= j < out@.len() implies #[trigger] listing(out@)[j]
                    == want[j] by {
                    if j < i {
                        assert(out@[j] == prev[j]);
                        assert(listing(prev)[j] == listing(inner@).take(i as int)[j]);
                    }
                }
                assert(listing(out@) =~= want);
            }
            i += 1;
        }
        assert(listing(inner@).take(i as int) =~= listing(inner@));
        Tags { inner: out }
    }

    /// These tags as they are written in front of a line. The order of the
    /// entries is that of some listing of the tags.
    pub fn to_raw(&self) -> (r: String)
        ensures
            exists|entries: Seq<(Seq<char>, Seq<char>)>| #[trigger]
                lists(entries, self@) && r@ == raw_tags(entries),
    {
        proof {
            use_type_invariant(self);
        }
        let mut out = String::new();
        let mut i: usize = 0;
        assert(self.entries().take(0) =~= Seq::empty());
        while i < self.inner.len()
            invariant
                i <= self.inner@.len(),
                out@ == raw_tags(self.entries().take(i as int)),
            decreases self.inner@.len() - i,
        {
            let ghost upto = self.entries().take(i + 1);
            assert(upto.drop_last() =~= self.entries().take(i as int));
            assert(upto.last() == (self.inner@[i as int].0@, self.inner@[i as int].1@));
            write_entry(&mut out, i == 0, as_str(&self.inner[i].0), as_str(&self.inner[i].1));
            i += 1;
        }
        assert(self.entries().take(self.inner@.len() as int) =~= self.entries());
        assert(lists(self.entries(), self@));
        out
    }

    /// Whether every tag of `self` is a tag of `other`, with the same value.
    fn within(&self, other: &Tags<'a>) -> (r: bool)
        ensures
            r == (forall|k: Seq<char>| #[trigger]
                self@.contains_key(k) ==> other@.contains_key(k) && other@[k] == self@[k]),
    {
        proof {
            use_type_invariant(self);
        }
        let mut i: usize = 0;
        while i < self.inner.len()
            invariant
                i <= self.inner@.len(),
                distinct_keys(self.entries()),
                forall|j: int|
                    0 <= j < i ==> other@.contains_key((#[trigger] self.entries()[j]).0)
                        && other@[self.entries()[j].0] == self.entries()[j].1,
            decreases self.inner@.len() - i,
        {
            proof {
                lemma_map_of_present(self.entries(), i as int);
            }
            let same = match other.lookup(as_str(&self.inner[i].0)) {
                Some(v) => str_eq(v, as_str(&self.inner[i].1)),
                None => false,
            };
            if !same {
                assert(self@.contains_key(self.entries()[i as int].0));
                return false;
            }
            i += 1;
        }
        assert forall|k: Seq<char>| #[trigger] self@.contains_key(k) implies other@.contains_key(
            k,
        ) && other@[k] == self@[k] by {
            lemma_map_of_witness(self.entries(), k);
            let j = choose|j: int| 0 <= j < self.entries().len() && (#[trigger] self.entries()[j]).0
                == k;
            lemma_map_of_present(self.entries(), j);
        }
        true
    }
}

/// Appends one entry to `out`, behind `@` for the first and `;` for any other.
fn write_entry(out: &mut String, first: bool, key: &str, value: &str)
    ensures
        final(out)@ == old(out)@ + seq![
            if first {
                '@'
            } else {
                ';'
            },
        ] + entry_text((key@, value@)),
{
    let ghost start = out@;
    let mark: char = if first {
        '@'
    } else {
        ';'
    };
    out.push(mark);
    out.append(key);
    out.push('=');
    match escape_tag(value) {
        Cow::Borrowed(text) => out.append(text),
        Cow::Owned(text) => out.append(text.as_str()),
    }
    assert(out@ =~= start + seq![mark] + entry_text((key@, value@)));
}

proof fn lemma_domain_size(entries: Seq<(Seq<char>, Seq<char>)>)
    requires
        distinct_keys(entries),
    ensures
        map_of(entries).dom().finite(),
        map_of(entries).dom().len() == entries.len(),
    decreases entries.len(),
{
    if entries.len() > 0 {
        lemma_distinct_drop_last(entries);
        lemma_domain_size(entries.drop_last());
        assert forall|i: int| 0 <= i < entries.drop_last().len() implies (
        #[trigger] entries.drop_last()[i]).0 != entries.last().0 by {
            assert(entries.drop_last()[i] == entries[i]);
            assert(entries.last() == entries[entries.len() - 1]);
        }
        lemma_map_of_absent(entries.drop_last(), entries.last().0);
        assert(map_of(entries).dom() =~= map_of(entries.drop_last()).dom().insert(
            entries.last().0,
        ));
    } else {
        assert(map_of(entries).dom() =~= Set::empty());
    }
}

impl<'a> View for Tags<'a> {
    type V = Map<Seq<char>, Seq<char>>;

    closed spec fn view(&self) -> Map<Seq<char>, Seq<char>> {
        map_of(self.entries())
    }
}

/// A copy of each of `entries`.
fn copy_entries<'a>(entries: &Vec<(Cow<'a, str>, Cow<'a, str>)>) -> (r: Vec<
    (Cow<'a, str>, Cow<'a, str>),
>)
    ensures
        listing(r@) == listing(entries@),
{
    let mut out: Vec<(Cow<'a, str>, Cow<'a, str>)> = Vec::new();
    let mut i: usize = 0;
    while i < entries.len()
        invariant
            i <= entries@.len(),
            out@.len() == i,
            listing(out@) == listing(entries@).take(i as int),
        decreases entries@.len() - i,
    {
        let ghost prev = out@;
        let key = copy_text(&entries[i].0);
        let value = copy_text(&entries[i].1);
        out.push((key, value));
        proof {
            let want = listing(entries@).take(i + 1);
            assert forall|j: int| 0 <= j < out@.len() implies #[trigger] listing(out@)[j]
                == want[j] by {
                if j < i {
                    assert(out@[j] == prev[j]);
                    assert(listing(prev)[j] == listing(entries@).take(i as int)[j]);
                }
            }
            assert(listing(out@) =~= want);
        }
        i += 1;
    }
    assert(listing(entries@).take(i as int) =~= listing(entries@));
    out
}

impl<'a> Clone for Tags<'a> {
    fn clone(&self) -> (r: Tags<'a>)
        ensures
            r@ == self@,
    {
        proof {
            use_type_invariant(self);
        }
        Tags { inner: copy_entries(&self.inner) }
    }
}

impl<'a> Default for Tags<'a> {
    fn default() -> (r: Tags<'a>)
        ensures
            r@ == Map::<Seq<char>, Seq<char>>::empty(),
    {
        Tags::new()
    }
}

impl<'a> PartialEq for Tags<'a> {
    fn eq(&self, other: &Tags<'a>) -> (r: bool) {
        let r = self.within(other) && other.within(self);
        proof {
            if r {
                assert(self@ =~= other@);
            }
        }
        r
    }
}

impl<'a> vstd::std_specs::cmp::PartialEqSpecImpl for Tags<'a> {
    open spec fn obeys_eq_spec() -> bool {
        true
    }

    open spec fn eq_spec(&self, other: &Tags<'a>) -> bool {
        self@ == other@
    }
}

impl<'a> Eq for Tags<'a> {

}

impl<'a> Parse<'a> for Tags<'a> {
    type Output = Option<Tags<'a>>;

    open spec fn rest_of(input: Seq<char>) -> Seq<char> {
        tags_of(input).1
    }

    fn parse(input: &mut &'a str) -> (r: Option<Tags<'a>>)
        ensures
            r is Some <==> tags_of(old(input)@).0 is Some,
            r matches Some(tags) ==> tags_of(old(input)@).0 == Some(tags@),
    {
        Tags::read(input)
    }
}

/// A builder of tags, entry by entry.
#[derive(Debug)]
pub struct TagsBuilder {
    tags: Tags<'static>,
}

impl View for TagsBuilder {
    type V = Map<Seq<char>, Seq<char>>;

    closed spec fn view(&self) -> Map<Seq<char>, Seq<char>> {
        self.tags@
    }
}

impl Default for TagsBuilder {
    fn default() -> (r: TagsBuilder)
        ensures
            r@ == Map::<Seq<char>, Seq<char>>::empty(),
    {
        TagsBuilder { tags: Tags::new() }
    }
}

impl TagsBuilder {
    /// Maps the key `k` to what the escaped value `v` reads back as.
    pub fn add(self, k: &str, v: &str) -> (r: TagsBuilder)
        ensures
            r@ == self@.insert(k@, unescaped(v@)),
    {
        let key: Cow<'static, str> = Cow::Owned(String::from_str(k));
        let value = lift_text(unescape_tag(v));
        TagsBuilder { tags: self.tags.insert(key, value) }
    }

    /// Whether the key is mapped to anything yet.
    pub fn has(&self, key: &str) -> (r: bool)
        ensures
            r == self@.contains_key(key@),
    {
        self.tags.lookup(key).is_some()
    }

    /// The tags that were built.
    pub fn finish(self) -> (r: Tags<'static>)
        ensures
            r@ == self@,
    {
        self.tags
    }
}

} // verus!
