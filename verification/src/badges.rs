//! Chat badges, and the order in which they are shown.
use core::cmp::Ordering;
use std::borrow::Cow;
use vstd::prelude::*;
use vstd::std_specs::cmp::PartialOrdSpec;
use crate::tags::{tag_value, Tags};
use crate::text::{
    all_digits, as_str, chars_of, copy_text, digit_value, digits_value, find, find_char,
    is_all_digits, lemma_find_is_first, lift_text, split, split_once, str_cut, str_cut_once,
    str_eq, strs,
};

verus! {

/// A badge attached to a message.
#[derive(Debug, PartialEq, Eq, Hash)]
pub struct Badge<'a> {
    /// The name of the set that the badge belongs to.
    pub set_id: Cow<'a, str>,
    /// The version of the badge within its set, or other metadata.
    pub id: Cow<'a, str>,
}

/// Currently another name for [`Badge`].
pub type BadgeInfo<'a> = Badge<'a>;

/// What a badge holds, as plain text.
pub struct BadgeModel {
    pub set_id: Seq<char>,
    pub id: Seq<char>,
}

impl<'a> View for Badge<'a> {
    type V = BadgeModel;

    open spec fn view(&self) -> BadgeModel {
        BadgeModel { set_id: self.set_id@, id: self.id@ }
    }
}

impl<'a> Clone for Badge<'a> {
    fn clone(&self) -> (r: Badge<'a>)
        ensures
            r@ == self@,
    {
        Badge { set_id: copy_text(&self.set_id), id: copy_text(&self.id) }
    }
}

/// The models of a sequence of badges, in order.
pub open spec fn badge_models<'a>(badges: Seq<Badge<'a>>) -> Seq<BadgeModel> {
    Seq::new(badges.len(), |i: int| badges[i]@)
}

/// Where one thing stands relative to another in an order.
#[derive(Copy, Clone, Debug, PartialEq, Eq, Structural)]
pub enum Precedence {
    Before,
    Same,
    After,
}

/// The character that stands for a comma inside a badge's `id`.
pub open spec fn escaped_comma() -> char {
    '\u{2E1D}'
}

/// `s` with every escaped comma replaced by a comma.
pub open spec fn with_commas(s: Seq<char>) -> Seq<char> {
    Seq::new(
        s.len(),
        |i: int|
            if s[i] == escaped_comma() {
                ','
            } else {
                s[i]
            },
    )
}

/// The badges that the entries of a badge list name: an entry is a set name, a
/// `/` and an id, and an entry without `/` names none.
pub open spec fn badges_of(entries: Seq<Seq<char>>) -> Seq<BadgeModel>
    decreases entries.len(),
{
    if entries.len() == 0 {
        Seq::empty()
    } else {
        let before = badges_of(entries.drop_last());
        match split_once(entries.last(), '/') {
            Some((set_id, id)) => before.push(BadgeModel { set_id, id: with_commas(id) }),
            None => before,
        }
    }
}

/// The badges that a badge list, entries separated by commas, names.
pub open spec fn badge_list(input: Seq<char>) -> Seq<BadgeModel> {
    badges_of(split(input, ','))
}

/// The badges that the badge list in the tag `key` names.
pub open spec fn tag_badges(tags: Map<Seq<char>, Seq<char>>, key: Seq<char>) -> Seq<BadgeModel> {
    match tag_value(tags, key) {
        Some(list) => badge_list(list),
        None => Seq::empty(),
    }
}

/// Whether one of `badges` belongs to the set `set_id`.
pub open spec fn has_badge(badges: Seq<BadgeModel>, set_id: Seq<char>) -> bool {
    exists|i: int| 0 <= i < badges.len() && (#[trigger] badges[i]).set_id == set_id
}

/// The place of a set in the list of the sets that are shown first, 0 being the
/// very first; `None` for a set that is not in the list.
pub open spec fn rank(set_id: Seq<char>) -> Option<nat> {
    if set_id == "staff"@ {
        Some(0)
    } else if set_id == "admin"@ {
        Some(1)
    } else if set_id == "global-moderator"@ {
        Some(2)
    } else if set_id == "broadcaster"@ {
        Some(3)
    } else if set_id == "vip"@ {
        Some(4)
    } else if set_id == "moderator"@ {
        Some(5)
    } else if set_id == "partner"@ {
        Some(6)
    } else if set_id == "subscriber"@ {
        Some(7)
    } else if set_id == "artist"@ {
        Some(8)
    } else if set_id == "turbo"@ {
        Some(9)
    } else if set_id == "premium"@ {
        Some(10)
    } else if set_id == "bits-leader"@ {
        Some(11)
    } else if set_id == "bits"@ {
        Some(12)
    } else {
        None
    }
}

/// The order of two texts in the dictionary, character by character.
pub open spec fn text_precedence(a: Seq<char>, b: Seq<char>) -> Precedence
    decreases a.len(),
{
    if a.len() == 0 {
        if b.len() == 0 {
            Precedence::Same
        } else {
            Precedence::Before
        }
    } else if b.len() == 0 {
        Precedence::After
    } else if a[0] < b[0] {
        Precedence::Before
    } else if b[0] < a[0] {
        Precedence::After
    } else {
        text_precedence(a.skip(1), b.skip(1))
    }
}

/// The order of two ids: by the numbers they stand for where both are made of
/// digits only and the numbers differ, else as texts.
pub open spec fn id_precedence(a: Seq<char>, b: Seq<char>) -> Precedence {
    if all_digits(a) && all_digits(b) && digits_value(a) != digits_value(b) {
        if digits_value(a) < digits_value(b) {
            Precedence::Before
        } else {
            Precedence::After
        }
    } else {
        text_precedence(a, b)
    }
}

/// The order in which two badges are shown. Badges of one set go by their ids.
/// Of two sets, one that is in the list of [`rank`] goes before one that is not,
/// two that are in it go by their ranks, and two that are not go as texts.
pub open spec fn badge_precedence(a: BadgeModel, b: BadgeModel) -> Precedence {
    if a.set_id == b.set_id {
        id_precedence(a.id, b.id)
    } else {
        match (rank(a.set_id), rank(b.set_id)) {
            (Some(x), Some(y)) => if x < y {
                Precedence::Before
            } else {
                Precedence::After
            },
            (Some(_), None) => Precedence::Before,
            (None, Some(_)) => Precedence::After,
            (None, None) => text_precedence(a.set_id, b.set_id),
        }
    }
}

/// `s` with zeros put before it until it has `n` characters.
pub open spec fn padded(s: Seq<char>, n: nat) -> Seq<char> {
    Seq::new(
        n,
        |i: int|
            if i < n - s.len() {
                '0'
            } else {
                s[i - (n - s.len())]
            },
    )
}

proof fn lemma_padded_value(s: Seq<char>, n: nat)
    requires
        n >= s.len(),
    ensures
        digits_value(padded(s, n)) == digits_value(s),
    decreases n,
{
    if n == 0 {
        assert(padded(s, n) =~= s);
    } else if s.len() == 0 {
        assert(padded(s, n).drop_last() =~= padded(s, (n - 1) as nat));
        lemma_padded_value(s, (n - 1) as nat);
    } else {
        assert(padded(s, n).drop_last() =~= padded(s.drop_last(), (n - 1) as nat));
        assert(padded(s, n).last() == s.last());
        lemma_padded_value(s.drop_last(), (n - 1) as nat);
    }
}

proof fn lemma_first_difference(a: Seq<char>, b: Seq<char>, k: int)
    requires
        a.len() == b.len(),
        0 <= k < a.len(),
        a.take(k) == b.take(k),
        digit_value(a[k]) < digit_value(b[k]),
    ensures
        digits_value(a) < digits_value(b),
    decreases a.len(),
{
    let a1 = a.drop_last();
    let b1 = b.drop_last();
    if k == a.len() - 1 {
        assert(a1 =~= a.take(k));
        assert(b1 =~= b.take(k));
    } else {
        assert(a1.take(k) =~= a.take(k));
        assert(b1.take(k) =~= b.take(k));
        assert(a1[k] == a[k]);
        assert(b1[k] == b[k]);
        lemma_first_difference(a1, b1, k);
        assert(digit_value(a.last()) <= 9);
    }
}

/// Two texts are the same in the dictionary order exactly when they are equal.
pub proof fn lemma_text_same(a: Seq<char>, b: Seq<char>)
    ensures
        text_precedence(a, b) == Precedence::Same <==> a == b,
    decreases a.len(),
{
    if a.len() == 0 {
        if b.len() == 0 {
            assert(a =~= b);
        }
    } else if b.len() == 0 {
    } else if a[0] == b[0] {
        lemma_text_same(a.skip(1), b.skip(1));
        if a.skip(1) == b.skip(1) {
            assert(a =~= seq![a[0]] + a.skip(1));
            assert(b =~= seq![b[0]] + b.skip(1));
        }
    }
}

/// The dictionary order read backwards is its mirror image.
pub proof fn lemma_text_mirror(a: Seq<char>, b: Seq<char>)
    ensures
        text_precedence(a, b) == Precedence::Before <==> text_precedence(b, a)
            == Precedence::After,
        text_precedence(a, b) == Precedence::After <==> text_precedence(b, a)
            == Precedence::Before,
    decreases a.len(),
{
    if a.len() > 0 && b.len() > 0 && a[0] == b[0] {
        lemma_text_mirror(a.skip(1), b.skip(1));
    }
}

/// The dictionary order is transitive.
pub proof fn lemma_text_transitive(a: Seq<char>, b: Seq<char>, c: Seq<char>)
    requires
        text_precedence(a, b) == Precedence::Before,
        text_precedence(b, c) == Precedence::Before,
    ensures
        text_precedence(a, c) == Precedence::Before,
    decreases a.len(),
{
    if a.len() > 0 && b.len() > 0 && c.len() > 0 && a[0] == b[0] && b[0] == c[0] {
        lemma_text_transitive(a.skip(1), b.skip(1), c.skip(1));
    }
}

/// Among ids that are made of digits only, the order of ids is transitive.
pub proof fn lemma_id_order_transitive(a: Seq<char>, b: Seq<char>, c: Seq<char>)
    requires
        all_digits(a),
        all_digits(b),
        all_digits(c),
        id_precedence(a, b) == Precedence::Before,
        id_precedence(b, c) == Precedence::Before,
    ensures
        id_precedence(a, c) == Precedence::Before,
{
    if digits_value(a) == digits_value(b) && digits_value(b) == digits_value(c) {
        lemma_text_transitive(a, b, c);
    }
}

/// Among badges whose ids are made of digits only, the order of badges is
/// transitive: it is a strict total order on them.
pub proof fn lemma_badge_order_transitive(a: BadgeModel, b: BadgeModel, c: BadgeModel)
    requires
        all_digits(a.id),
        all_digits(b.id),
        all_digits(c.id),
        badge_precedence(a, b) == Precedence::Before,
        badge_precedence(b, c) == Precedence::Before,
    ensures
        badge_precedence(a, c) == Precedence::Before,
{
    if a.set_id == b.set_id && b.set_id == c.set_id {
        lemma_id_order_transitive(a.id, b.id, c.id);
    } else if a.set_id != b.set_id && b.set_id != c.set_id {
        lemma_text_mirror(a.set_id, b.set_id);
        if rank(a.set_id) is None && rank(b.set_id) is None && rank(c.set_id) is None {
            lemma_text_transitive(a.set_id, b.set_id, c.set_id);
            lemma_text_same(a.set_id, c.set_id);
        }
    }
}

/// Of two badges exactly one holds: the first is shown before the second, they
/// are the same badge, or the first is shown after the second; and read the
/// other way round the answer is the mirror image.
pub proof fn lemma_badge_order_total(a: BadgeModel, b: BadgeModel)
    ensures
        badge_precedence(a, b) == Precedence::Same <==> a == b,
        badge_precedence(a, b) == Precedence::Before <==> badge_precedence(b, a)
            == Precedence::After,
        badge_precedence(a, b) == Precedence::After <==> badge_precedence(b, a)
            == Precedence::Before,
{
    lemma_text_same(a.id, b.id);
    lemma_text_mirror(a.id, b.id);
    lemma_text_same(a.set_id, b.set_id);
    lemma_text_mirror(a.set_id, b.set_id);
}

/// The order of the texts `a` and `b` in the dictionary.
pub fn compare_texts(a: &[char], b: &[char]) -> (r: Precedence)
    ensures
        r == text_precedence(a@, b@),
{
    let mut i: usize = 0;
    assert(a@.skip(0) == a@);
    assert(b@.skip(0) == b@);
    while i < a.len() && i < b.len()
        invariant
            i <= a.len(),
            i <= b.len(),
            text_precedence(a@.skip(i as int), b@.skip(i as int)) == text_precedence(a@, b@),
        decreases a.len() - i,
    {
        if a[i] < b[i] {
            return Precedence::Before;
        }
        if b[i] < a[i] {
            return Precedence::After;
        }
        assert(a@.skip(i as int).skip(1) == a@.skip(i + 1));
        assert(b@.skip(i as int).skip(1) == b@.skip(i + 1));
        i += 1;
    }
    if i < b.len() {
        Precedence::Before
    } else if i < a.len() {
        Precedence::After
    } else {
        Precedence::Same
    }
}

/// The order of the numbers that the digits `a` and `b` stand for, however many
/// digits there are.
pub(crate) fn compare_numbers(a: &[char], b: &[char]) -> (r: Precedence)
    requires
        all_digits(a@),
        all_digits(b@),
    ensures
        r == Precedence::Same <==> digits_value(a@) == digits_value(b@),
        r == Precedence::Before <==> digits_value(a@) < digits_value(b@),
        r == Precedence::After <==> digits_value(a@) > digits_value(b@),
{
    let n: usize = if a.len() > b.len() {
        a.len()
    } else {
        b.len()
    };
    let pa: usize = n - a.len();
    let pb: usize = n - b.len();
    let ghost wide_a = padded(a@, n as nat);
    let ghost wide_b = padded(b@, n as nat);
    proof {
        lemma_padded_value(a@, n as nat);
        lemma_padded_value(b@, n as nat);
    }
    let mut k: usize = 0;
    assert(wide_a.take(0) =~= wide_b.take(0));
    while k < n
        invariant
            k <= n,
            n >= a.len(),
            n >= b.len(),
            pa == n - a.len(),
            pb == n - b.len(),
            wide_a == padded(a@, n as nat),
            wide_b == padded(b@, n as nat),
            wide_a.take(k as int) == wide_b.take(k as int),
            all_digits(a@),
            all_digits(b@),
            digits_value(wide_a) == digits_value(a@),
            digits_value(wide_b) == digits_value(b@),
        decreases n - k,
    {
        let ca: char = if k < pa {
            '0'
        } else {
            a[k - pa]
        };
        let cb: char = if k < pb {
            '0'
        } else {
            b[k - pb]
        };
        assert(ca == wide_a[k as int]);
        assert(cb == wide_b[k as int]);
        if ca < cb {
            proof {
                lemma_first_difference(wide_a, wide_b, k as int);
            }
            return Precedence::Before;
        }
        if cb < ca {
            proof {
                lemma_first_difference(wide_b, wide_a, k as int);
            }
            return Precedence::After;
        }
        assert(wide_a.take(k + 1) =~= wide_a.take(k as int).push(ca));
        assert(wide_b.take(k + 1) =~= wide_b.take(k as int).push(cb));
        k += 1;
    }
    assert(wide_a.take(n as int) =~= wide_a);
    assert(wide_b.take(n as int) =~= wide_b);
    Precedence::Same
}

/// The order of two badge ids.
pub fn compare_ids(a: &str, b: &str) -> (r: Precedence)
    ensures
        r == id_precedence(a@, b@),
{
    let left = chars_of(a);
    let right = chars_of(b);
    if is_all_digits(left.as_slice()) && is_all_digits(right.as_slice()) {
        match compare_numbers(left.as_slice(), right.as_slice()) {
            Precedence::Before => Precedence::Before,
            Precedence::After => Precedence::After,
            Precedence::Same => compare_texts(left.as_slice(), right.as_slice()),
        }
    } else {
        compare_texts(left.as_slice(), right.as_slice())
    }
}

/// The place of a set in the list of the sets that are shown first.
pub fn rank_of(set_id: &str) -> (r: Option<usize>)
    ensures
        r is Some <==> rank(set_id@) is Some,
        r matches Some(n) ==> rank(set_id@) == Some(n as nat),
{
    if str_eq(set_id, "staff") {
        Some(0)
    } else if str_eq(set_id, "admin") {
        Some(1)
    } else if str_eq(set_id, "global-moderator") {
        Some(2)
    } else if str_eq(set_id, "broadcaster") {
        Some(3)
    } else if str_eq(set_id, "vip") {
        Some(4)
    } else if str_eq(set_id, "moderator") {
        Some(5)
    } else if str_eq(set_id, "partner") {
        Some(6)
    } else if str_eq(set_id, "subscriber") {
        Some(7)
    } else if str_eq(set_id, "artist") {
        Some(8)
    } else if str_eq(set_id, "turbo") {
        Some(9)
    } else if str_eq(set_id, "premium") {
        Some(10)
    } else if str_eq(set_id, "bits-leader") {
        Some(11)
    } else if str_eq(set_id, "bits") {
        Some(12)
    } else {
        None
    }
}

/// The `Ordering` that says the same as `p`.
pub open spec fn ordering_of(p: Precedence) -> Ordering {
    match p {
        Precedence::Before => Ordering::Less,
        Precedence::Same => Ordering::Equal,
        Precedence::After => Ordering::Greater,
    }
}

impl<'a> Badge<'a> {
    /// Replaces every escaped comma of an id by a comma. An id without one is
    /// handed back as it came, without a copy.
    pub fn unescape(id: &'a str) -> (r: Cow<'a, str>)
        ensures
            r@ == with_commas(id@),
            find(id@, escaped_comma()) is None ==> r == Cow::<'a, str>::Borrowed(id),
    {
        let chars = chars_of(id);
        let s = chars.as_slice();
        if find_char(s, '\u{2E1D}').is_none() {
            proof {
                lemma_find_is_first(id@, escaped_comma());
                assert(with_commas(id@) =~= id@);
            }
            return Cow::Borrowed(id);
        }
        let mut out = String::new();
        let mut i: usize = 0;
        while i < s.len()
            invariant
                i <= s.len(),
                s@ == id@,
                out@ == with_commas(id@).take(i as int),
            decreases s.len() - i,
        {
            let c: char = if s[i] == '\u{2E1D}' {
                ','
            } else {
                s[i]
            };
            out.push(c);
            i += 1;
            assert(with_commas(id@).take(i as int) =~= with_commas(id@).take(i - 1).push(c));
        }
        assert(with_commas(id@).take(s.len() as int) =~= with_commas(id@));
        Cow::Owned(out)
    }

    /// Both texts of this badge are texts of their own.
    pub open spec fn is_owned(&self) -> bool {
        self.set_id is Owned && self.id is Owned
    }

    /// This badge with text of its own, which no longer borrows from the
    /// input.
    pub fn lifted(self) -> (r: Badge<'static>)
        ensures
            r@ == self@,
            r.is_owned(),
    {
        Badge { set_id: lift_text(self.set_id), id: lift_text(self.id) }
    }

    /// The badges that the tag `badges` names.
    pub fn from_tags<'t>(tags: &'t Tags<'a>) -> (r: Vec<Badge<'t>>)
        ensures
            badge_models(r@) == tag_badges(tags@, "badges"@),
    {
        Badge::from_tag(tags, "badges")
    }

    /// The badges that the badge list in the tag `key` names.
    pub fn from_tag<'t>(tags: &'t Tags<'a>, key: &str) -> (r: Vec<Badge<'t>>)
        ensures
            badge_models(r@) == tag_badges(tags@, key@),
    {
        match tags.get(key) {
            Some(list) => parse_badges(list),
            None => {
                let out: Vec<Badge<'t>> = Vec::new();
                assert(badge_models(out@) =~= Seq::empty());
                out
            },
        }
    }

    /// Whether one of `badges` belongs to the set `set_id`.
    pub fn any_of_set(badges: &Vec<Badge<'a>>, set_id: &str) -> (r: bool)
        ensures
            r == has_badge(badge_models(badges@), set_id@),
    {
        let mut i: usize = 0;
        while i < badges.len()
            invariant
                i <= badges.len(),
                forall|j: int| 0 <= j < i ==> (#[trigger] badge_models(badges@)[j]).set_id != set_id@,
            decreases badges.len() - i,
        {
            if str_eq(as_str(&badges[i].set_id), set_id) {
                assert(badge_models(badges@)[i as int].set_id == set_id@);
                return true;
            }
            i += 1;
        }
        false
    }

    /// Where this badge is shown relative to `other`.
    pub fn precedence(&self, other: &Badge<'a>) -> (r: Precedence)
        ensures
            r == badge_precedence(self@, other@),
    {
        if str_eq(as_str(&self.set_id), as_str(&other.set_id)) {
            compare_ids(as_str(&self.id), as_str(&other.id))
        } else {
            match (rank_of(as_str(&self.set_id)), rank_of(as_str(&other.set_id))) {
                (Some(x), Some(y)) => if x < y {
                    Precedence::Before
                } else {
                    Precedence::After
                },
                (Some(_), None) => Precedence::Before,
                (None, Some(_)) => Precedence::After,
                (None, None) => {
                    let left = chars_of(as_str(&self.set_id));
                    let right = chars_of(as_str(&other.set_id));
                    compare_texts(left.as_slice(), right.as_slice())
                },
            }
        }
    }

    /// The order of this badge and `other`: `Less` where this one is shown
    /// first.
    pub fn cmp(&self, other: &Badge<'a>) -> (r: Ordering)
        ensures
            r == ordering_of(badge_precedence(self@, other@)),
    {
        match self.precedence(other) {
            Precedence::Before => Ordering::Less,
            Precedence::Same => Ordering::Equal,
            Precedence::After => Ordering::Greater,
        }
    }
}

impl<'a> PartialOrd for Badge<'a> {
    fn partial_cmp(&self, other: &Badge<'a>) -> (r: Option<Ordering>) {
        Some(self.cmp(other))
    }
}

impl<'a> vstd::std_specs::cmp::PartialOrdSpecImpl for Badge<'a> {
    open spec fn obeys_partial_cmp_spec() -> bool {
        true
    }

    open spec fn partial_cmp_spec(&self, other: &Badge<'a>) -> Option<Ordering> {
        Some(ordering_of(badge_precedence(self@, other@)))
    }
}

/// What `partial_cmp` gives for two badges is never `None`, and is what `cmp`
/// gives for them.
pub proof fn lemma_partial_cmp_is_cmp<'a>(a: Badge<'a>, b: Badge<'a>)
    ensures
        a.partial_cmp_spec(&b) == Some(ordering_of(badge_precedence(a@, b@))),
{
}

/// The badges that a badge list names, in the order of the list. Their text
/// is that of the list itself, but for an id in which a comma was escaped.
pub fn parse_badges<'a>(input: &'a str) -> (r: Vec<Badge<'a>>)
    ensures
        badge_models(r@) == badge_list(input@),
{
    let entries = str_cut(input, ',');
    let mut out: Vec<Badge<'a>> = Vec::new();
    let mut i: usize = 0;
    assert(badge_models(out@) =~= badges_of(strs(entries@).take(0)));
    while i < entries.len()
        invariant
            i <= entries.len(),
            badge_models(out@) == badges_of(strs(entries@).take(i as int)),
        decreases entries.len() - i,
    {
        let ghost upto = strs(entries@).take(i + 1);
        assert(upto.drop_last() =~= strs(entries@).take(i as int));
        assert(upto.last() == entries@[i as int]@);
        match str_cut_once(entries[i], '/') {
            Some((set_id, id)) => {
                let ghost before = badge_models(out@);
                let badge = Badge { set_id: Cow::Borrowed(set_id), id: Badge::unescape(id) };
                out.push(badge);
                assert(badge_models(out@) =~= before.push(badge@));
            },
            None => {},
        }
        i += 1;
    }
    assert(strs(entries@).take(entries.len() as int) =~= strs(entries@));
    out
}

} // verus!
