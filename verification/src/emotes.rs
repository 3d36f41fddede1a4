//! The emotes of a message, and where they stand in its text.
use std::borrow::Cow;
use vstd::prelude::*;
use vstd::string::StrSliceExecFns;
use crate::tags::{tag_value, Tags};
use crate::text::{
    byte_len, byte_offset, char_index, chars_of, copy_text, cut_once, decimal, index_at,
    lemma_byte_len_grows, lemma_char_index, lift_text, offset_of, opt_str, parse_decimal, split,
    split_once, str_cut, str_cut_once, strs,
};

verus! {

/// An emote attached to a message.
#[derive(Debug, PartialEq, PartialOrd, Eq, Ord, Hash)]
pub struct Emote<'a> {
    /// The `id` of the emote (`25` for `Kappa`).
    pub id: Cow<'a, str>,
    /// The text that the emote stands in place of (`Kappa`).
    pub name: Cow<'a, str>,
    /// Where that text stands in the message, in bytes: its start, and the end
    /// behind its last byte.
    pub byte_pos: (usize, usize),
}

/// What an emote holds, as plain text.
pub struct EmoteModel {
    pub id: Seq<char>,
    pub name: Seq<char>,
    pub byte_pos: (usize, usize),
}

impl<'a> View for Emote<'a> {
    type V = EmoteModel;

    open spec fn view(&self) -> EmoteModel {
        EmoteModel { id: self.id@, name: self.name@, byte_pos: self.byte_pos }
    }
}

impl<'a> Clone for Emote<'a> {
    fn clone(&self) -> (r: Emote<'a>)
        ensures
            r@ == self@,
    {
        Emote {
            id: copy_text(&self.id),
            name: copy_text(&self.name),
            byte_pos: (self.byte_pos.0, self.byte_pos.1),
        }
    }
}

/// The models of a sequence of emotes, in order.
pub open spec fn emote_models<'a>(emotes: Seq<Emote<'a>>) -> Seq<EmoteModel> {
    Seq::new(emotes.len(), |i: int| emotes[i]@)
}

/// The first and the last character that the range `entry`, written
/// `first-last`, counts among its own.
pub open spec fn range_of(entry: Seq<char>) -> Option<(nat, nat)> {
    match split_once(entry, '-') {
        Some((first, last)) => match (
            decimal(first, usize::MAX as nat),
            decimal(last, usize::MAX as nat),
        ) {
            (Some(start), Some(end)) => Some((start, end)),
            _ => None,
        },
        None => None,
    }
}

/// The emote `id` that stands at the characters `start` to `end` of `data`,
/// both counted in; none where the range does not lie within `data`.
pub open spec fn emote_at(id: Seq<char>, data: Seq<char>, start: nat, end: nat) -> Option<
    EmoteModel,
> {
    if start <= end && end < data.len() {
        Some(
            EmoteModel {
                id,
                name: data.subrange(start as int, end as int + 1),
                byte_pos: (
                    byte_offset(data, start as int) as usize,
                    byte_offset(data, end as int + 1) as usize,
                ),
            },
        )
    } else {
        None
    }
}

/// The emotes that the ranges of one id name. A range that is no range, or
/// does not lie within `data`, names none.
pub open spec fn emotes_in(id: Seq<char>, ranges: Seq<Seq<char>>, data: Seq<char>) -> Seq<
    EmoteModel,
>
    decreases ranges.len(),
{
    if ranges.len() == 0 {
        Seq::empty()
    } else {
        let before = emotes_in(id, ranges.drop_last(), data);
        match range_of(ranges.last()) {
            Some((start, end)) => match emote_at(id, data, start, end) {
                Some(emote) => before.push(emote),
                None => before,
            },
            None => before,
        }
    }
}

/// The emotes that the groups of an emote list name: a group is an id, `:` and
/// ranges separated by commas, and a group without `:` names none.
pub open spec fn emotes_of(groups: Seq<Seq<char>>, data: Seq<char>) -> Seq<EmoteModel>
    decreases groups.len(),
{
    if groups.len() == 0 {
        Seq::empty()
    } else {
        let before = emotes_of(groups.drop_last(), data);
        match split_once(groups.last(), ':') {
            Some((id, ranges)) => before + emotes_in(id, split(ranges, ','), data),
            None => before,
        }
    }
}

/// The emotes that an emote list, groups separated by `/`, names in `data`.
pub open spec fn emote_list(input: Seq<char>, data: Seq<char>) -> Seq<EmoteModel> {
    emotes_of(split(input, '/'), data)
}

/// The piece of `data` that stands at the bytes `from` up to `to`; none where
/// either offset falls within a character or beyond the end of `data`, or the
/// second stands before the first.
pub open spec fn piece_at(data: Seq<char>, from: nat, to: nat) -> Option<Seq<char>> {
    match (char_index(data, from), char_index(data, to)) {
        (Some(i), Some(j)) => if i <= j {
            Some(data.subrange(i, j))
        } else {
            None
        },
        _ => None,
    }
}

/// An emote stands where it says: the piece of the text at the `byte_pos` of
/// an emote that was found in it is the name of the emote. (The text is one
/// whose length in bytes a `usize` holds, as that of every `&str` is.)
pub proof fn lemma_emote_is_where_it_says(
    id: Seq<char>,
    data: Seq<char>,
    start: nat,
    end: nat,
    emote: EmoteModel,
)
    requires
        byte_len(data) <= usize::MAX,
        emote_at(id, data, start, end) == Some(emote),
    ensures
        piece_at(data, emote.byte_pos.0 as nat, emote.byte_pos.1 as nat) == Some(emote.name),
{
    assert(data.take(data.len() as int) =~= data);
    lemma_byte_len_grows(data, start as int, data.len() as int);
    lemma_byte_len_grows(data, end as int + 1, data.len() as int);
    lemma_char_index(data, byte_len(data.take(start as int)), start as int);
    lemma_char_index(data, byte_len(data.take(end as int + 1)), end as int + 1);
}

/// The emotes that the tag `emotes` names in `data`.
pub open spec fn tag_emotes(tags: Map<Seq<char>, Seq<char>>, data: Seq<char>) -> Seq<EmoteModel> {
    match tag_value(tags, "emotes"@) {
        Some(list) => emote_list(list, data),
        None => Seq::empty(),
    }
}

fn parse_range(entry: &str) -> (r: Option<(usize, usize)>)
    ensures
        r is Some <==> range_of(entry@) is Some,
        r matches Some((start, end)) ==> range_of(entry@) == Some((start as nat, end as nat)),
{
    let chars = chars_of(entry);
    match cut_once(chars.as_slice(), '-') {
        Some((first, last)) => {
            let start = parse_decimal(first, usize::MAX);
            let end = parse_decimal(last, usize::MAX);
            match (start, end) {
                (Some(start), Some(end)) => Some((start, end)),
                _ => None,
            }
        },
        None => None,
    }
}

fn emote_for<'a>(id: &'a str, data: &'a str, text: &[char], start: usize, end: usize) -> (r:
    Option<Emote<'a>>)
    requires
        text@ == data@,
    ensures
        r is Some <==> emote_at(id@, data@, start as nat, end as nat) is Some,
        r matches Some(emote) ==> emote_at(id@, data@, start as nat, end as nat) == Some(emote@),
{
    if start <= end && end < text.len() {
        let name = data.substring_char(start, end + 1);
        let from = offset_of(text, start);
        let to = offset_of(text, end + 1);
        Some(Emote { id: Cow::Borrowed(id), name: Cow::Borrowed(name), byte_pos: (from, to) })
    } else {
        None
    }
}

/// The emotes that the emote list `input` names in the text `data`, in the
/// order of the list. Positions in the list count characters; `byte_pos`
/// counts bytes. The ids are pieces of `input`, the names pieces of `data`.
pub fn parse_emotes<'a>(input: &'a str, data: &'a str) -> (r: Vec<Emote<'a>>)
    ensures
        emote_models(r@) == emote_list(input@, data@),
{
    let text = chars_of(data);
    let groups = str_cut(input, '/');
    let mut out: Vec<Emote<'a>> = Vec::new();
    let mut i: usize = 0;
    assert(strs(groups@).take(0) =~= Seq::empty());
    assert(emote_models(out@) =~= Seq::empty());
    while i < groups.len()
        invariant
            i <= groups.len(),
            text@ == data@,
            emote_models(out@) == emotes_of(strs(groups@).take(i as int), data@),
        decreases groups.len() - i,
    {
        let ghost upto = strs(groups@).take(i + 1);
        assert(upto.drop_last() =~= strs(groups@).take(i as int));
        assert(upto.last() == groups@[i as int]@);
        match str_cut_once(groups[i], ':') {
            Some((id, list)) => {
                let ranges = str_cut(list, ',');
                let ghost before = emote_models(out@);
                let mut j: usize = 0;
                assert(strs(ranges@).take(0) =~= Seq::empty());
                assert(before + Seq::<EmoteModel>::empty() =~= before);
                while j < ranges.len()
                    invariant
                        j <= ranges.len(),
                        text@ == data@,
                        emote_models(out@) == before + emotes_in(
                            id@,
                            strs(ranges@).take(j as int),
                            data@,
                        ),
                    decreases ranges.len() - j,
                {
                    let ghost seen = strs(ranges@).take(j + 1);
                    assert(seen.drop_last() =~= strs(ranges@).take(j as int));
                    assert(seen.last() == ranges@[j as int]@);
                    let ghost sofar = emote_models(out@);
                    let ghost inner = emotes_in(id@, strs(ranges@).take(j as int), data@);
                    match parse_range(ranges[j]) {
                        Some((start, end)) => match emote_for(
                            id,
                            data,
                            text.as_slice(),
                            start,
                            end,
                        ) {
                            Some(emote) => {
                                out.push(emote);
                                assert(emote_models(out@) =~= sofar.push(emote@));
                                assert(sofar.push(emote@) =~= before + inner.push(emote@));
                            },
                            None => {},
                        },
                        None => {},
                    }
                    j += 1;
                }
                assert(strs(ranges@).take(ranges.len() as int) =~= strs(ranges@));
            },
            None => {},
        }
        i += 1;
    }
    assert(strs(groups@).take(groups.len() as int) =~= strs(groups@));
    out
}

impl<'a> Emote<'a> {
    /// The emotes that the tag `emotes` names in the text `data`.
    pub fn from_tags<'t>(tags: &'t Tags<'a>, data: &'t str) -> (r: Vec<Emote<'t>>)
        ensures
            emote_models(r@) == tag_emotes(tags@, data@),
    {
        match tags.get("emotes") {
            Some(list) => parse_emotes(list, data),
            None => {
                let out: Vec<Emote<'t>> = Vec::new();
                assert(emote_models(out@) =~= Seq::empty());
                out
            },
        }
    }

    /// Both texts of this emote are texts of their own.
    pub open spec fn is_owned(&self) -> bool {
        self.id is Owned && self.name is Owned
    }

    /// The piece of `data` that stands at the `byte_pos` of this emote; none
    /// where `data` has no such piece.
    pub fn piece_of<'t>(&self, data: &'t str) -> (r: Option<&'t str>)
        ensures
            opt_str(r) == piece_at(data@, self.byte_pos.0 as nat, self.byte_pos.1 as nat),
    {
        let text = chars_of(data);
        let from = index_at(text.as_slice(), self.byte_pos.0);
        let to = index_at(text.as_slice(), self.byte_pos.1);
        match (from, to) {
            (Some(i), Some(j)) => if i <= j {
                Some(data.substring_char(i, j))
            } else {
                None
            },
            _ => None,
        }
    }

    /// This emote with text of its own, which no longer borrows from the
    /// input.
    pub fn lifted(self) -> (r: Emote<'static>)
        ensures
            r@ == self@,
            r.is_owned(),
    {
        Emote {
            id: lift_text(self.id),
            name: lift_text(self.name),
            byte_pos: (self.byte_pos.0, self.byte_pos.1),
        }
    }
}

} // verus!
