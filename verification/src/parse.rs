//! Parsing of whole lines.
use vstd::prelude::*;
use vstd::string::StrSliceExecFns;
use crate::error::{Error, ErrorModel};
use crate::message::{message_agrees, message_of, Message, MessageModel};
use crate::message_kind::kind_name;
use crate::text::{
    chars_of, find_pair, find_two, first_pair_at, lemma_find_pair_some, lemma_no_pair, str_eq,
};
use crate::typed_messages::TypedMessageMarker;

verus! {

/// Parsing that reads the beginning of a text and moves on to what follows
/// it.
pub trait Parse<'a>: Sized {
    /// What a parse gives.
    type Output;

    /// The part of `input` that a parse does not read.
    spec fn rest_of(input: Seq<char>) -> Seq<char>;

    /// Reads the beginning of `input`, and leaves in `input` what follows it.
    fn parse(input: &mut &'a str) -> (r: Self::Output)
        ensures
            final(input)@ == Self::rest_of(old(input)@),
    ;
}

/// A parsed message, and the text behind the line that held it.
#[derive(Debug, Clone)]
pub struct ParseResult<'a> {
    /// What follows the terminator of the line; empty where the line had
    /// none.
    pub remaining: &'a str,
    /// The parsed message.
    pub message: Message<'a>,
}

/// The first line of `input` and what follows its terminator. Without a
/// terminator, all of `input` is the line and nothing follows.
pub open spec fn line_of(input: Seq<char>) -> (Seq<char>, Seq<char>) {
    match find_pair(input, '\r', '\n') {
        Some(at) => (input.take(at), input.skip(at + 2)),
        None => (input, Seq::empty()),
    }
}

/// What parsing `input` gives: the text that follows the first line, and the
/// message that the line holds.
pub open spec fn parsed(input: Seq<char>) -> Result<(Seq<char>, MessageModel), ErrorModel> {
    match message_of(line_of(input).0) {
        Ok(message) => Ok((line_of(input).1, message)),
        Err(e) => Err(e),
    }
}

/// Nothing is left to parse: `input` is empty, or only a terminator.
pub open spec fn is_end(input: Seq<char>) -> bool {
    input.len() == 0 || input == seq!['\r', '\n'] || input == seq!['\n']
}

/// What parsing line after line of `input` gives, up to its end: for each
/// line its message, or the error that the line is. A line that is an error
/// is passed over like any other.
pub open spec fn messages_of(input: Seq<char>) -> Seq<Result<MessageModel, ErrorModel>>
    decreases input.len(),
{
    if is_end(input) {
        Seq::empty()
    } else {
        let rest = line_of(input).1;
        seq![message_of(line_of(input).0)] + if rest.len() < input.len() {
            messages_of(rest)
        } else {
            Seq::empty()
        }
    }
}

/// The models of parse results, in order.
pub open spec fn result_models<'a>(results: Seq<Result<Message<'a>, Error>>) -> Seq<
    Result<MessageModel, ErrorModel>,
> {
    Seq::new(
        results.len(),
        |i: int|
            match results[i] {
                Ok(message) => Ok(message@),
                Err(e) => Err(e@),
            },
    )
}

/// What narrowing the message of the first line of `input` to the view `T`
/// gives.
pub open spec fn parsed_as<'a, T: TypedMessageMarker<'a>>(input: Seq<char>) -> Result<
    T::V,
    ErrorModel,
> {
    match parsed(input) {
        Ok((_, message)) => if T::accepts(message.kind) && T::narrowed(message) is Some {
            Ok(T::narrowed(message)->0)
        } else {
            Err(
                ErrorModel::IncorrectMessageType {
                    expected: T::view_name(),
                    got: kind_name(message.kind),
                },
            )
        },
        Err(e) => Err(e),
    }
}

/// A message holds its line as it came: parsed from a line with a terminator
/// behind it, the message has that line for its `raw`, without the terminator,
/// and nothing remains.
pub proof fn lemma_raw_is_the_line(line: Seq<char>)
    requires
        find_pair(line, '\r', '\n') is None,
    ensures
        line_of(line + seq!['\r', '\n']) == (line, Seq::<char>::empty()),
        parsed(line + seq!['\r', '\n']) matches Ok((rest, message)) ==> message.raw == line
            && rest.len() == 0,
{
    let input = line + seq!['\r', '\n'];
    let at = line.len() as int;
    lemma_no_pair(line, '\r', '\n');
    assert forall|j: int| 0 <= j < at implies !(input[j] == '\r' && #[trigger] input[j + 1]
        == '\n') by {
        if j < at - 1 {
            assert(input[j] == line[j]);
            assert(input[j + 1] == line[j + 1]);
        }
    }
    assert(first_pair_at(input, '\r', '\n', at));
    lemma_find_pair_some(input, '\r', '\n', at);
    assert(input.take(at) =~= line);
    assert(input.skip(at + 2) =~= Seq::<char>::empty());
}

/// Whatever the input, a parsed message has the first line of the input for
/// its `raw`.
pub proof fn lemma_raw_is_first_line(input: Seq<char>)
    ensures
        parsed(input) matches Ok((rest, message)) ==> message.raw == line_of(input).0 && rest
            == line_of(input).1,
{
}

/// What follows the first line of a text that is not at its end is shorter
/// than the text.
pub proof fn lemma_rest_is_shorter(input: Seq<char>)
    requires
        input.len() > 0,
    ensures
        line_of(input).1.len() < input.len(),
{
    match find_pair(input, '\r', '\n') {
        Some(at) => {
            crate::text::lemma_find_pair_is_first(input, '\r', '\n');
        },
        None => {},
    }
}

/// Cuts `input` behind its first line: the line without its terminator, and
/// what follows the terminator, both as pieces of `input`.
fn cut_line<'a>(input: &'a str) -> (r: (&'a str, &'a str))
    ensures
        r.0@ == line_of(input@).0,
        r.1@ == line_of(input@).1,
{
    let chars = chars_of(input);
    match find_two(chars.as_slice(), '\r', '\n') {
        Some(at) => (input.substring_char(0, at), input.substring_char(at + 2, chars.len())),
        None => (input, input.substring_char(chars.len(), chars.len())),
    }
}

/// Parses one message: the first line of `input`. The message and the rest
/// are pieces of `input`.
pub fn parse<'a>(input: &'a str) -> (r: Result<ParseResult<'a>, Error>)
    ensures
        r matches Ok(p) ==> parsed(input@) == Ok::<(Seq<char>, MessageModel), ErrorModel>(
            (p.remaining@, p.message@),
        ),
        r matches Ok(p) ==> p.message.is_borrowed(),
        r matches Err(e) ==> parsed(input@) == Err::<(Seq<char>, MessageModel), ErrorModel>(e@),
{
    let (line, remaining) = cut_line(input);
    let mut cursor: &'a str = line;
    match Message::read(&mut cursor) {
        Ok(message) => Ok(ParseResult { remaining, message }),
        Err(e) => Err(e),
    }
}

/// The messages of a buffer, handed out one at a time: nothing is parsed
/// before it is asked for, and no line is looked at twice.
#[derive(Debug, Clone)]
pub struct ParseMany<'a> {
    rest: &'a str,
}

impl<'a> ParseMany<'a> {
    /// What has not been parsed yet.
    pub closed spec fn remaining(&self) -> Seq<char> {
        self.rest@
    }

    /// The messages of `input`, none of them parsed yet.
    pub fn new(input: &'a str) -> (r: ParseMany<'a>)
        ensures
            r.remaining() == input@,
    {
        ParseMany { rest: input }
    }

    /// What has not been parsed yet, as a piece of the buffer.
    pub fn rest(&self) -> (r: &'a str)
        ensures
            r@ == self.remaining(),
    {
        self.rest
    }

    /// Parses the next line, and moves on behind it whether it holds a
    /// message or is an error. `None` where nothing is left but at most a
    /// terminator.
    pub fn next(&mut self) -> (r: Option<Result<Message<'a>, Error>>)
        ensures
            r is None <==> is_end(old(self).remaining()),
            r is None ==> final(self).remaining() == old(self).remaining(),
            r matches Some(result) ==> message_agrees(
                result,
                message_of(line_of(old(self).remaining()).0),
            ) && final(self).remaining() == line_of(old(self).remaining()).1
                && final(self).remaining().len() < old(self).remaining().len(),
            r matches Some(Ok(message)) ==> message.is_borrowed(),
    {
        proof {
            reveal_strlit("\r\n");
            reveal_strlit("\n");
            assert("\r\n"@ =~= seq!['\r', '\n']);
            assert("\n"@ =~= seq!['\n']);
        }
        if self.rest.is_empty() || str_eq(self.rest, "\r\n") || str_eq(self.rest, "\n") {
            return None;
        }
        proof {
            lemma_rest_is_shorter(self.rest@);
        }
        let (line, rest) = cut_line(self.rest);
        self.rest = rest;
        let mut cursor: &'a str = line;
        Some(Message::read(&mut cursor))
    }
}

/// Parses the messages of `input`, line after line, until nothing is left but
/// at most a terminator. A line that is an error gives an error in its place,
/// and the lines behind it are parsed all the same.
pub fn parse_many<'a>(input: &'a str) -> (r: Vec<Result<Message<'a>, Error>>)
    ensures
        result_models(r@) == messages_of(input@),
{
    let mut lines = ParseMany::new(input);
    let mut out: Vec<Result<Message<'a>, Error>> = Vec::new();
    assert(result_models(out@) =~= Seq::empty());
    loop
        invariant_except_break
            result_models(out@) + messages_of(lines.remaining()) == messages_of(input@),
        ensures
            result_models(out@) == messages_of(input@),
        decreases lines.remaining().len(),
    {
        let ghost before = result_models(out@);
        let ghost rest = lines.remaining();
        match lines.next() {
            None => {
                assert(before + Seq::<Result<MessageModel, ErrorModel>>::empty() =~= before);
                break ;
            },
            Some(result) => {
                let ghost model = message_of(line_of(rest).0);
                out.push(result);
                assert(result_models(out@) =~= before.push(model));
                assert(before.push(model) + messages_of(lines.remaining()) =~= before + (seq![
                    model,
                ] + messages_of(lines.remaining())));
            },
        }
    }
    out
}

/// Parses the first line of `input` and narrows its message to the view `T`.
pub fn parse_as<'a, T: TypedMessageMarker<'a>>(input: &'a str) -> (r: Result<T, Error>)
    ensures
        r matches Ok(view) ==> parsed_as::<T>(input@) == Ok::<T::V, ErrorModel>(view@),
        r matches Ok(view) ==> view.is_borrowed(),
        r matches Err(e) ==> parsed_as::<T>(input@) == Err::<T::V, ErrorModel>(e@),
{
    let message = match parse(input) {
        Ok(p) => p.message,
        Err(e) => {
            return Err(e);
        },
    };
    if T::is_kind(&message.kind) {
        match T::from_ref(&message) {
            Ok(view) => {
                return Ok(view);
            },
            Err(_) => {},
        }
    }
    Err(Error::IncorrectMessageType { expected: T::kind(), got: message.kind.as_str() })
}

} // verus!
