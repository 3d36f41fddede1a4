//! The colour of a user's name.
use vstd::prelude::*;
use vstd::slice::slice_subrange;
use crate::text::{byte_len, chars_of, offset_of, utf8_len};

verus! {

/// A colour, as its red, green and blue parts.
#[derive(Debug, Copy, Clone, PartialEq, Eq, PartialOrd, Ord, Hash)]
pub struct Color(
    /// Red
    pub u8,
    /// Green
    pub u8,
    /// Blue
    pub u8,
);

/// A hexadecimal digit, in either case.
pub open spec fn is_hex(c: char) -> bool {
    ('0' <= c && c <= '9') || ('a' <= c && c <= 'f') || ('A' <= c && c <= 'F')
}

/// Every character of `s` is a hexadecimal digit.
pub open spec fn all_hex(s: Seq<char>) -> bool {
    forall|i: int| 0 <= i < s.len() ==> is_hex(#[trigger] s[i])
}

/// The number that a hexadecimal digit stands for; 0 for any other character.
pub open spec fn hex_value(c: char) -> nat {
    if '0' <= c && c <= '9' {
        (c as u32 - '0' as u32) as nat
    } else if 'a' <= c && c <= 'f' {
        (c as u32 - 'a' as u32 + 10) as nat
    } else if 'A' <= c && c <= 'F' {
        (c as u32 - 'A' as u32 + 10) as nat
    } else {
        0
    }
}

/// The number that a text of hexadecimal digits stands for.
pub open spec fn hex_number(s: Seq<char>) -> nat
    decreases s.len(),
{
    if s.len() == 0 {
        0
    } else {
        hex_number(s.drop_last()) * 16 + hex_value(s.last())
    }
}

/// The number below 2^32 that `s` is the hexadecimal notation of: an optional
/// `+`, then one or more digits and nothing else.
pub open spec fn hexadecimal(s: Seq<char>) -> Option<nat> {
    let digits = if s.len() > 0 && s[0] == '+' {
        s.skip(1)
    } else {
        s
    };
    if digits.len() > 0 && all_hex(digits) && hex_number(digits) <= u32::MAX {
        Some(hex_number(digits))
    } else {
        None
    }
}

/// The colour that the notation `s` of a number stands for: two hexadecimal
/// digits for each of red, green and blue.
pub open spec fn color_from(s: Seq<char>) -> Result<Color, Seq<char>> {
    match hexadecimal(s) {
        Some(n) => Ok(
            Color(((n / 65536) % 256) as u8, ((n / 256) % 256) as u8, (n % 256) as u8),
        ),
        None => Err("invalid hex digit"@),
    }
}

/// The colour that `s` names: six bytes of notation, or seven of which the
/// first, whatever it is, is passed over.
pub open spec fn color_of(s: Seq<char>) -> Result<Color, Seq<char>> {
    if byte_len(s) == 7 {
        if utf8_len(s[0]) == 1 {
            color_from(s.skip(1))
        } else {
            Err("invalid hex format"@)
        }
    } else if byte_len(s) == 6 {
        color_from(s)
    } else {
        Err("invalid hex format"@)
    }
}

/// The digit that stands for `d`, a number below 16, in upper case.
pub open spec fn hex_digit(d: int) -> char {
    if d == 0 {
        '0'
    } else if d == 1 {
        '1'
    } else if d == 2 {
        '2'
    } else if d == 3 {
        '3'
    } else if d == 4 {
        '4'
    } else if d == 5 {
        '5'
    } else if d == 6 {
        '6'
    } else if d == 7 {
        '7'
    } else if d == 8 {
        '8'
    } else if d == 9 {
        '9'
    } else if d == 10 {
        'A'
    } else if d == 11 {
        'B'
    } else if d == 12 {
        'C'
    } else if d == 13 {
        'D'
    } else if d == 14 {
        'E'
    } else {
        'F'
    }
}

/// The two digits that stand for one part of a colour.
pub open spec fn hex_pair(x: u8) -> Seq<char> {
    seq![hex_digit(x as int / 16), hex_digit(x as int % 16)]
}

/// A colour written as `#RRGGBB`.
pub open spec fn color_text(c: Color) -> Seq<char> {
    seq!['#'] + hex_pair(c.0) + hex_pair(c.1) + hex_pair(c.2)
}

proof fn lemma_hex_prefix(s: Seq<char>, n: int)
    requires
        0 <= n <= s.len(),
    ensures
        hex_number(s.take(n)) <= hex_number(s),
    decreases s.len(),
{
    if n == s.len() {
        assert(s.take(n) =~= s);
    } else {
        assert(s.drop_last().take(n) =~= s.take(n));
        lemma_hex_prefix(s.drop_last(), n);
    }
}

fn hex_of(c: char) -> (r: Option<u32>)
    ensures
        r is Some <==> is_hex(c),
        r matches Some(d) ==> d == hex_value(c) && d < 16,
{
    if '0' <= c && c <= '9' {
        Some(c as u32 - '0' as u32)
    } else if 'a' <= c && c <= 'f' {
        Some(c as u32 - 'a' as u32 + 10)
    } else if 'A' <= c && c <= 'F' {
        Some(c as u32 - 'A' as u32 + 10)
    } else {
        None
    }
}

fn digit_for(d: u8) -> (r: char)
    requires
        d < 16,
    ensures
        r == hex_digit(d as int),
{
    if d == 0 {
        '0'
    } else if d == 1 {
        '1'
    } else if d == 2 {
        '2'
    } else if d == 3 {
        '3'
    } else if d == 4 {
        '4'
    } else if d == 5 {
        '5'
    } else if d == 6 {
        '6'
    } else if d == 7 {
        '7'
    } else if d == 8 {
        '8'
    } else if d == 9 {
        '9'
    } else if d == 10 {
        'A'
    } else if d == 11 {
        'B'
    } else if d == 12 {
        'C'
    } else if d == 13 {
        'D'
    } else if d == 14 {
        'E'
    } else {
        'F'
    }
}

/// Reads `s` as the hexadecimal notation of a number below 2^32.
pub fn parse_hex(s: &[char]) -> (r: Option<u32>)
    ensures
        r is Some <==> hexadecimal(s@) is Some,
        r matches Some(n) ==> hexadecimal(s@) == Some(n as nat),
{
    let digits: &[char] = if s.len() > 0 && s[0] == '+' {
        slice_subrange(s, 1, s.len())
    } else {
        s
    };
    if digits.len() == 0 {
        return None;
    }
    let mut acc: u32 = 0;
    let mut i: usize = 0;
    while i < digits.len()
        invariant
            i <= digits.len(),
            acc == hex_number(digits@.take(i as int)),
            all_hex(digits@.take(i as int)),
            digits@.len() > 0,
            digits@ == if s@.len() > 0 && s@[0] == '+' {
                s@.skip(1)
            } else {
                s@
            },
        decreases digits.len() - i,
    {
        let c = digits[i];
        let d: u32 = match hex_of(c) {
            Some(d) => d,
            None => {
                assert(!is_hex(digits@[i as int]));
                return None;
            },
        };
        proof {
            let t = digits@.take(i + 1);
            assert(t.drop_last() =~= digits@.take(i as int));
            assert(t.last() == c);
            assert(hex_number(t) == acc * 16 + d);
            lemma_hex_prefix(digits@, i + 1);
        }
        if acc > 0x0FFF_FFFF {
            return None;
        }
        acc = acc * 16 + d;
        i += 1;
    }
    assert(digits@.take(digits.len() as int) =~= digits@);
    Some(acc)
}

impl Color {
    /// The red part.
    pub fn red(&self) -> (r: u8)
        ensures
            r == self.0,
    {
        self.0
    }

    /// The green part.
    pub fn green(&self) -> (r: u8)
        ensures
            r == self.1,
    {
        self.1
    }

    /// The blue part.
    pub fn blue(&self) -> (r: u8)
        ensures
            r == self.2,
    {
        self.2
    }

    fn from_digits(s: &[char]) -> (r: Result<Color, &'static str>)
        ensures
            r matches Ok(c) ==> color_from(s@) == Ok::<Color, Seq<char>>(c),
            r matches Err(e) ==> color_from(s@) == Err::<Color, Seq<char>>(e@),
    {
        match parse_hex(s) {
            Some(n) => Ok(
                Color(((n / 65536) % 256) as u8, ((n / 256) % 256) as u8, (n % 256) as u8),
            ),
            None => Err("invalid hex digit"),
        }
    }

    /// Reads a colour from its notation, `RRGGBB`, with one more character of
    /// any kind before it (`#RRGGBB`) or without.
    pub fn parse(input: &str) -> (r: Result<Color, &'static str>)
        ensures
            r matches Ok(c) ==> color_of(input@) == Ok::<Color, Seq<char>>(c),
            r matches Err(e) ==> color_of(input@) == Err::<Color, Seq<char>>(e@),
    {
        let chars = chars_of(input);
        let s = chars.as_slice();
        let n: usize = offset_of(s, s.len());
        assert(s@.take(s.len() as int) =~= s@);
        if n == 7 {
            if crate::text::len_utf8(s[0]) == 1 {
                Color::from_digits(slice_subrange(s, 1, s.len()))
            } else {
                Err("invalid hex format")
            }
        } else if n == 6 {
            Color::from_digits(s)
        } else {
            Err("invalid hex format")
        }
    }

    /// This colour written as `#RRGGBB`.
    pub fn to_string(&self) -> (r: String)
        ensures
            r@ == color_text(*self),
    {
        let mut out = String::new();
        out.push('#');
        out.push(digit_for(self.0 / 16));
        out.push(digit_for(self.0 % 16));
        out.push(digit_for(self.1 / 16));
        out.push(digit_for(self.1 % 16));
        out.push(digit_for(self.2 / 16));
        out.push(digit_for(self.2 % 16));
        assert(out@ =~= color_text(*self));
        out
    }
}

impl Default for Color {
    /// White.
    fn default() -> (r: Self)
        ensures
            r == Color(0xFF, 0xFF, 0xFF),
    {
        Color(0xFF, 0xFF, 0xFF)
    }
}

impl core::str::FromStr for Color {
    type Err = &'static str;

    fn from_str(input: &str) -> (r: Result<Color, &'static str>)
        ensures
            r matches Ok(c) ==> color_of(input@) == Ok::<Color, Seq<char>>(c),
            r matches Err(e) ==> color_of(input@) == Err::<Color, Seq<char>>(e@),
    {
        Color::parse(input)
    }
}

} // verus!
