//! Verified text utilities: string comparison, the whitespace test used
//! for ignorable text runs, and the decimal codec for numeric values.

use vstd::prelude::*;

verus! {

use vstd::utf8::{encode_utf8, encode_utf8_decode_utf8, is_ascii_chars_encode_utf8};
use crate::errors::Error;

/// Compares two strings by their character sequences.
pub fn str_eq(a: &str, b: &str) -> (r: bool)
    ensures
        r == (a@ == b@),
{
    let ab = a.as_bytes();
    let bb = b.as_bytes();
    proof {
        assert(ab@ == encode_utf8(a@));
        assert(bb@ == encode_utf8(b@));
    }
    if ab.len() != bb.len() {
        proof {
            assert(a@ != b@);
        }
        return false;
    }
    let n = ab.len();
    let mut i: usize = 0;
    while i < n
        invariant
            n == ab@.len(),
            n == bb@.len(),
            i <= n,
            ab@ == encode_utf8(a@),
            bb@ == encode_utf8(b@),
            forall|j: int| 0 <= j < i ==> ab@[j] == bb@[j],
        decreases n - i,
    {
        if ab[i] != bb[i] {
            proof {
                assert(encode_utf8(a@) != encode_utf8(b@));
            }
            return false;
        }
        i += 1;
    }
    proof {
        assert(ab@ =~= bb@);
        encode_utf8_decode_utf8(a@);
        encode_utf8_decode_utf8(b@);
    }
    true
}

/// The whitespace characters of XML: space, tab, line feed, carriage
/// return.
pub open spec fn is_space_char(c: char) -> bool {
    c == ' ' || c == '\t' || c == '\n' || c == '\r'
}

/// A character sequence consisting of whitespace only (possibly empty).
pub open spec fn is_blank(s: Seq<char>) -> bool {
    forall|i: int| 0 <= i < s.len() ==> is_space_char(#[trigger] s[i])
}

/// Decides whether `text` consists of XML whitespace only.
pub fn is_all_whitespace(text: &str) -> (r: bool)
    ensures
        r == is_blank(text@),
{
    if !text.is_ascii() {
        proof {
            let cs = text@;
            assert(!vstd::utf8::is_ascii_chars(cs));
            let i = choose|i: int| !(0 <= i < cs.len() ==> '\0' <= #[trigger] cs[i] <= '\u{7f}');
            assert(!is_space_char(cs[i]));
        }
        return false;
    }
    let bytes = text.as_bytes();
    proof {
        is_ascii_chars_encode_utf8(text@);
        assert(bytes@ == encode_utf8(text@));
    }
    let n = bytes.len();
    let mut i: usize = 0;
    while i < n
        invariant
            n == bytes@.len(),
            n == text@.len(),
            i <= n,
            vstd::utf8::is_ascii_chars(text@),
            forall|j: int| 0 <= j < text@.len() ==> #[trigger] (text@[j] as u8) == bytes@[j],
            forall|j: int| 0 <= j < i ==> is_space_char(#[trigger] text@[j]),
        decreases n - i,
    {
        let b = bytes[i];
        if !(b == 32 || b == 9 || b == 10 || b == 13) {
            proof {
                let c = text@[i as int];
                assert(c as u8 == b);
                assert(c <= '\u{7f}');
                assert(!is_space_char(c)) by {
                    if is_space_char(c) {
                        assert(c as u8 == 32 || c as u8 == 9 || c as u8 == 10 || c as u8 == 13);
                    }
                }
            }
            return false;
        }
        proof {
            let c = text@[i as int];
            assert(c as u8 == b);
            assert('\0' <= c <= '\u{7f}');
            assert((c as u32) < 128);
            assert(is_space_char(c)) by {
                vstd::utf8::char_u32_cast(c, c as u32);
                if b == 32 {
                    assert(c as u32 == 32);
                    assert((32u32 as char) == ' ');
                } else if b == 9 {
                    assert(c as u32 == 9);
                    assert((9u32 as char) == '\t');
                } else if b == 10 {
                    assert(c as u32 == 10);
                    assert((10u32 as char) == '\n');
                } else {
                    assert(c as u32 == 13);
                    assert((13u32 as char) == '\r');
                }
            }
        }
        i += 1;
    }
    true
}

/// A decimal digit.
pub open spec fn is_digit_char(c: char) -> bool {
    '0' <= c <= '9'
}

/// The numeric value of a decimal digit.
pub open spec fn digit_val(c: char) -> nat {
    (c as nat - '0' as nat) as nat
}

/// A non-empty run of decimal digits.
pub open spec fn is_digit_seq(s: Seq<char>) -> bool {
    s.len() > 0 && forall|i: int| 0 <= i < s.len() ==> is_digit_char(#[trigger] s[i])
}

/// The number denoted by a run of decimal digits, most significant first.
pub open spec fn digit_seq_val(s: Seq<char>) -> nat
    decreases s.len(),
{
    if s.len() == 0 {
        0
    } else {
        digit_seq_val(s.drop_last()) * 10 + digit_val(s.last())
    }
}

/// What parsing a decimal `u32` from text yields: an optional leading
/// `+`, then one or more digits, provided the value fits; anything else
/// is rejected.
pub open spec fn spec_parse_u32(s: Seq<char>) -> Option<u32> {
    let body = if s.len() > 0 && s[0] == '+' {
        s.drop_first()
    } else {
        s
    };
    if is_digit_seq(body) && digit_seq_val(body) <= u32::MAX {
        Some(digit_seq_val(body) as u32)
    } else {
        None
    }
}

/// A longer digit run denotes at least as much as any of its prefixes.
proof fn lemma_digit_seq_val_prefix(s: Seq<char>, i: int)
    requires
        0 <= i <= s.len(),
    ensures
        digit_seq_val(s.take(i)) <= digit_seq_val(s),
    decreases s.len() - i,
{
    if i < s.len() {
        lemma_digit_seq_val_prefix(s, i + 1);
        assert(s.take(i + 1).drop_last() =~= s.take(i));
        assert(s.take(i + 1).last() == s[i]);
        assert(digit_seq_val(s.take(i)) <= digit_seq_val(s.take(i + 1)));
    } else {
        assert(s.take(i) =~= s);
    }
}

/// Parses the digit run `s[from..]` into a `u32`, left to right.
fn parse_digits(bytes: &[u8], s: Ghost<Seq<char>>, from: usize) -> (r: Result<u32, Error>)
    requires
        bytes@.len() == s@.len(),
        forall|j: int| 0 <= j < s@.len() ==> #[trigger] (s@[j] as u8) == bytes@[j],
        vstd::utf8::is_ascii_chars(s@),
        from < s@.len() == bytes@.len(),
    ensures
        (match r {
            Ok(n) => is_digit_seq(s@.skip(from as int)) && digit_seq_val(s@.skip(from as int))
                == n as nat,
            Err(e) => e is InvalidValue && !(is_digit_seq(s@.skip(from as int)) && digit_seq_val(
                s@.skip(from as int),
            ) <= u32::MAX),
        }),
{
    let ghost body = s@.skip(from as int);
    let n = bytes.len();
    let mut acc: u32 = 0;
    let mut i: usize = from;
    while i < n
        invariant
            n == bytes@.len() == s@.len(),
            forall|j: int| 0 <= j < s@.len() ==> #[trigger] (s@[j] as u8) == bytes@[j],
            vstd::utf8::is_ascii_chars(s@),
            from <= i <= n,
            from < n,
            body == s@.skip(from as int),
            forall|j: int| from <= j < i ==> is_digit_char(#[trigger] s@[j]),
            acc as nat == digit_seq_val(s@.take(i as int).skip(from as int)),
        decreases n - i,
    {
        let b = bytes[i];
        let ghost c = s@[i as int];
        proof {
            assert(c as u8 == b);
            assert((c as u32) < 128);
        }
        if !(48 <= b && b <= 57) {
            proof {
                assert(!is_digit_char(c)) by {
                    if is_digit_char(c) {
                        assert('0' as u32 == 48 && '9' as u32 == 57);
                        assert(48 <= c as u32 <= 57);
                        assert(48 <= c as u8 <= 57);
                    }
                }
                assert(body[i - from] == s@[i as int]);
                assert(!is_digit_seq(body));
            }
            return Err(crate::errors::invalid_value("expected a decimal digit"));
        }
        let d: u32 = (b - 48) as u32;
        proof {
            assert('0' as u32 == 48);
            assert(48 <= (c as u32) < 128);
            assert(c as u32 == b as u32);
            assert(is_digit_char(c));
            assert(digit_val(c) == d as nat);
            assert(s@.take(i as int + 1).skip(from as int).drop_last() =~= s@.take(
                i as int,
            ).skip(from as int));
            assert(s@.take(i as int + 1).skip(from as int).last() == c);
        }
        if acc > (u32::MAX - d) / 10 {
            proof {
                let here = s@.take(i as int + 1).skip(from as int);
                assert(digit_seq_val(here) == acc as nat * 10 + d as nat);
                assert(digit_seq_val(here) > u32::MAX);
                lemma_digit_seq_val_prefix(body, i + 1 - from as int);
                assert(body.take(i + 1 - from as int) =~= here);
                assert(digit_seq_val(body) > u32::MAX);
            }
            return Err(crate::errors::invalid_value("number does not fit in 32 bits"));
        }
        acc = acc * 10 + d;
        i += 1;
    }
    proof {
        assert(s@.take(n as int).skip(from as int) =~= body);
        assert(is_digit_seq(body));
    }
    Ok(acc)
}

/// Parses a decimal `u32`: an optional leading `+`, then digits.
///
/// Returns `Ok` exactly on the inputs [`spec_parse_u32`] accepts, and
/// yields that value.
pub fn parse_u32(text: &str) -> (r: Result<u32, Error>)
    ensures
        (match r {
            Ok(n) => spec_parse_u32(text@) == Some(n),
            Err(e) => e is InvalidValue && spec_parse_u32(text@) is None,
        }),
{
    if !text.is_ascii() {
        proof {
            let cs = text@;
            let body = if cs.len() > 0 && cs[0] == '+' {
                cs.drop_first()
            } else {
                cs
            };
            if is_digit_seq(body) {
                assert forall|i: int| 0 <= i < cs.len() implies '\0' <= #[trigger] cs[i]
                    <= '\u{7f}' by {
                    if cs.len() > 0 && cs[0] == '+' {
                        if i > 0 {
                            assert(body[i - 1] == cs[i]);
                            assert(is_digit_char(cs[i]));
                        }
                    } else {
                        assert(is_digit_char(cs[i]));
                    }
                }
            }
        }
        return Err(crate::errors::invalid_value("expected a decimal number"));
    }
    let bytes = text.as_bytes();
    proof {
        is_ascii_chars_encode_utf8(text@);
        assert(bytes@ == encode_utf8(text@));
    }
    if bytes.len() == 0 {
        return Err(crate::errors::invalid_value("empty value"));
    }
    let from: usize = if bytes[0] == 43 {
        proof {
            let c = text@[0];
            assert(c as u8 == 43 && (c as u32) < 128);
            assert(c as u32 == 43);
            vstd::utf8::char_u32_cast(c, c as u32);
            assert((43u32 as char) == '+');
            assert(text@[0] == '+');
        }
        1
    } else {
        proof {
            let c = text@[0];
            assert(c as u8 == 43 ==> c as u32 == 43);
            assert(c != '+') by {
                if c == '+' {
                    assert(('+' as u32) == 43);
                    assert(c as u8 == 43);
                }
            }
            assert(text@.skip(0) =~= text@);
        }
        0
    };
    if from >= bytes.len() {
        proof {
            assert(text@.drop_first() =~= text@.skip(1));
            assert(!is_digit_seq(text@.drop_first()));
        }
        return Err(crate::errors::invalid_value("expected digits after the sign"));
    }
    proof {
        if from == 1 {
            assert(text@.drop_first() =~= text@.skip(1));
        }
    }
    parse_digits(bytes, Ghost(text@), from)
}

/// The decimal digit character for `d`.
pub open spec fn digit_char(d: nat) -> char {
    if d == 0 {
        '0'
    } else if d == 1 {
        '1'
    } else if d == 2 {
        '2'
    } else if d == 3 {
        '3'
    } else if d == 4 {
        '4'
    } else if d == 5 {
        '5'
    } else if d == 6 {
        '6'
    } else if d == 7 {
        '7'
    } else if d == 8 {
        '8'
    } else {
        '9'
    }
}

/// The canonical decimal rendering of `n`: no sign, no leading zeros.
pub open spec fn spec_format_u32(n: nat) -> Seq<char>
    decreases n,
{
    if n < 10 {
        seq![digit_char(n)]
    } else {
        spec_format_u32(n / 10).push(digit_char(n % 10))
    }
}

/// The literal for a single decimal digit.
fn digit_literal(d: u32) -> (s: &'static str)
    requires
        d < 10,
    ensures
        s@ =~= seq![digit_char(d as nat)],
{
    proof {
        reveal_strlit("0");
        reveal_strlit("1");
        reveal_strlit("2");
        reveal_strlit("3");
        reveal_strlit("4");
        reveal_strlit("5");
        reveal_strlit("6");
        reveal_strlit("7");
        reveal_strlit("8");
        reveal_strlit("9");
    }
    match d {
        0 => "0",
        1 => "1",
        2 => "2",
        3 => "3",
        4 => "4",
        5 => "5",
        6 => "6",
        7 => "7",
        8 => "8",
        _ => "9",
    }
}

/// Renders `n` in decimal, matching [`spec_format_u32`].
pub fn format_u32(n: u32) -> (s: String)
    ensures
        s@ == spec_format_u32(n as nat),
    decreases n,
{
    if n < 10 {
        digit_literal(n).to_owned()
    } else {
        let mut s = format_u32(n / 10);
        s.append(digit_literal(n % 10));
        proof {
            assert(spec_format_u32((n / 10) as nat).push(digit_char((n % 10) as nat))
                =~= spec_format_u32((n / 10) as nat) + seq![digit_char((n % 10) as nat)]);
        }
        s
    }
}

/// Formatting a number and parsing the text back yields the number: the
/// decimal codec inverts itself on every `u32`.
pub proof fn lemma_format_parse_u32(n: u32)
    ensures
        spec_parse_u32(spec_format_u32(n as nat)) == Some(n),
{
    lemma_format_digits(n as nat);
    let s = spec_format_u32(n as nat);
    assert(s[0] != '+') by {
        assert(is_digit_char(s[0]));
        if s[0] == '+' {
            assert(('+' as u32) == 43 && ('0' as u32) == 48);
        }
    }
}

/// A digit character denotes its digit.
proof fn lemma_digit_char_props(d: nat)
    requires
        d < 10,
    ensures
        is_digit_char(digit_char(d)),
        digit_val(digit_char(d)) == d,
{
    assert(('0' as nat) == 48 && ('1' as nat) == 49 && ('2' as nat) == 50 && ('3' as nat) == 51
        && ('4' as nat) == 52 && ('5' as nat) == 53 && ('6' as nat) == 54 && ('7' as nat) == 55
        && ('8' as nat) == 56 && ('9' as nat) == 57);
}

/// The rendering of `n` is a digit run denoting `n`.
proof fn lemma_format_digits(n: nat)
    ensures
        is_digit_seq(spec_format_u32(n)),
        digit_seq_val(spec_format_u32(n)) == n,
    decreases n,
{
    if n < 10 {
        lemma_digit_char_props(n);
        let s = spec_format_u32(n);
        assert(s == seq![digit_char(n)]);
        assert(s.len() == 1);
        assert(s.last() == digit_char(n));
        assert(s.drop_last() =~= Seq::<char>::empty());
        assert(digit_seq_val(s.drop_last()) == 0);
        assert(digit_seq_val(s) == 0 * 10 + digit_val(digit_char(n)));
    } else {
        lemma_format_digits(n / 10);
        let s = spec_format_u32(n);
        let p = spec_format_u32(n / 10);
        assert(s == p.push(digit_char(n % 10)));
        lemma_digit_char_props(n % 10);
        assert(forall|i: int| 0 <= i < s.len() ==> is_digit_char(#[trigger] s[i])) by {
            assert(forall|i: int| 0 <= i < p.len() ==> #[trigger] s[i] == p[i]);
            assert(s[s.len() - 1] == digit_char(n % 10));
        }
        assert(s.drop_last() =~= p);
        assert(digit_seq_val(s) == digit_seq_val(p) * 10 + digit_val(digit_char(n % 10)));
        assert(n / 10 * 10 + n % 10 == n) by {
            vstd::arithmetic::div_mod::lemma_fundamental_div_mod(n as int, 10);
        }
    }
}

/// What parsing a boolean from text yields: exactly the words `true`
/// and `false` are accepted.
pub open spec fn spec_parse_bool(s: Seq<char>) -> Option<bool> {
    if s == "true"@ {
        Option::Some(true)
    } else if s == "false"@ {
        Option::Some(false)
    } else {
        Option::None
    }
}

/// Parses a boolean: accepts exactly `true` and `false`.
pub fn parse_bool(text: &str) -> (r: Result<bool, Error>)
    ensures
        (match r {
            Ok(b) => spec_parse_bool(text@) == Some(b),
            Err(e) => e is InvalidValue && spec_parse_bool(text@) is None,
        }),
{
    if str_eq(text, "true") {
        Ok(true)
    } else if str_eq(text, "false") {
        proof {
            reveal_strlit("true");
            reveal_strlit("false");
            assert("true"@.len() == 4);
            assert("false"@.len() == 5);
        }
        Ok(false)
    } else {
        Err(crate::errors::invalid_value("expected \"true\" or \"false\""))
    }
}

/// Renders a boolean as the word the parser accepts.
pub fn format_bool(b: bool) -> (s: &'static str)
    ensures
        s@ == (if b {
            "true"@
        } else {
            "false"@
        }),
{
    if b {
        "true"
    } else {
        "false"
    }
}

/// Rendering a boolean and parsing the text back yields the boolean:
/// the boolean codec inverts itself on both values.
pub proof fn lemma_format_parse_bool(b: bool)
    ensures
        spec_parse_bool(if b { "true"@ } else { "false"@ }) == Some(b),
{
    reveal_strlit("true");
    reveal_strlit("false");
    assert("true"@.len() == 4);
    assert("false"@.len() == 5);
}

/// A type with a canonical textual form: the contract every field
/// type of the default codec carries.  `spec_parse` says what parsing
/// yields for each text; `spec_format` gives the canonical rendering.
pub trait Textual: Sized {
    /// What parsing yields, for every possible text.
    spec fn spec_parse(s: Seq<char>) -> Option<Self>;

    /// The canonical rendering of a value.
    spec fn spec_format(v: Self) -> Seq<char>;

    /// Parse a value out of text: `Ok` exactly where `spec_parse`
    /// accepts.
    fn parse_text(text: &str) -> (r: Result<Self, Error>)
        ensures
            (match r {
                Ok(v) => Self::spec_parse(text@) == Some(v),
                Err(e) => e is InvalidValue && Self::spec_parse(text@) is None,
            }),
    ;

    /// Render the value canonically.
    fn format_text(&self) -> (s: String)
        ensures
            s@ == Self::spec_format(*self),
    ;
}

impl Textual for u32 {
    open spec fn spec_parse(s: Seq<char>) -> Option<u32> {
        spec_parse_u32(s)
    }

    open spec fn spec_format(v: u32) -> Seq<char> {
        spec_format_u32(v as nat)
    }

    fn parse_text(text: &str) -> (r: Result<u32, Error>) {
        parse_u32(text)
    }

    fn format_text(&self) -> (s: String) {
        format_u32(*self)
    }
}

impl Textual for bool {
    open spec fn spec_parse(s: Seq<char>) -> Option<bool> {
        spec_parse_bool(s)
    }

    open spec fn spec_format(v: bool) -> Seq<char> {
        if v {
            "true"@
        } else {
            "false"@
        }
    }

    fn parse_text(text: &str) -> (r: Result<bool, Error>) {
        parse_bool(text)
    }

    fn format_text(&self) -> (s: String) {
        format_bool(*self).to_owned()
    }
}

} // verus!

