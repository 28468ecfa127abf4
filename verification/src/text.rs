//! Text building blocks: decimal and hexadecimal numbers, joined lists and
//! normalised option values, each with the characters it produces.

use vstd::prelude::*;
use vstd::string::*;

verus! {

/// The character of one hexadecimal digit, in lower case.
pub open spec fn digit_char(d: int) -> char {
    if d == 0 { '0' } else if d == 1 { '1' } else if d == 2 { '2' } else if d == 3 { '3' }
    else if d == 4 { '4' } else if d == 5 { '5' } else if d == 6 { '6' } else if d == 7 { '7' }
    else if d == 8 { '8' } else if d == 9 { '9' } else if d == 10 { 'a' } else if d == 11 { 'b' }
    else if d == 12 { 'c' } else if d == 13 { 'd' } else if d == 14 { 'e' } else { 'f' }
}

/// The character of one hexadecimal digit, in upper case.
pub open spec fn upper_digit_char(d: int) -> char {
    if d == 10 { 'A' } else if d == 11 { 'B' } else if d == 12 { 'C' } else if d == 13 { 'D' }
    else if d == 14 { 'E' } else if d == 15 { 'F' } else { digit_char(d) }
}

/// A number in decimal, without leading zeros.
pub open spec fn decimal(n: nat) -> Seq<char>
    decreases n,
{
    if n < 10 {
        seq![digit_char(n as int)]
    } else {
        decimal(n / 10).push(digit_char((n % 10) as int))
    }
}

/// A signed number in decimal, with a minus sign where it is negative.
pub open spec fn signed_decimal(n: int) -> Seq<char> {
    if n < 0 { "-"@ + decimal((-n) as nat) } else { decimal(n as nat) }
}

/// A number in hexadecimal with upper case digits, without leading zeros.
pub open spec fn upper_hex(n: nat) -> Seq<char>
    decreases n,
{
    if n < 16 {
        seq![upper_digit_char(n as int)]
    } else {
        upper_hex(n / 16).push(upper_digit_char((n % 16) as int))
    }
}

/// A byte string in hexadecimal, two lower case digits for each byte.
pub open spec fn hex_bytes(bytes: Seq<u8>) -> Seq<char>
    decreases bytes.len(),
{
    if bytes.len() == 0 {
        Seq::empty()
    } else {
        hex_bytes(bytes.drop_last()) + seq![digit_char((bytes.last() / 16) as int)]
            + seq![digit_char((bytes.last() % 16) as int)]
    }
}

pub open spec fn bool_chars(b: bool) -> Seq<char> {
    if b { "true"@ } else { "false"@ }
}

/// The parts in order with the separator between neighbours.
pub open spec fn joined(parts: Seq<Seq<char>>, separator: Seq<char>) -> Seq<char>
    decreases parts.len(),
{
    if parts.len() == 0 {
        Seq::empty()
    } else if parts.len() == 1 {
        parts[0]
    } else {
        joined(parts.drop_last(), separator) + separator + parts.last()
    }
}

/// The characters of each string in a list.
pub open spec fn views(parts: Seq<String>) -> Seq<Seq<char>> {
    Seq::new(parts.len(), |i: int| parts[i]@)
}

/// `None`, or `Some(..)` around the given text.
pub open spec fn optional(value: Option<Seq<char>>) -> Seq<char> {
    match value {
        None => "None"@,
        Some(inner) => "Some("@ + inner + ")"@,
    }
}

pub open spec fn optional_decimal(value: Option<nat>) -> Seq<char> {
    match value {
        None => "None"@,
        Some(n) => "Some("@ + decimal(n) + ")"@,
    }
}

/// The characters with the Unicode property White_Space.
pub open spec fn is_white_space(c: char) -> bool {
    let n = c as u32;
    (9 <= n && n <= 13) || n == 0x20 || n == 0x85 || n == 0xa0 || n == 0x1680
        || (0x2000 <= n && n <= 0x200a) || n == 0x2028 || n == 0x2029 || n == 0x202f
        || n == 0x205f || n == 0x3000
}

pub open spec fn without_leading_space(s: Seq<char>) -> Seq<char>
    decreases s.len(),
{
    if s.len() > 0 && is_white_space(s[0]) { without_leading_space(s.drop_first()) } else { s }
}

pub open spec fn without_trailing_space(s: Seq<char>) -> Seq<char>
    decreases s.len(),
{
    if s.len() > 0 && is_white_space(s.last()) { without_trailing_space(s.drop_last()) } else { s }
}

pub open spec fn trimmed(s: Seq<char>) -> Seq<char> {
    without_trailing_space(without_leading_space(s))
}

pub open spec fn lower_char(c: char) -> char {
    if 'A' <= c && c <= 'Z' { ((c as u8) + 32u8) as u8 as char } else { c }
}

pub open spec fn lowered(s: Seq<char>) -> Seq<char> {
    Seq::new(s.len(), |i: int| lower_char(s[i]))
}

/// `str::trim`: the text without the characters of the Unicode property
/// White_Space at either end.
pub assume_specification[ str::trim ](s: &str) -> (r: &str)
    ensures
        r@ == trimmed(s@),
;

/// `str::to_ascii_lowercase`: the letters `A` to `Z` become `a` to `z`, every
/// other character stays.
pub assume_specification[ str::to_ascii_lowercase ](s: &str) -> (r: String)
    ensures
        r@ == lowered(s@),
;

/// What an option value means before it is matched: trimmed, in lower case, and
/// absent where nothing is left.
pub open spec fn normalized(value: Option<&str>) -> Option<Seq<char>> {
    match value {
        None => None,
        Some(s) => if trimmed(s@).len() == 0 { None } else { Some(lowered(trimmed(s@))) },
    }
}

pub fn normalize_option(value: Option<&str>) -> (r: Option<String>)
    ensures
        normalized(value) == (match r {
            None => None,
            Some(s) => Some(s@),
        }),
{
    match value {
        None => None,
        Some(s) => {
            let t = s.trim();
            if t.is_empty() {
                None
            } else {
                Some(t.to_ascii_lowercase())
            }
        },
    }
}

/// Whether two texts hold the same characters.
pub fn same_text(left: &str, right: &str) -> (r: bool)
    ensures
        r == (left@ == right@),
{
    let l = left.to_owned();
    let r = right.to_owned();
    l == r
}

fn digit_text(d: u8) -> (r: &'static str)
    requires
        d < 16,
    ensures
        r@ == seq![digit_char(d as int)],
{
    proof {
        reveal_strlit("0"); reveal_strlit("1"); reveal_strlit("2"); reveal_strlit("3");
        reveal_strlit("4"); reveal_strlit("5"); reveal_strlit("6"); reveal_strlit("7");
        reveal_strlit("8"); reveal_strlit("9"); reveal_strlit("a"); reveal_strlit("b");
        reveal_strlit("c"); reveal_strlit("d"); reveal_strlit("e"); reveal_strlit("f");
    }
    let r = match d {
        0 => "0", 1 => "1", 2 => "2", 3 => "3", 4 => "4", 5 => "5", 6 => "6", 7 => "7",
        8 => "8", 9 => "9", 10 => "a", 11 => "b", 12 => "c", 13 => "d", 14 => "e", _ => "f",
    };
    assert(r@ =~= seq![digit_char(d as int)]);
    r
}

fn upper_digit_text(d: u8) -> (r: &'static str)
    requires
        d < 16,
    ensures
        r@ == seq![upper_digit_char(d as int)],
{
    proof {
        reveal_strlit("A"); reveal_strlit("B"); reveal_strlit("C");
        reveal_strlit("D"); reveal_strlit("E"); reveal_strlit("F");
    }
    let r = match d {
        10 => "A", 11 => "B", 12 => "C", 13 => "D", 14 => "E", 15 => "F", _ => digit_text(d),
    };
    assert(r@ =~= seq![upper_digit_char(d as int)]);
    r
}

/// A number in decimal.
pub fn decimal_text(n: u64) -> (r: String)
    ensures
        r@ == decimal(n as nat),
    decreases n,
{
    if n < 10 {
        String::from_str(digit_text(n as u8))
    } else {
        let head = decimal_text(n / 10);
        let r = head.concat(digit_text((n % 10) as u8));
        assert(r@ =~= decimal((n / 10) as nat).push(digit_char((n % 10) as int)));
        r
    }
}

/// A number in decimal.
pub fn size_text(n: usize) -> (r: String)
    ensures
        r@ == decimal(n as nat),
{
    decimal_text(n as u64)
}

/// A signed number in decimal.
pub fn signed_text(n: i64) -> (r: String)
    ensures
        r@ == signed_decimal(n as int),
{
    if n < 0 {
        let magnitude: u64 = ((-(n + 1)) as u64) + 1;
        String::from_str("-").concat(decimal_text(magnitude).as_str())
    } else {
        decimal_text(n as u64)
    }
}

/// A number in hexadecimal with upper case digits.
pub fn upper_hex_text(n: u64) -> (r: String)
    ensures
        r@ == upper_hex(n as nat),
    decreases n,
{
    if n < 16 {
        String::from_str(upper_digit_text(n as u8))
    } else {
        let head = upper_hex_text(n / 16);
        let r = head.concat(upper_digit_text((n % 16) as u8));
        assert(r@ =~= upper_hex((n / 16) as nat).push(upper_digit_char((n % 16) as int)));
        r
    }
}

/// Two lower case hexadecimal digits for each byte.
pub fn hex_text(bytes: &[u8]) -> (r: String)
    ensures
        r@ == hex_bytes(bytes@),
{
    let mut out = String::new();
    let mut i: usize = 0;
    while i < bytes.len()
        invariant
            i <= bytes.len(),
            out@ == hex_bytes(bytes@.take(i as int)),
        decreases bytes.len() - i,
    {
        let b: u8 = bytes[i];
        out.append(digit_text(b / 16));
        out.append(digit_text(b % 16));
        i = i + 1;
        assert(bytes@.take(i as int).drop_last() =~= bytes@.take(i - 1));
    }
    assert(bytes@.take(bytes@.len() as int) =~= bytes@);
    out
}

pub fn bool_text(b: bool) -> (r: &'static str)
    ensures
        r@ == bool_chars(b),
{
    if b { "true" } else { "false" }
}

/// The parts in order with the separator between neighbours.
pub fn join_text(parts: &Vec<String>, separator: &str) -> (r: String)
    ensures
        r@ == joined(views(parts@), separator@),
{
    let mut out = String::new();
    let mut i: usize = 0;
    while i < parts.len()
        invariant
            i <= parts.len(),
            out@ == joined(views(parts@).take(i as int), separator@),
        decreases parts.len() - i,
    {
        if i > 0 {
            out.append(separator);
        }
        out.append(parts[i].as_str());
        i = i + 1;
        proof {
            let now = views(parts@).take(i as int);
            assert(now.drop_last() =~= views(parts@).take(i - 1));
            assert(now.last() == parts@[i - 1]@);
            if i == 1 {
                assert(out@ =~= now[0]);
            }
        }
    }
    assert(views(parts@).take(parts@.len() as int) =~= views(parts@));
    out
}

/// `None`, or `Some(..)` around a decimal number.
pub fn optional_decimal_text(value: Option<u64>) -> (r: String)
    ensures
        r@ == optional_decimal(match value {
            None => None,
            Some(n) => Some(n as nat),
        }),
{
    match value {
        None => String::from_str("None"),
        Some(n) => String::from_str("Some(").concat(decimal_text(n).as_str()).concat(")"),
    }
}

} // verus!
