//! What numbers and lists in messages say.

use crate::text::{
    decimal, digit_char, hex_bytes, is_white_space, joined, lower_char, lowered, signed_decimal, trimmed,
    upper_digit_char, upper_hex, without_leading_space, without_trailing_space,
};
use vstd::prelude::*;
use vstd::string::*;

verus! {

/// What a digit stands for, in either case of its letters.
pub open spec fn digit_value(c: char) -> int {
    let n = c as u32 as int;
    if 48 <= n <= 57 {
        n - 48
    } else if 65 <= n <= 70 {
        n - 55
    } else if 97 <= n <= 102 {
        n - 87
    } else {
        -1
    }
}

/// The number that digits stand for, the most significant first.
pub open spec fn number(s: Seq<char>, base: int) -> int
    decreases s.len(),
{
    if s.len() == 0 { 0 } else { base * number(s.drop_last(), base) + digit_value(s.last()) }
}

proof fn lemma_digits(d: int)
    requires
        0 <= d < 16,
    ensures
        digit_value(digit_char(d)) == d,
        digit_value(upper_digit_char(d)) == d,
        d >= 10 ==> 97 <= digit_char(d) as u32 <= 102 && 65 <= upper_digit_char(d) as u32 <= 70,
{
}

/// A number in decimal is read back from its digits, which are all below ten and do not
/// begin with a zero where there is more than one.
pub proof fn law_decimals_read_back(n: nat)
    ensures
        number(decimal(n), 10) == n,
        decimal(n).len() > 0,
        decimal(n).len() > 1 ==> decimal(n)[0] != '0',
        n > 0 ==> decimal(n)[0] != '0',
        forall|i: int| 0 <= i < decimal(n).len() ==> 48 <= (#[trigger] decimal(n)[i]) as u32 <= 57,
    decreases n,
{
    reveal_with_fuel(number, 2);
    lemma_digits((n % 10) as int);
    if n >= 10 {
        law_decimals_read_back(n / 10);
        assert(decimal(n).drop_last() =~= decimal(n / 10));
        assert(decimal(n)[0] == decimal(n / 10)[0]);
    } else {
        assert(decimal(n).drop_last() =~= Seq::<char>::empty());
        assert(number(Seq::<char>::empty(), 10) == 0);
    }
}

/// A negative number stands behind a minus sign, and no other number does.
pub proof fn law_signs_are_shown(n: int)
    ensures
        n < 0 ==> signed_decimal(n) == seq!['-'] + decimal((-n) as nat),
        n >= 0 ==> signed_decimal(n) == decimal(n as nat),
{
    reveal_strlit("-");
    assert("-"@ =~= seq!['-']);
}

/// A hexadecimal number is read back from its digits, the letters of which are capitals, and
/// does not begin with a zero where there is more than one digit.
pub proof fn law_hexadecimals_read_back(n: nat)
    ensures
        number(upper_hex(n), 16) == n,
        upper_hex(n).len() > 0,
        n > 0 ==> upper_hex(n)[0] != '0',
        upper_hex(n).len() > 1 ==> upper_hex(n)[0] != '0',
        forall|i: int| 0 <= i < upper_hex(n).len() ==> (#[trigger] upper_hex(n)[i]) as u32 <= 70,
    decreases n,
{
    reveal_with_fuel(number, 2);
    lemma_digits((n % 16) as int);
    if n >= 16 {
        law_hexadecimals_read_back(n / 16);
        assert(upper_hex(n).drop_last() =~= upper_hex(n / 16));
        assert(upper_hex(n)[0] == upper_hex(n / 16)[0]);
    } else {
        assert(upper_hex(n).drop_last() =~= Seq::<char>::empty());
        assert(number(Seq::<char>::empty(), 16) == 0);
    }
}

/// Each byte takes two hexadecimal digits in small letters, the high half first.
pub proof fn law_bytes_take_two_digits(bytes: Seq<u8>, i: int)
    requires
        0 <= i < bytes.len(),
    ensures
        hex_bytes(bytes).len() == 2 * bytes.len(),
        16 * digit_value(hex_bytes(bytes)[2 * i]) + digit_value(hex_bytes(bytes)[2 * i + 1])
            == bytes[i],
        0 <= digit_value(hex_bytes(bytes)[2 * i]) < 16,
        0 <= digit_value(hex_bytes(bytes)[2 * i + 1]) < 16,
    decreases bytes.len(),
{
    let rest = bytes.drop_last();
    let last = bytes.last();
    lemma_digits((last / 16) as int);
    lemma_digits((last % 16) as int);
    lemma_hex_len(rest);
    lemma_hex_len(bytes);
    if i < rest.len() {
        law_bytes_take_two_digits(rest, i);
        assert(hex_bytes(bytes)[2 * i] == hex_bytes(rest)[2 * i]);
        assert(hex_bytes(bytes)[2 * i + 1] == hex_bytes(rest)[2 * i + 1]);
    }
}

proof fn lemma_hex_len(bytes: Seq<u8>)
    ensures
        hex_bytes(bytes).len() == 2 * bytes.len(),
    decreases bytes.len(),
{
    if bytes.len() > 0 {
        lemma_hex_len(bytes.drop_last());
    }
}

/// Two lists that are joined one after the other have one separator between them, and a list
/// of one is joined without any.
pub proof fn law_lists_are_joined_by_separators(
    first: Seq<Seq<char>>,
    second: Seq<Seq<char>>,
    separator: Seq<char>,
)
    requires
        first.len() > 0,
        second.len() > 0,
    ensures
        joined(first + second, separator) == joined(first, separator) + separator + joined(
            second,
            separator,
        ),
        first.len() == 1 ==> joined(first, separator) == first[0],
    decreases second.len(),
{
    let all = first + second;
    assert(all.last() == second.last());
    assert(all.drop_last() =~= first + second.drop_last());
    if second.len() == 1 {
        assert(first + second.drop_last() =~= first);
        assert(joined(second, separator) == second[0]);
        assert(joined(all, separator) =~= joined(first, separator) + separator + joined(
            second,
            separator,
        ));
    } else {
        law_lists_are_joined_by_separators(first, second.drop_last(), separator);
        assert(joined(all, separator) =~= joined(first, separator) + separator + joined(
            second,
            separator,
        ));
    }
}

proof fn lemma_leading(s: Seq<char>) -> (k: int)
    ensures
        0 <= k <= s.len(),
        without_leading_space(s) == s.skip(k),
        forall|i: int| 0 <= i < k ==> is_white_space(#[trigger] s[i]),
        k < s.len() ==> !is_white_space(s[k]),
    decreases s.len(),
{
    if s.len() > 0 && is_white_space(s[0]) {
        let k = lemma_leading(s.drop_first()) + 1;
        assert(s.drop_first().skip(k - 1) =~= s.skip(k));
        assert forall|i: int| 0 <= i < k implies is_white_space(#[trigger] s[i]) by {
            if i > 0 {
                assert(s.drop_first()[i - 1] == s[i]);
            }
        }
        if k < s.len() {
            assert(s.drop_first()[k - 1] == s[k]);
        }
        k
    } else {
        assert(s.skip(0) =~= s);
        0
    }
}

proof fn lemma_trailing(s: Seq<char>) -> (k: int)
    ensures
        0 <= k <= s.len(),
        without_trailing_space(s) == s.take(k),
        forall|i: int| k <= i < s.len() ==> is_white_space(#[trigger] s[i]),
        k > 0 ==> !is_white_space(s[k - 1]),
    decreases s.len(),
{
    if s.len() > 0 && is_white_space(s.last()) {
        let k = lemma_trailing(s.drop_last());
        assert(s.drop_last().take(k) =~= s.take(k));
        assert forall|i: int| k <= i < s.len() implies is_white_space(#[trigger] s[i]) by {
            if i < s.len() - 1 {
                assert(s.drop_last()[i] == s[i]);
            }
        }
        if k > 0 {
            assert(s.drop_last()[k - 1] == s[k - 1]);
        }
        k
    } else {
        assert(s.take(s.len() as int) =~= s);
        s.len() as int
    }
}

/// A part of a string from which only white space was left out on both sides.
pub open spec fn is_core(s: Seq<char>, from: int, end: int) -> bool {
    &&& 0 <= from <= end <= s.len()
    &&& forall|i: int| 0 <= i < from || end <= i < s.len() ==> is_white_space(#[trigger] s[i])
}

/// Trimming leaves out white space at both ends and nothing else: what is left neither begins
/// nor ends with white space. Blanks, tabs and line ends are white space, and no visible
/// character is.
pub proof fn law_trimming_leaves_the_core(s: Seq<char>)
    ensures
        exists|from: int, end: int|
            #[trigger] is_core(s, from, end) && trimmed(s) == s.subrange(from, end),
        trimmed(s).len() > 0 ==> !is_white_space(trimmed(s)[0]) && !is_white_space(
            trimmed(s).last(),
        ),
        is_white_space(' ') && is_white_space('\t') && is_white_space('\n') && is_white_space('\r'),
        forall|c: char| 33 <= c as u32 <= 126 ==> !#[trigger] is_white_space(c),
{
    let from = lemma_leading(s);
    let rest = s.skip(from);
    let k = lemma_trailing(rest);
    let end = from + k;
    assert(trimmed(s) =~= s.subrange(from, end));
    assert forall|i: int| 0 <= i < from || end <= i < s.len() implies is_white_space(
        #[trigger] s[i],
    ) by {
        if i >= end {
            assert(rest[i - from] == s[i]);
        }
    }
    assert(is_core(s, from, end));
    if k > 0 {
        assert(trimmed(s)[0] == s[from]);
        assert(trimmed(s).last() == rest[k - 1]);
    }
}

/// Capitals are made small, and nothing else is changed.
pub proof fn law_capitals_are_made_small(s: Seq<char>, i: int)
    requires
        0 <= i < s.len(),
    ensures
        lowered(s).len() == s.len(),
        65 <= s[i] as u32 <= 90 ==> lowered(s)[i] as u32 == s[i] as u32 + 32,
        !(65 <= s[i] as u32 <= 90) ==> lowered(s)[i] == s[i],
{
    let c = s[i];
    if 65 <= c as u32 <= 90 {
        assert(lower_char(c) as u32 == c as u32 + 32);
    }
}

} // verus!
