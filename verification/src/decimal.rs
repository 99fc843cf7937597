//! Decimal text: reading an unsigned number from characters and writing
//! one out, with the facts that tie the two together.

use vstd::prelude::*;
use vstd::string::*;

verus! {

/// Whether `c` is one of the ten ASCII digits.
pub open spec fn is_digit(c: char) -> bool {
    '0' <= c <= '9'
}

/// The number a digit stands for; zero for any other character.
pub open spec fn digit_value(c: char) -> nat {
    if is_digit(c) {
        (c as nat - '0' as nat) as nat
    } else {
        0
    }
}

/// The digit that stands for `d`, for `d` below ten.
pub open spec fn digit_char(d: nat) -> char
    recommends
        d < 10,
{
    (d + '0' as nat) as char
}

/// Whether every character of `s` is a digit.
pub open spec fn all_digits(s: Seq<char>) -> bool {
    forall|i: int| 0 <= i < s.len() ==> is_digit(#[trigger] s[i])
}

/// The number that a run of digits denotes, most significant digit first.
/// The empty run denotes zero.
pub open spec fn digits_value(s: Seq<char>) -> nat
    decreases s.len(),
{
    if s.len() == 0 {
        0
    } else {
        10 * digits_value(s.drop_last()) + digit_value(s.last())
    }
}

/// The one-character text of a digit.
fn digit_str(d: u8) -> (r: &'static str)
    requires
        d < 10,
    ensures
        r@ == seq![digit_char(d as nat)],
{
    proof {
        reveal_strlit("0");
        reveal_strlit("1");
        reveal_strlit("2");
        reveal_strlit("3");
        reveal_strlit("4");
        reveal_strlit("5");
        reveal_strlit("6");
        reveal_strlit("7");
        reveal_strlit("8");
        reveal_strlit("9");
    }
    let r = match d {
        0 => "0",
        1 => "1",
        2 => "2",
        3 => "3",
        4 => "4",
        5 => "5",
        6 => "6",
        7 => "7",
        8 => "8",
        _ => "9",
    };
    r
}

/// The decimal text of `n`: its digits, most significant first, without
/// leading zeros; zero is written as a single `0`.
pub open spec fn decimal(n: nat) -> Seq<char>
    decreases n,
{
    if n < 10 {
        seq![digit_char(n)]
    } else {
        decimal(n / 10).push(digit_char(n % 10))
    }
}

/// `s` filled up on the left with `0` to a width of two characters. A text
/// of two or more characters is left as it is.
pub open spec fn pad2(s: Seq<char>) -> Seq<char> {
    if s.len() == 0 {
        seq!['0', '0']
    } else if s.len() == 1 {
        seq!['0', s[0]]
    } else {
        s
    }
}

/// The part of a number's text that must consist of digits: the text
/// without one leading plus sign.
pub open spec fn unsigned_digits(s: Seq<char>) -> Seq<char> {
    if s.len() > 0 && s[0] == '+' {
        s.subrange(1, s.len() as int)
    } else {
        s
    }
}

/// The number that the text `s` denotes as an unsigned 64-bit integer.
///
/// A text denotes a number when it is an optional plus sign followed by at
/// least one digit and nothing else, and the digits do not exceed
/// `u64::MAX`. Leading zeros are allowed. Everything else, the empty text
/// included, denotes nothing.
pub open spec fn parse_decimal(s: Seq<char>) -> Option<u64> {
    let d = unsigned_digits(s);
    if d.len() > 0 && all_digits(d) && digits_value(d) <= u64::MAX {
        Some(digits_value(d) as u64)
    } else {
        None
    }
}

/// The value of a text field: the number it denotes, or zero when it
/// denotes none.
pub open spec fn field_value(s: Seq<char>) -> nat {
    match parse_decimal(s) {
        Some(v) => v as nat,
        None => 0,
    }
}

/// Appending a digit to a run multiplies its value by ten and adds the digit.
pub proof fn lemma_digits_value_push(s: Seq<char>, c: char)
    ensures
        digits_value(s.push(c)) == 10 * digits_value(s) + digit_value(c),
{
    assert(s.push(c).drop_last() =~= s);
}

/// A run of digits is worth at least as much as any of its prefixes.
pub proof fn lemma_digits_value_prefix(s: Seq<char>, k: int)
    requires
        0 <= k <= s.len(),
    ensures
        digits_value(s.subrange(0, k)) <= digits_value(s),
    decreases s.len() - k,
{
    if k == s.len() {
        assert(s.subrange(0, k) =~= s);
    } else {
        lemma_digits_value_prefix(s.drop_last(), k);
        assert(s.drop_last().subrange(0, k) =~= s.subrange(0, k));
    }
}

/// The decimal text of a number is a non-empty run of digits that denotes
/// that number.
pub proof fn lemma_decimal_digits(n: nat)
    ensures
        decimal(n).len() >= 1,
        all_digits(decimal(n)),
        digits_value(decimal(n)) == n,
        n >= 10 ==> decimal(n).len() >= 2,
        n < 10 ==> decimal(n).len() == 1,
        10 <= n < 100 ==> decimal(n).len() == 2,
    decreases n,
{
    if n < 10 {
        assert(digits_value(decimal(n).drop_last()) == 0);
    } else {
        lemma_decimal_digits(n / 10);
        lemma_digits_value_push(decimal(n / 10), digit_char(n % 10));
    }
}

/// Padding a run of digits to two characters gives a run of digits of the
/// same value.
pub proof fn lemma_pad2_digits(s: Seq<char>)
    requires
        all_digits(s),
    ensures
        all_digits(pad2(s)),
        digits_value(pad2(s)) == digits_value(s),
{
    let p = pad2(s);
    let e = Seq::<char>::empty();
    lemma_digits_value_push(e, '0');
    if s.len() == 0 {
        lemma_digits_value_push(seq!['0'], '0');
        assert(seq!['0'].push('0') =~= p);
    } else if s.len() == 1 {
        lemma_digits_value_push(seq!['0'], s[0]);
        assert(seq!['0'].push(s[0]) =~= p);
        lemma_digits_value_push(e, s[0]);
        assert(e.push(s[0]) =~= s);
    }
}

/// Padding a text to two characters does not change the value of the field.
pub proof fn lemma_pad2_field_value(s: Seq<char>)
    ensures
        field_value(pad2(s)) == field_value(s),
{
    if s.len() < 2 && all_digits(s) {
        lemma_pad2_digits(s);
    }
}

/// A number that fits in 64 bits is read back from its decimal text, and
/// from that text padded to two characters.
pub proof fn lemma_parse_decimal_of_decimal(n: nat)
    requires
        n <= u64::MAX,
    ensures
        parse_decimal(decimal(n)) == Some(n as u64),
        parse_decimal(pad2(decimal(n))) == Some(n as u64),
        field_value(pad2(decimal(n))) == n,
{
    lemma_decimal_digits(n);
    lemma_pad2_digits(decimal(n));
}

/// A field of at most two characters is worth at most ninety-nine.
pub proof fn lemma_short_field_value(s: Seq<char>)
    requires
        s.len() <= 2,
    ensures
        field_value(s) <= 99,
{
    let d = unsigned_digits(s);
    if d.len() > 0 && all_digits(d) {
        let e = Seq::<char>::empty();
        if d.len() == 1 {
            assert(e.push(d[0]) =~= d);
            lemma_digits_value_push(e, d[0]);
        } else {
            assert(e.push(d[0]).push(d[1]) =~= d);
            lemma_digits_value_push(e, d[0]);
            lemma_digits_value_push(e.push(d[0]), d[1]);
        }
    }
}

/// Reads an unsigned 64-bit number from its decimal text.
///
/// Returns the number when `s` is an optional plus sign followed by one or
/// more digits whose value fits in 64 bits, and `None` for every other
/// text. These are the texts that `str::parse::<u64>` accepts, with the
/// same values.
pub fn parse_u64(s: &str) -> (r: Option<u64>)
    ensures
        r == parse_decimal(s@),
{
    if !s.is_ascii() {
        proof {
            // Some character is beyond ASCII, so it is neither a digit nor
            // the plus sign, and it is among the digits-to-be.
            let i = choose|i: int| 0 <= i < s@.len() && !('\0' <= #[trigger] s@[i] <= '\u{7f}');
            let d = unsigned_digits(s@);
            if d.len() < s@.len() {
                assert(!is_digit(d[i - 1]));
            }
        }
        return None;
    }
    let bytes = s.as_bytes();
    proof {
        is_ascii_spec_bytes(s);
    }
    let n = bytes.len();
    let start: usize = if n > 0 && bytes[0] == 0x2b {
        1
    } else {
        0
    };
    let ghost d = unsigned_digits(s@);
    if start == n {
        return None;
    }
    let mut acc: u64 = 0;
    let mut i: usize = start;
    while i < n
        invariant
            start <= i <= n,
            n == bytes@.len(),
            n == s@.len(),
            is_ascii(s),
            forall|j: int| 0 <= j < n ==> bytes@[j] == s@[j] as u8,
            d == unsigned_digits(s@),
            d.len() == n - start,
            forall|j: int| 0 <= j < n - start ==> d[j] == s@[j + start],
            all_digits(d.subrange(0, i - start)),
            acc == digits_value(d.subrange(0, i - start)),
        decreases n - i,
    {
        let b = bytes[i];
        let ghost k = i - start;
        if b < 0x30 || b > 0x39 {
            assert(!is_digit(d[k]));
            return None;
        }
        let v: u64 = (b - 0x30) as u64;
        proof {
            assert(d.subrange(0, k + 1) =~= d.subrange(0, k).push(d[k]));
            lemma_digits_value_push(d.subrange(0, k), d[k]);
            lemma_digits_value_prefix(d, k + 1);
        }
        let next = match acc.checked_mul(10) {
            Some(t) => t.checked_add(v),
            None => None,
        };
        match next {
            Some(t) => {
                acc = t;
            },
            None => {
                return None;
            },
        }
        i = i + 1;
    }
    assert(d.subrange(0, n - start) =~= d);
    Some(acc)
}

/// Reads the value of a text field: the number that `s` denotes, or zero
/// when it denotes none.
pub fn parse_field(s: &str) -> (r: u64)
    ensures
        r == field_value(s@),
{
    match parse_u64(s) {
        Some(v) => v,
        None => 0,
    }
}

/// Writes `n` out in decimal, without leading zeros, as `u64::to_string`
/// does.
pub fn to_decimal(n: u64) -> (r: String)
    ensures
        r@ == decimal(n as nat),
    decreases n,
{
    if n < 10 {
        String::from_str(digit_str(n as u8))
    } else {
        let mut s = to_decimal(n / 10);
        s.append(digit_str((n % 10) as u8));
        s
    }
}

/// Fills `s` up on the left with `0` to a width of two characters, as
/// formatting with `{:0>2}` does. The width counts characters, not bytes.
pub fn pad_two(s: &str) -> (r: String)
    ensures
        r@ == pad2(s@),
{
    proof {
        reveal_strlit("0");
        reveal_strlit("00");
    }
    let len = s.unicode_len();
    if len == 0 {
        let r = String::from_str("00");
        r
    } else if len == 1 {
        let r = String::from_str("0").concat(s);
        r
    } else {
        String::from_str(s)
    }
}

} // verus!
