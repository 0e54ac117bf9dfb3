//! Decimal rendering and parsing of unsigned integers on character sequences.

use vstd::prelude::*;

verus! {

/// The character of a decimal digit `d` (`0 <= d < 10`).
pub open spec fn digit_char(d: nat) -> char {
    (48 + d) as char
}

/// Decimal rendering of a natural number, without sign or leading zeros.
pub open spec fn decimal(n: nat) -> Seq<char>
    decreases n,
{
    if n < 10 {
        seq![digit_char(n)]
    } else {
        decimal(n / 10).push(digit_char(n % 10))
    }
}

/// Renders `n` in decimal, most significant digit first.
pub fn render_u128(n: u128) -> (out: Vec<char>)
    ensures
        out@ == decimal(n as nat),
    decreases n,
{
    let d: u8 = (n % 10) as u8;
    let c: char = (48u8 + d) as char;
    if n < 10 {
        let mut out: Vec<char> = Vec::new();
        out.push(c);
        assert(out@ =~= seq![digit_char(n as nat)]);
        out
    } else {
        let mut out = render_u128(n / 10);
        out.push(c);
        out
    }
}

/// Whether `c` is an ASCII decimal digit.
pub open spec fn is_digit(c: char) -> bool {
    '0' <= c && c <= '9'
}

/// Whether every character of `s` is an ASCII decimal digit.
pub open spec fn all_digits(s: Seq<char>) -> bool {
    forall|i: int| 0 <= i < s.len() ==> is_digit(#[trigger] s[i])
}

/// The value of a run of decimal digits, most significant first.
pub open spec fn digits_value(s: Seq<char>) -> nat
    decreases s.len(),
{
    if s.len() == 0 {
        0
    } else {
        digits_value(s.drop_last()) * 10 + ((s.last() as int - 48) as nat)
    }
}

/// The digits that unsigned parsing reads: one leading `+` is skipped.
pub open spec fn unsigned_digits(s: Seq<char>) -> Seq<char> {
    if s.len() > 0 && s[0] == '+' {
        s.drop_first()
    } else {
        s
    }
}

/// Unsigned decimal parsing as std's `from_str` for unsigned integers does it:
/// an optional `+`, then at least one digit and nothing else, with a value
/// that does not exceed `max`.
pub open spec fn parse_unsigned(s: Seq<char>, max: nat) -> Option<nat> {
    let d = unsigned_digits(s);
    if d.len() > 0 && all_digits(d) && digits_value(d) <= max {
        Some(digits_value(d))
    } else {
        None
    }
}

/// A prefix of a run of digits never has a larger value than the whole run.
pub proof fn lemma_digits_prefix_le(s: Seq<char>, i: int)
    requires
        0 <= i <= s.len(),
        all_digits(s),
    ensures
        digits_value(s.subrange(0, i)) <= digits_value(s),
    decreases s.len() - i,
{
    if i < s.len() {
        lemma_digits_prefix_le(s, i + 1);
        let t = s.subrange(0, i + 1);
        assert(t.drop_last() =~= s.subrange(0, i));
        assert(is_digit(s[i]));
    } else {
        assert(s.subrange(0, i) =~= s);
    }
}

/// Parses `text` as an unsigned decimal `u128`.
pub fn parse_u128(text: &[char]) -> (out: Option<u128>)
    ensures
        match out {
            Some(v) => parse_unsigned(text@, u128::MAX as nat) == Some(v as nat),
            None => parse_unsigned(text@, u128::MAX as nat) is None,
        },
{
    let len = text.len();
    let mut start: usize = 0;
    if len > 0 && text[0] == '+' {
        start = 1;
    }
    let ghost d = unsigned_digits(text@);
    assert(d =~= text@.subrange(start as int, len as int));
    if start == len {
        return None;
    }
    let mut value: u128 = 0;
    let mut i: usize = start;
    while i < len
        invariant
            start <= i <= len,
            len == text@.len(),
            d == unsigned_digits(text@),
            d =~= text@.subrange(start as int, len as int),
            forall|j: int| 0 <= j < i - start ==> is_digit(#[trigger] d[j]),
            value as nat == digits_value(d.subrange(0, i - start)),
        decreases len - i,
    {
        let c = text[i];
        if !('0' <= c && c <= '9') {
            assert(!is_digit(d[i - start]));
            return None;
        }
        let digit: u128 = ((c as u32) - 48) as u128;
        let ghost prefix = d.subrange(0, i - start + 1);
        assert(prefix.drop_last() =~= d.subrange(0, i - start));
        assert(prefix.last() == c);
        match value.checked_mul(10) {
            Some(m) => match m.checked_add(digit) {
                Some(v) => {
                    value = v;
                },
                None => {
                    proof { lemma_tail_overflow(d, i - start + 1); }
                    return None;
                },
            },
            None => {
                proof { lemma_tail_overflow(d, i - start + 1); }
                return None;
            },
        }
        i = i + 1;
    }
    assert(d.subrange(0, len - start) =~= d);
    Some(value)
}

/// When a prefix of the digits already overflows, the whole run is rejected.
proof fn lemma_tail_overflow(d: Seq<char>, k: int)
    requires
        0 < k <= d.len(),
        forall|j: int| 0 <= j < k ==> is_digit(#[trigger] d[j]),
        digits_value(d.subrange(0, k)) > u128::MAX,
    ensures
        !(all_digits(d) && digits_value(d) <= u128::MAX),
{
    if all_digits(d) {
        lemma_digits_prefix_le(d, k);
    }
}

/// Decimal rendering consists of digits only, and reads back as the number.
pub proof fn lemma_decimal_digits(n: nat)
    ensures
        decimal(n).len() > 0,
        all_digits(decimal(n)),
        digits_value(decimal(n)) == n,
        decimal(n)[0] != '+',
    decreases n,
{
    let d = n % 10;
    assert(digit_char(d) as int == 48 + d);
    if n >= 10 {
        lemma_decimal_digits(n / 10);
        let s = decimal(n);
        assert(s.drop_last() =~= decimal(n / 10));
        assert(s.last() == digit_char(d));
        assert(digits_value(s) == digits_value(decimal(n / 10)) * 10 + d);
        assert(digits_value(s) == (n / 10) * 10 + d);
        assert forall|i: int| 0 <= i < s.len() implies is_digit(#[trigger] s[i]) by {
            if i < s.len() - 1 {
                assert(s[i] == decimal(n / 10)[i]);
            }
        }
    } else {
        assert(decimal(n).drop_last() =~= Seq::<char>::empty());
        assert(digits_value(Seq::<char>::empty()) == 0);
        assert(decimal(n).last() == digit_char(n));
        assert(digits_value(decimal(n)) == 0 * 10 + n);
    }
}

/// Parsing reads back what decimal rendering wrote.
pub proof fn lemma_parse_decimal(n: nat, max: nat)
    ensures
        parse_unsigned(decimal(n), max) == (if n <= max { Some(n) } else { None::<nat> }),
{
    lemma_decimal_digits(n);
}

/// Decimal rendering is injective.
pub proof fn lemma_decimal_injective(a: nat, b: nat)
    requires
        decimal(a) == decimal(b),
    ensures
        a == b,
{
    lemma_decimal_digits(a);
    lemma_decimal_digits(b);
}

/// The characters of `s`, in order.
pub fn chars_of(s: &str) -> (out: Vec<char>)
    ensures
        out@ == s@,
{
    let mut out: Vec<char> = Vec::new();
    for c in it: s.chars()
        invariant
            out@ == it.seq().subrange(0, it.index() as int),
    {
        out.push(c);
    }
    out
}

} // verus!
