use vstd::prelude::*;
use crate::text::push_char;

verus! {

/// Whether `c` is an ASCII decimal digit.
pub open spec fn is_digit(c: char) -> bool {
    '0' <= c && c <= '9'
}

/// The character of the decimal digit `d` (`0 <= d < 10`).
pub open spec fn digit_char(d: nat) -> char {
    ((d + 48) as u8) as char
}

/// The value of the ASCII decimal digit `c`.
pub open spec fn digit_value(c: char) -> nat {
    (c as int - 48) as nat
}

/// Decimal digits of `v`, most significant first, without leading zeros.
pub open spec fn decimal_digits(v: nat) -> Seq<char>
    decreases v,
{
    if v < 10 {
        seq![digit_char(v)]
    } else {
        decimal_digits(v / 10).push(digit_char(v % 10))
    }
}

/// The number written by the decimal digits `s`, most significant first.
pub open spec fn decimal_value(s: Seq<char>) -> nat
    decreases s.len(),
{
    if s.len() == 0 {
        0
    } else {
        decimal_value(s.drop_last()) * 10 + digit_value(s.last())
    }
}

/// The text of `n` in base ten, with a leading `-` when negative.
pub open spec fn i32_text(n: i32) -> Seq<char> {
    if n < 0 {
        seq!['-'] + decimal_digits((-n) as nat)
    } else {
        decimal_digits(n as nat)
    }
}

/// The number of digits that `s` starts with.
pub open spec fn leading_digits(s: Seq<char>) -> nat
    decreases s.len(),
{
    if s.len() == 0 || !is_digit(s[0]) {
        0
    } else {
        1 + leading_digits(s.drop_first())
    }
}

/// Why a text is not the base-ten text of an `i32`.
#[derive(Debug, Clone, Copy, PartialEq, Eq)]
pub enum IntErrorKind {
    /// The text is empty.
    Empty,
    /// The text holds a character that is not a digit where a digit belongs.
    InvalidDigit,
    /// The number is greater than `i32::MAX`.
    PosOverflow,
    /// The number is less than `i32::MIN`.
    NegOverflow,
}

/// The characters after an optional leading sign.
pub open spec fn unsigned_part(s: Seq<char>) -> Seq<char> {
    if s.len() > 0 && (s[0] == '+' || s[0] == '-') {
        s.drop_first()
    } else {
        s
    }
}

/// How an `i32` is read from the text `s`: an optional `+` or `-`, then one
/// or more decimal digits whose value fits in `i32`. Digits are read from the
/// left, so a number that grows out of range before a stray character is
/// reported as out of range.
pub open spec fn parse_i32_spec(s: Seq<char>) -> Result<i32, IntErrorKind> {
    if s.len() == 0 {
        Err(IntErrorKind::Empty)
    } else if s.len() == 1 && (s[0] == '+' || s[0] == '-') {
        Err(IntErrorKind::InvalidDigit)
    } else {
        let d = unsigned_part(s);
        let k = leading_digits(d);
        let v = decimal_value(d.take(k as int));
        if s[0] == '-' {
            if v > 2147483648 {
                Err(IntErrorKind::NegOverflow)
            } else if k < d.len() {
                Err(IntErrorKind::InvalidDigit)
            } else {
                Ok((-v) as i32)
            }
        } else {
            if v > 2147483647 {
                Err(IntErrorKind::PosOverflow)
            } else if k < d.len() {
                Err(IntErrorKind::InvalidDigit)
            } else {
                Ok(v as i32)
            }
        }
    }
}

proof fn lemma_leading_digits_stop(s: Seq<char>, j: int)
    requires
        0 <= j <= s.len(),
        forall|i: int| 0 <= i < j ==> is_digit(#[trigger] s[i]),
        j == s.len() || !is_digit(s[j]),
    ensures
        leading_digits(s) == j,
    decreases j,
{
    if j > 0 {
        let t = s.drop_first();
        assert forall|i: int| 0 <= i < j - 1 implies is_digit(#[trigger] t[i]) by {
            assert(t[i] == s[i + 1]);
        }
        if j < s.len() {
            assert(t[j - 1] == s[j]);
        }
        lemma_leading_digits_stop(t, j - 1);
    }
}

proof fn lemma_leading_digits_bounds(s: Seq<char>, j: int)
    requires
        0 <= j <= s.len(),
        forall|i: int| 0 <= i < j ==> is_digit(#[trigger] s[i]),
    ensures
        j <= leading_digits(s) <= s.len(),
        forall|i: int| 0 <= i < leading_digits(s) ==> is_digit(#[trigger] s[i]),
    decreases s.len(),
{
    if s.len() > 0 && is_digit(s[0]) {
        let t = s.drop_first();
        let jj = if j > 0 { j - 1 } else { 0 };
        assert forall|i: int| 0 <= i < jj implies is_digit(#[trigger] t[i]) by {
            assert(t[i] == s[i + 1]);
        }
        lemma_leading_digits_bounds(t, jj);
        assert forall|i: int| 0 <= i < leading_digits(s) implies is_digit(#[trigger] s[i]) by {
            if i > 0 {
                assert(s[i] == t[i - 1]);
            }
        }
    }
}

proof fn lemma_value_step(s: Seq<char>, i: int)
    requires
        0 <= i < s.len(),
    ensures
        decimal_value(s.take(i + 1)) == decimal_value(s.take(i)) * 10 + digit_value(s[i]),
{
    assert(s.take(i + 1).drop_last() =~= s.take(i));
}

proof fn lemma_value_monotone(s: Seq<char>, j: int, k: int)
    requires
        0 <= j <= k <= s.len(),
        forall|i: int| 0 <= i < k ==> is_digit(#[trigger] s[i]),
    ensures
        decimal_value(s.take(j)) <= decimal_value(s.take(k)),
    decreases k - j,
{
    if j < k {
        lemma_value_monotone(s, j, k - 1);
        lemma_value_step(s, k - 1);
    }
}

/// Reads an `i32` from its base-ten text, as `str::parse::<i32>` of std does.
pub fn parse_i32(s: &str) -> (r: Result<i32, IntErrorKind>)
    ensures
        r == parse_i32_spec(s@),
{
    let n = s.unicode_len();
    if n == 0 {
        return Err(IntErrorKind::Empty);
    }
    let c0 = s.get_char(0);
    if n == 1 && (c0 == '+' || c0 == '-') {
        return Err(IntErrorKind::InvalidDigit);
    }
    let negative = c0 == '-';
    let start: usize = if c0 == '+' || c0 == '-' { 1 } else { 0 };
    let limit: i64 = if negative { 2147483648 } else { 2147483647 };
    let ghost d = unsigned_part(s@);
    assert(d =~= s@.subrange(start as int, n as int));
    let mut acc: i64 = 0;
    let mut i: usize = start;
    assert(d.take(0) =~= Seq::<char>::empty());
    while i < n
        invariant
            n == s@.len(),
            n > 0,
            !(n == 1 && (s@[0] == '+' || s@[0] == '-')),
            start <= i <= n,
            start <= 1,
            d == s@.subrange(start as int, n as int),
            d == unsigned_part(s@),
            negative == (s@[0] == '-'),
            limit == (if negative { 2147483648i64 } else { 2147483647i64 }),
            forall|j: int| 0 <= j < i - start ==> is_digit(#[trigger] d[j]),
            acc == decimal_value(d.take(i - start)),
            0 <= acc <= limit,
        decreases n - i,
    {
        let c = s.get_char(i);
        assert(c == d[i - start]);
        if !('0' <= c && c <= '9') {
            proof {
                lemma_leading_digits_stop(d, i - start);
            }
            return Err(IntErrorKind::InvalidDigit);
        }
        let dv: i64 = (c as u32 - 48) as i64;
        proof {
            lemma_value_step(d, i - start);
        }
        acc = acc * 10 + dv;
        if acc > limit {
            proof {
                lemma_leading_digits_bounds(d, i - start + 1);
                lemma_value_monotone(d, i - start + 1, leading_digits(d) as int);
            }
            if negative {
                return Err(IntErrorKind::NegOverflow);
            } else {
                return Err(IntErrorKind::PosOverflow);
            }
        }
        i += 1;
    }
    proof {
        lemma_leading_digits_stop(d, d.len() as int);
        assert(d.take(d.len() as int) =~= d);
    }
    if negative {
        Ok((-acc) as i32)
    } else {
        Ok(acc as i32)
    }
}

proof fn lemma_digit_char(d: nat)
    requires
        d < 10,
    ensures
        is_digit(digit_char(d)),
        digit_value(digit_char(d)) == d,
{
}

proof fn lemma_decimal_digits(v: nat)
    ensures
        decimal_digits(v).len() >= 1,
        forall|i: int| 0 <= i < decimal_digits(v).len() ==> is_digit(#[trigger] decimal_digits(v)[i]),
        decimal_value(decimal_digits(v)) == v,
    decreases v,
{
    if v < 10 {
        lemma_digit_char(v);
        assert(seq![digit_char(v)].drop_last() =~= Seq::<char>::empty());
        assert(decimal_value(Seq::<char>::empty()) == 0);
    } else {
        lemma_decimal_digits(v / 10);
        lemma_digit_char(v % 10);
        let s = decimal_digits(v);
        assert(s.drop_last() =~= decimal_digits(v / 10));
        assert(v == (v / 10) * 10 + v % 10) by (nonlinear_arith);
    }
}

/// Reading back the text that `format_i32` writes gives the number again:
/// for every `i32` `n`, `parse_i32_spec(i32_text(n)) == Ok(n)`.
pub proof fn lemma_parse_format_round_trip(n: i32)
    ensures
        parse_i32_spec(i32_text(n)) == Ok::<i32, IntErrorKind>(n),
{
    let s = i32_text(n);
    if n < 0 {
        let m = (-n) as nat;
        lemma_decimal_digits(m);
        let d = decimal_digits(m);
        assert(s.drop_first() =~= d);
        assert(unsigned_part(s) == d);
        lemma_leading_digits_stop(d, d.len() as int);
        assert(d.take(d.len() as int) =~= d);
    } else {
        let m = n as nat;
        lemma_decimal_digits(m);
        let d = decimal_digits(m);
        assert(!is_digit('+') && !is_digit('-'));
        assert(unsigned_part(s) == d);
        lemma_leading_digits_stop(d, d.len() as int);
        assert(d.take(d.len() as int) =~= d);
    }
}

/// Appends the base-ten digits of `v` to `s`.
fn push_digits(s: &mut String, v: u32)
    ensures
        final(s)@ == old(s)@ + decimal_digits(v as nat),
    decreases v,
{
    if v >= 10 {
        push_digits(s, v / 10);
    }
    let d: u8 = (v % 10) as u8;
    push_char(s, (d + 48) as char);
    assert(s@ =~= old(s)@ + decimal_digits(v as nat));
}

/// The base-ten text of `n`, as `i32::to_string` of std writes it.
pub fn format_i32(n: i32) -> (r: String)
    ensures
        r@ == i32_text(n),
{
    let mut s = String::new();
    if n < 0 {
        push_char(&mut s, '-');
        let m: u32 = (-(n as i64)) as u32;
        push_digits(&mut s, m);
    } else {
        push_digits(&mut s, n as u32);
    }
    assert(s@ =~= i32_text(n));
    s
}

} // verus!
