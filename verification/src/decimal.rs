//! Decimal numbers as text: printing and parsing, each the inverse of the other.

use vstd::prelude::*;
use vstd::string::*;

use crate::text::chars_of;

verus! {

broadcast use vstd::string::group_string_axioms;

/// The digit character of `d`.
pub open spec fn digit_char(d: nat) -> char {
    ('0' as nat + d) as char
}

/// Whether `c` is one of `0` to `9`.
pub open spec fn is_digit(c: char) -> bool {
    '0' <= c <= '9'
}

/// `n` in decimal, without leading zeros.
pub open spec fn decimal(n: nat) -> Seq<char>
    decreases n,
{
    if n < 10 {
        seq![digit_char(n)]
    } else {
        decimal(n / 10).push(digit_char(n % 10))
    }
}

/// Whether every character of `s` is a digit.
pub open spec fn all_digits(s: Seq<char>) -> bool {
    forall|i: int| 0 <= i < s.len() ==> is_digit(#[trigger] s[i])
}

/// The number that a string of digits stands for.
pub open spec fn digits_value(s: Seq<char>) -> nat
    decreases s.len(),
{
    if s.len() == 0 {
        0
    } else {
        (digits_value(s.drop_last()) * 10 + (s.last() as nat - '0' as nat)) as nat
    }
}

/// `s` without one leading `+`, if it has one.
pub open spec fn unsigned_digits(s: Seq<char>) -> Seq<char> {
    if s.len() > 0 && s[0] == '+' {
        s.skip(1)
    } else {
        s
    }
}

/// The number that `s` reads as: an optional `+`, then one or more digits, worth at most `max`.
pub open spec fn parse_uint(s: Seq<char>, max: nat) -> Option<nat> {
    let digits = unsigned_digits(s);
    if digits.len() > 0 && all_digits(digits) && digits_value(digits) <= max {
        Some(digits_value(digits))
    } else {
        None
    }
}

/// The digit character of `d`.
fn digit_of(d: u64) -> (c: char)
    requires
        d < 10,
    ensures
        c == digit_char(d as nat),
{
    let b: u8 = 48 + (d as u8);
    b as char
}

/// Writes `n` in decimal.
pub fn decimal_str(n: u64) -> (r: String)
    ensures
        r@ == decimal(n as nat),
    decreases n,
{
    if n < 10 {
        char_str(digit_of(n))
    } else {
        let mut r = decimal_str(n / 10);
        r.append(char_str(digit_of(n % 10)).as_str());
        proof {
            assert(r@ =~= decimal((n / 10) as nat).push(digit_char((n % 10) as nat)));
        }
        r
    }
}

/// The string of one digit.
fn char_str(c: char) -> (r: String)
    requires
        is_digit(c),
    ensures
        r@ == seq![c],
{
    let all = "0123456789";
    proof {
        reveal_strlit("0123456789");
    }
    let at: usize = (c as u32 - 48) as usize;
    let r = all.substring_char(at, at + 1).to_owned();
    proof {
        assert(r@ =~= seq![c]);
    }
    r
}

/// Reads a number of at most `max`.
pub fn parse_u64(s: &str, max: u64) -> (r: Option<u64>)
    ensures
        r is Some <==> parse_uint(s@, max as nat) is Some,
        r matches Some(n) ==> parse_uint(s@, max as nat) == Some(n as nat),
{
    let cs = chars_of(s);
    let mut from: usize = 0;
    if cs.len() > 0 && cs[0] == '+' {
        from = 1;
    }
    let ghost digits = unsigned_digits(s@);
    proof {
        assert(digits =~= s@.skip(from as int));
    }
    if from == cs.len() {
        return None;
    }
    let mut n: u64 = 0;
    let mut i: usize = from;
    while i < cs.len()
        invariant
            from <= i <= cs@.len(),
            cs@ == s@,
            digits == s@.skip(from as int),
            digits == unsigned_digits(s@),
            n == digits_value(digits.take(i - from)),
            n <= max,
            forall|k: int| 0 <= k < i - from ==> is_digit(#[trigger] digits[k]),
        decreases cs@.len() - i,
    {
        let c = cs[i];
        let ghost at = i - from;
        assert(digits[at] == c);
        if !('0' <= c && c <= '9') {
            return None;
        }
        let d: u64 = (c as u32 - 48) as u64;
        proof {
            assert(digits.take(at + 1).drop_last() =~= digits.take(at));
            lemma_digits_value_grows(digits, at + 1);
        }
        if n > max / 10 || d > max - n * 10 {
            return None;
        }
        n = n * 10 + d;
        i = i + 1;
    }
    proof {
        assert(digits.take(digits.len() as int) =~= digits);
    }
    Some(n)
}

/// A longer string of digits is worth at least as much as its beginning.
proof fn lemma_digits_value_grows(s: Seq<char>, i: int)
    requires
        0 <= i <= s.len(),
    ensures
        all_digits(s) ==> digits_value(s.take(i)) <= digits_value(s),
    decreases s.len() - i,
{
    if i < s.len() {
        lemma_digits_value_grows(s, i + 1);
        assert(s.take(i + 1).drop_last() =~= s.take(i));
        if all_digits(s) {
            assert(is_digit(s[i]));
        }
    } else {
        assert(s.take(i) =~= s);
    }
}

/// `decimal` gives at least one character, all of them digits, worth the number printed.
proof fn lemma_decimal(n: nat)
    ensures
        decimal(n).len() > 0,
        all_digits(decimal(n)),
        digits_value(decimal(n)) == n,
    decreases n,
{
    if n < 10 {
        let s = seq![digit_char(n)];
        assert(s.drop_last() =~= Seq::<char>::empty());
        assert(digits_value(s.drop_last()) == 0);
    } else {
        lemma_decimal(n / 10);
        let s = decimal(n);
        assert(s.drop_last() =~= decimal(n / 10));
        assert forall|i: int| 0 <= i < s.len() implies is_digit(#[trigger] s[i]) by {
            if i < s.len() - 1 {
                assert(s[i] == decimal(n / 10)[i]);
            }
        }
    }
}

/// Parsing what was printed gives the number back.
pub proof fn law_print_parse(n: nat, max: nat)
    requires
        n <= max,
    ensures
        parse_uint(decimal(n), max) == Some(n),
{
    lemma_decimal(n);
    assert(is_digit(decimal(n)[0]));
}

/// Different numbers print differently.
pub proof fn law_decimal_injective(m: nat, n: nat)
    requires
        decimal(m) == decimal(n),
    ensures
        m == n,
{
    lemma_decimal(m);
    lemma_decimal(n);
}

/// A number is printed in digits, without a zero in front unless it is zero. The last digit is what
/// is left of it by ten, and the digits before are those of a tenth of it.
pub proof fn law_printed_digit_by_digit(n: u64, r: String, tenth: String)
    requires
        call_ensures(decimal_str, (n,), r),
        call_ensures(decimal_str, ((n / 10) as u64,), tenth),
    ensures
        r@.len() > 0,
        forall|i: int| 0 <= i < r@.len() ==> '0' <= #[trigger] r@[i] <= '9',
        r@.last() as int == '0' as int + n % 10,
        n < 10 ==> r@.len() == 1,
        n >= 10 ==> r@.drop_last() == tenth@,
        n > 0 ==> r@[0] != '0',
{
    lemma_decimal(n as nat);
    lemma_no_leading_zero(n as nat);
    assert forall|i: int| 0 <= i < r@.len() implies '0' <= #[trigger] r@[i] <= '9' by {
        assert(is_digit(r@[i]));
    }
    if n >= 10 {
        assert(r@.drop_last() =~= tenth@);
    }
}

/// A number other than zero does not begin with a zero.
proof fn lemma_no_leading_zero(n: nat)
    ensures
        n > 0 ==> decimal(n)[0] != '0',
    decreases n,
{
    if n >= 10 {
        lemma_no_leading_zero(n / 10);
        lemma_decimal(n / 10);
        assert(decimal(n)[0] == decimal(n / 10)[0]);
    }
}

/// One digit is its number, and a digit behind a number makes ten times the number and the digit,
/// unless that is too large.
pub proof fn law_parsed_digit_by_digit(s: Seq<char>, d: char, max: nat)
    requires
        '0' <= d <= '9',
    ensures
        parse_uint(seq![d], max) == (if d as int - '0' as int <= max {
            Some((d as int - '0' as int) as nat)
        } else {
            None
        }),
        parse_uint(s, max) matches Some(n) ==> parse_uint(s.push(d), max) == (if n * 10 + (d as int
            - '0' as int) <= max {
            Some((n * 10 + (d as int - '0' as int)) as nat)
        } else {
            None
        }),
{
    let one = seq![d];
    assert(unsigned_digits(one) == one);
    assert(one.drop_last() =~= Seq::<char>::empty());
    assert(digits_value(one.drop_last()) == 0);
    assert(is_digit(one[0]));
    if parse_uint(s, max) is Some {
        let digits = unsigned_digits(s);
        let longer = s.push(d);
        assert(longer[0] == s[0]);
        assert(unsigned_digits(longer) =~= digits.push(d));
        assert(digits.push(d).drop_last() =~= digits);
        assert forall|i: int| 0 <= i < digits.push(d).len() implies is_digit(
            #[trigger] digits.push(d)[i],
        ) by {
            if i < digits.len() {
                assert(is_digit(digits[i]));
            }
        }
        assert(digits.push(d).last() == d);
    }
}

/// A number may have a plus in front. Whatever has another character in it, or no digit, or is
/// beyond the limit, is no number.
pub proof fn law_only_numbers_are_parsed(s: &str, max: u64, r: Option<u64>)
    requires
        call_ensures(parse_u64, (s, max), r),
    ensures
        r matches Some(n) ==> n <= max,
        s@.len() == 0 ==> r is None,
        s@ == seq!['+'] ==> r is None,
        forall|i: int|
            0 < i < s@.len() && !('0' <= #[trigger] s@[i] <= '9') ==> r is None,
        s@.len() > 0 && s@[0] != '+' && !('0' <= s@[0] <= '9') ==> r is None,
        s@.len() > 0 && s@[0] == '+' && (s@.len() == 1 || s@[1] != '+') ==> parse_uint(
            s@,
            max as nat,
        ) == parse_uint(s@.skip(1), max as nat),
        forall|n: nat| n > max && s@ == #[trigger] decimal(n) ==> r is None,
{
    let digits = unsigned_digits(s@);
    if r is Some {
        assert forall|i: int| 0 < i < s@.len() implies '0' <= #[trigger] s@[i] <= '9' by {
            if s@[0] == '+' {
                assert(is_digit(digits[i - 1]));
            } else {
                assert(is_digit(digits[i]));
            }
        }
        if s@[0] != '+' {
            assert(is_digit(digits[0]));
        }
    }
    if s@.len() > 0 && s@[0] == '+' && (s@.len() == 1 || s@[1] != '+') {
        let rest = s@.skip(1);
        assert(rest.len() > 0 ==> rest[0] == s@[1]);
        assert(unsigned_digits(rest) == rest);
    }
    assert forall|n: nat| n > max && s@ == #[trigger] decimal(n) implies r is None by {
        lemma_decimal(n);
        assert(is_digit(decimal(n)[0]));
        assert(unsigned_digits(s@) == s@);
    }
}

} // verus!
