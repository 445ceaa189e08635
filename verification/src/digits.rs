//! Decimal rendering of unsigned task and project identifiers.

use vstd::prelude::*;
use vstd::string::StrSliceExecFns;
use vstd::string::StringExecFns;

verus! {

/// The character for a single decimal digit value (`0` through `9`).
pub open spec fn decimal_digit_char(d: nat) -> char {
    ((0x30 + (d % 10)) as u8) as char
}

/// The decimal representation of `n`, most significant digit first,
/// with no sign, no padding and no leading zero except for `n == 0`.
pub open spec fn decimal_digits(n: nat) -> Seq<char>
    decreases n,
{
    if n < 10 {
        seq![decimal_digit_char(n)]
    } else {
        decimal_digits(n / 10).push(decimal_digit_char(n % 10))
    }
}

/// The numeric value a sequence of digit characters denotes in decimal,
/// most significant digit first.
pub open spec fn digits_value(s: Seq<char>) -> int
    decreases s.len(),
{
    if s.len() == 0 {
        0
    } else {
        10 * digits_value(s.drop_last()) + (s.last() as int - 0x30)
    }
}

/// Law: `decimal_digits(n)` really denotes `n` — reading its characters
/// back as a decimal numeral gives `n` — it is never empty, and it never
/// starts with a leading zero unless `n` itself is zero.
pub proof fn lemma_decimal_digits_value(n: nat)
    ensures
        digits_value(decimal_digits(n)) == n,
        decimal_digits(n).len() >= 1,
        n > 0 ==> decimal_digits(n)[0] != '0',
    decreases n,
{
    if n < 10 {
        let s = decimal_digits(n);
        assert(s.drop_last() =~= Seq::<char>::empty());
        assert(digits_value(Seq::<char>::empty()) == 0);
        assert(digits_value(s) == 10 * digits_value(s.drop_last()) + (s.last() as int - 0x30));
        assert(s.last() as int - 0x30 == n);
    } else {
        lemma_decimal_digits_value(n / 10);
        let high = decimal_digits(n / 10);
        let s = high.push(decimal_digit_char(n % 10));
        assert(s.drop_last() =~= high);
        assert(digits_value(s) == 10 * digits_value(s.drop_last()) + (s.last() as int - 0x30));
        assert(s.last() as int - 0x30 == n % 10);
        vstd::arithmetic::div_mod::lemma_fundamental_div_mod(n as int, 10);
        assert(s[0] == high[0]);
    }
}

/// A one-character string slice for a single decimal digit value.
fn digit_str(d: u32) -> (s: &'static str)
    requires
        d < 10,
    ensures
        s@ == seq![decimal_digit_char(d as nat)],
{
    let alphabet: &'static str = "0123456789";
    proof {
        reveal_strlit("0123456789");
    }
    let s = alphabet.substring_char(d as usize, d as usize + 1);
    proof {
        assert(s@ =~= seq![decimal_digit_char(d as nat)]);
    }
    s
}

/// Renders `n` in decimal, as `format!("{}", n)` would.
pub fn decimal_string(n: u32) -> (s: String)
    ensures
        s@ == decimal_digits(n as nat),
    decreases n,
{
    if n < 10 {
        String::from_str(digit_str(n))
    } else {
        let s = decimal_string(n / 10).concat(digit_str(n % 10));
        proof {
            assert(s@ =~= decimal_digits(n as nat));
        }
        s
    }
}

} // verus!
