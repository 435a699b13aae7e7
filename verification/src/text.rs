//! Numbers written out as text: upper-case hexadecimal of fixed width and
//! zero-padded decimal.

use vstd::prelude::*;
use vstd::string::*;

verus! {

/// The sixteen hexadecimal digits, upper case.
pub open spec fn digit_chars() -> Seq<char> {
    seq!['0', '1', '2', '3', '4', '5', '6', '7', '8', '9', 'A', 'B', 'C', 'D', 'E', 'F']
}

/// The last `width` digits of `value` in base `base`, most significant first.
pub open spec fn digits_of(value: nat, width: nat, base: nat) -> Seq<char>
    decreases width,
{
    if width == 0 {
        Seq::<char>::empty()
    } else {
        digits_of(value / base, (width - 1) as nat, base).push(digit_chars()[(value % base) as int])
    }
}

/// `value` as eight upper-case hexadecimal digits.
pub open spec fn hex8(value: u32) -> Seq<char> {
    digits_of(value as nat, 8, 16)
}

/// `base` to the power of `exp`.
pub open spec fn power(base: nat, exp: nat) -> nat
    decreases exp,
{
    if exp == 0 {
        1
    } else {
        base * power(base, (exp - 1) as nat)
    }
}

/// Different digits are written with different characters.
pub proof fn lemma_digit_chars_differ(a: int, b: int)
    requires
        0 <= a < 16,
        0 <= b < 16,
        digit_chars()[a] == digit_chars()[b],
    ensures
        a == b,
{
}

/// Numbers with the same last `width` digits agree up to a multiple of
/// `base` to the power of `width`.
pub proof fn lemma_digits_determine_value(a: nat, b: nat, width: nat, base: nat)
    requires
        2 <= base <= 16,
        digits_of(a, width, base) == digits_of(b, width, base),
    ensures
        power(base, width) > 0,
        a % power(base, width) == b % power(base, width),
    decreases width,
{
    if width == 0 {
    } else {
        let rest = (width - 1) as nat;
        let da = digits_of(a / base, rest, base);
        let db = digits_of(b / base, rest, base);
        let ca = digit_chars()[(a % base) as int];
        let cb = digit_chars()[(b % base) as int];
        assert(da.push(ca).last() == ca && db.push(cb).last() == cb);
        assert(da.push(ca).drop_last() =~= da && db.push(cb).drop_last() =~= db);
        lemma_digit_chars_differ((a % base) as int, (b % base) as int);
        lemma_digits_determine_value(a / base, b / base, rest, base);
        vstd::arithmetic::div_mod::lemma_breakdown(a as int, base as int, power(base, rest) as int);
        vstd::arithmetic::div_mod::lemma_breakdown(b as int, base as int, power(base, rest) as int);
    }
}

/// Different numbers are written differently in eight hexadecimal digits.
pub proof fn lemma_hex8_differs(a: u32, b: u32)
    requires
        a != b,
    ensures
        hex8(a) != hex8(b),
{
    if hex8(a) == hex8(b) {
        lemma_digits_determine_value(a as nat, b as nat, 8, 16);
        assert(power(16, 8) == 0x1_0000_0000) by {
            reveal_with_fuel(power, 9);
        }
    }
}

/// Number of decimal digits of `value`; one for zero.
pub open spec fn decimal_len(value: nat) -> nat
    decreases value,
{
    if value < 10 {
        1
    } else {
        1 + decimal_len(value / 10)
    }
}

/// `value` in decimal, filled up with leading zeros to `width` digits where
/// it has fewer.
pub open spec fn padded_decimal(value: nat, width: nat) -> Seq<char> {
    if decimal_len(value) >= width {
        digits_of(value, decimal_len(value), 10)
    } else {
        digits_of(value, width, 10)
    }
}

fn digit_str(d: u64) -> (s: &'static str)
    requires
        d < 16,
    ensures
        s@ == seq![digit_chars()[d as int]],
{
    proof {
        reveal_strlit("0");
        reveal_strlit("1");
        reveal_strlit("2");
        reveal_strlit("3");
        reveal_strlit("4");
        reveal_strlit("5");
        reveal_strlit("6");
        reveal_strlit("7");
        reveal_strlit("8");
        reveal_strlit("9");
        reveal_strlit("A");
        reveal_strlit("B");
        reveal_strlit("C");
        reveal_strlit("D");
        reveal_strlit("E");
        reveal_strlit("F");
    }
    let s = if d == 0 {
        "0"
    } else if d == 1 {
        "1"
    } else if d == 2 {
        "2"
    } else if d == 3 {
        "3"
    } else if d == 4 {
        "4"
    } else if d == 5 {
        "5"
    } else if d == 6 {
        "6"
    } else if d == 7 {
        "7"
    } else if d == 8 {
        "8"
    } else if d == 9 {
        "9"
    } else if d == 10 {
        "A"
    } else if d == 11 {
        "B"
    } else if d == 12 {
        "C"
    } else if d == 13 {
        "D"
    } else if d == 14 {
        "E"
    } else {
        "F"
    };
    s
}

fn push_digits(out: &mut String, value: u64, width: u32, base: u64)
    requires
        base == 10 || base == 16,
    ensures
        final(out)@ == old(out)@ + digits_of(value as nat, width as nat, base as nat),
    decreases width,
{
    if width > 0 {
        push_digits(out, value / base, width - 1, base);
        out.append(digit_str(value % base));
    }
}

/// Appends `value` as eight upper-case hexadecimal digits.
pub fn push_hex8(out: &mut String, value: u32)
    ensures
        final(out)@ == old(out)@ + hex8(value),
{
    push_digits(out, value as u64, 8, 16);
}

/// `value` as eight upper-case hexadecimal digits.
pub fn format_hex8(value: u32) -> (s: String)
    ensures
        s@ == hex8(value),
{
    let mut s = String::new();
    push_hex8(&mut s, value);
    s
}

fn count_decimal_digits(value: u64) -> (n: u32)
    ensures
        n == decimal_len(value as nat),
        1 <= n <= 20,
    decreases value,
{
    if value < 10 {
        1
    } else {
        let n = count_decimal_digits(value / 10);
        proof {
            lemma_decimal_len_bound(value as nat);
        }
        n + 1
    }
}

proof fn lemma_decimal_len_bound(value: nat)
    requires
        value <= u64::MAX,
    ensures
        decimal_len(value) <= 20,
{
    reveal_with_fuel(decimal_len, 21);
}

/// Appends `value` in decimal, with leading zeros up to `width` digits.
pub fn push_padded_decimal(out: &mut String, value: u64, width: u32)
    ensures
        final(out)@ == old(out)@ + padded_decimal(value as nat, width as nat),
{
    let n = count_decimal_digits(value);
    if n >= width {
        push_digits(out, value, n, 10);
    } else {
        push_digits(out, value, width, 10);
    }
}

/// `value` in decimal, without leading zeros.
pub open spec fn decimal(value: nat) -> Seq<char> {
    padded_decimal(value, 1)
}

/// Appends `value` in decimal, without leading zeros.
pub fn push_decimal(out: &mut String, value: u64)
    ensures
        final(out)@ == old(out)@ + decimal(value as nat),
{
    push_padded_decimal(out, value, 1);
}

/// Whether two texts hold the same characters.
pub fn same_text(a: &str, b: &str) -> (same: bool)
    ensures
        same == (a@ == b@),
{
    let left: String = a.to_owned();
    let right: String = b.to_owned();
    left == right
}

/// Whether `text` ends with `last`.
pub open spec fn spec_ends_with(text: Seq<char>, last: char) -> bool {
    text.len() > 0 && text.last() == last
}

/// Whether `text` ends with `last`.
pub fn ends_with(text: &str, last: char) -> (yes: bool)
    ensures
        yes == spec_ends_with(text@, last),
{
    let n: usize = text.unicode_len();
    if n == 0 {
        false
    } else {
        text.get_char(n - 1) == last
    }
}

} // verus!
