//! Decimal notation of unsigned numbers, as it appears in the checkpoint file
//! and in request addresses.

use vstd::prelude::*;

verus! {

/// The character of a single decimal digit.
pub open spec fn digit(d: nat) -> char {
    if d == 0 {
        '0'
    } else if d == 1 {
        '1'
    } else if d == 2 {
        '2'
    } else if d == 3 {
        '3'
    } else if d == 4 {
        '4'
    } else if d == 5 {
        '5'
    } else if d == 6 {
        '6'
    } else if d == 7 {
        '7'
    } else if d == 8 {
        '8'
    } else {
        '9'
    }
}

/// The decimal notation of `n`: no sign, no leading zero, `0` for zero.
pub open spec fn decimal(n: nat) -> Seq<char>
    decreases n,
{
    if n < 10 {
        seq![digit(n)]
    } else {
        decimal(n / 10).push(digit(n % 10))
    }
}

/// The digit that a character stands for.
pub open spec fn digit_value(c: char) -> nat {
    if c == '0' {
        0
    } else if c == '1' {
        1
    } else if c == '2' {
        2
    } else if c == '3' {
        3
    } else if c == '4' {
        4
    } else if c == '5' {
        5
    } else if c == '6' {
        6
    } else if c == '7' {
        7
    } else if c == '8' {
        8
    } else {
        9
    }
}

/// The number that a row of digits spells.
pub open spec fn number(digits: Seq<char>) -> nat
    decreases digits.len(),
{
    if digits.len() == 0 {
        0
    } else {
        number(digits.drop_last()) * 10 + digit_value(digits.last())
    }
}

/// Decimal notation is never empty and holds no comma.
pub proof fn decimal_is_digits(n: nat)
    ensures
        decimal(n).len() >= 1,
        forall|i: int| 0 <= i < decimal(n).len() ==> #[trigger] decimal(n)[i] != ',',
    decreases n,
{
    if n >= 10 {
        decimal_is_digits(n / 10);
    }
}

/// Decimal notation spells the number it was made from, so two numbers with
/// the same notation are the same number.
pub proof fn decimal_spells(n: nat)
    ensures
        number(decimal(n)) == n,
    decreases n,
{
    if n < 10 {
        assert(decimal(n).drop_last() =~= Seq::<char>::empty());
        assert(number(decimal(n).drop_last()) == 0);
    } else {
        decimal_spells(n / 10);
        assert(decimal(n).drop_last() =~= decimal(n / 10));
    }
}

/// Calls `u32::to_string` of std, which prints an unsigned number in decimal
/// notation without sign, padding or leading zeros. Believed, not proved: the
/// text is exactly `decimal` of the number.
#[verifier::external_body]
pub(crate) fn decimal_text(n: u32) -> (text: String)
    ensures
        text@ == decimal(n as nat),
{
    n.to_string()
}

} // verus!
