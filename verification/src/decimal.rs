//! Decimal rendering of unsigned integers.
//!
//! The resource limiter writes numbers (the process ceiling, the parent's
//! process id) into kernel control files as decimal text; this module
//! provides the rendering together with its mathematical definition.

use vstd::prelude::*;
use vstd::string::StringExecFns;

verus! {

/// The character for a single decimal digit.
pub open spec fn digit_char(d: nat) -> char {
    if d == 0 {
        '0'
    } else if d == 1 {
        '1'
    } else if d == 2 {
        '2'
    } else if d == 3 {
        '3'
    } else if d == 4 {
        '4'
    } else if d == 5 {
        '5'
    } else if d == 6 {
        '6'
    } else if d == 7 {
        '7'
    } else if d == 8 {
        '8'
    } else {
        '9'
    }
}

/// The decimal rendering of `n`, most significant digit first, with no
/// leading zeros (except for `n == 0`, rendered as `"0"`).
pub open spec fn decimal_seq(n: nat) -> Seq<char>
    decreases n,
{
    if n < 10 {
        seq![digit_char(n)]
    } else {
        decimal_seq(n / 10) + seq![digit_char(n % 10)]
    }
}

/// The numeric value of a decimal digit character.
pub open spec fn char_digit(c: char) -> nat {
    if c == '0' {
        0
    } else if c == '1' {
        1
    } else if c == '2' {
        2
    } else if c == '3' {
        3
    } else if c == '4' {
        4
    } else if c == '5' {
        5
    } else if c == '6' {
        6
    } else if c == '7' {
        7
    } else if c == '8' {
        8
    } else {
        9
    }
}

/// The number a sequence of digit characters denotes in base ten.
pub open spec fn decimal_value(s: Seq<char>) -> nat
    decreases s.len(),
{
    if s.len() == 0 {
        0
    } else {
        decimal_value(s.drop_last()) * 10 + char_digit(s.last())
    }
}

/// A rendering is never empty.
pub proof fn lemma_decimal_seq_len(n: nat)
    ensures
        decimal_seq(n).len() >= 1,
    decreases n,
{
}

/// The rendering denotes exactly the number it was made from: writing a
/// number as decimal text loses nothing.
pub proof fn lemma_decimal_round_trip(n: nat)
    ensures
        decimal_value(decimal_seq(n)) == n,
    decreases n,
{
    if n < 10 {
        assert(decimal_seq(n).drop_last() =~= Seq::<char>::empty());
        assert(decimal_value(Seq::<char>::empty()) == 0);
        assert(decimal_seq(n).last() == digit_char(n));
        assert(decimal_value(decimal_seq(n)) == char_digit(digit_char(n)));
        assert(char_digit(digit_char(n)) == n);
    } else {
        lemma_decimal_round_trip(n / 10);
        assert(decimal_seq(n).drop_last() =~= decimal_seq(n / 10));
        assert(decimal_seq(n).last() == digit_char(n % 10));
        assert(char_digit(digit_char(n % 10)) == n % 10);
        assert(decimal_value(decimal_seq(n)) == (n / 10) * 10 + n % 10);
        vstd::arithmetic::div_mod::lemma_fundamental_div_mod(n as int, 10);
    }
}

/// The rendering is well-formed decimal text: every character is a digit,
/// and there is no leading zero (except for the rendering of zero itself).
pub proof fn lemma_decimal_seq_well_formed(n: nat)
    ensures
        forall|i: int|
            0 <= i < decimal_seq(n).len() ==> '0' <= #[trigger] decimal_seq(n)[i] <= '9',
        n > 0 ==> decimal_seq(n)[0] != '0',
    decreases n,
{
    if n >= 10 {
        lemma_decimal_seq_well_formed(n / 10);
        lemma_decimal_seq_len(n / 10);
        assert(decimal_seq(n)[0] == decimal_seq(n / 10)[0]);
        assert(forall|i: int|
            0 <= i < decimal_seq(n / 10).len() ==> decimal_seq(n)[i] == #[trigger] decimal_seq(
                n / 10,
            )[i]);
    }
}

/// The one-character string for a single decimal digit.
fn digit_literal(d: u64) -> (s: &'static str)
    requires
        d < 10,
    ensures
        s@ =~= seq![digit_char(d as nat)],
{
    proof {
        reveal_strlit("0");
        reveal_strlit("1");
        reveal_strlit("2");
        reveal_strlit("3");
        reveal_strlit("4");
        reveal_strlit("5");
        reveal_strlit("6");
        reveal_strlit("7");
        reveal_strlit("8");
        reveal_strlit("9");
    }
    if d == 0 {
        "0"
    } else if d == 1 {
        "1"
    } else if d == 2 {
        "2"
    } else if d == 3 {
        "3"
    } else if d == 4 {
        "4"
    } else if d == 5 {
        "5"
    } else if d == 6 {
        "6"
    } else if d == 7 {
        "7"
    } else if d == 8 {
        "8"
    } else {
        "9"
    }
}

/// Renders `n` in decimal, most significant digit first.
pub fn u64_to_decimal(n: u64) -> (s: String)
    ensures
        s@ == decimal_seq(n as nat),
    decreases n,
{
    if n < 10 {
        let s = String::from_str(digit_literal(n));
        proof {
            assert(s@ =~= decimal_seq(n as nat));
        }
        s
    } else {
        let mut s = u64_to_decimal(n / 10);
        s.append(digit_literal(n % 10));
        proof {
            assert(s@ =~= decimal_seq(n as nat));
        }
        s
    }
}

} // verus!
