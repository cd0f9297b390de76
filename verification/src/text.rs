//! Numbers written out for queries.
use vstd::arithmetic::div_mod::lemma_div_denominator;
use vstd::arithmetic::power::{lemma_pow_positive, pow};
use vstd::prelude::*;
use vstd::string::StringExecFns;

verus! {

/// The decimal digit that stands for `d`, which is below ten.
pub open spec fn digit_char(d: nat) -> char {
    if d == 0 {
        '0'
    } else if d == 1 {
        '1'
    } else if d == 2 {
        '2'
    } else if d == 3 {
        '3'
    } else if d == 4 {
        '4'
    } else if d == 5 {
        '5'
    } else if d == 6 {
        '6'
    } else if d == 7 {
        '7'
    } else if d == 8 {
        '8'
    } else {
        '9'
    }
}

/// `n` in decimal, without leading zeros.
pub open spec fn decimal(n: nat) -> Seq<char>
    decreases n,
{
    if n < 10 {
        seq![digit_char(n)]
    } else {
        decimal(n / 10).push(digit_char(n % 10))
    }
}

/// The number that a string of decimal digits stands for.
pub open spec fn number_of(digits: Seq<char>) -> nat
    decreases digits.len(),
{
    if digits.len() == 0 {
        0
    } else {
        number_of(digits.drop_last()) * 10 + (digits.last() as nat - '0' as nat) as nat
    }
}

fn digit_str(d: u32) -> (digit: &'static str)
    requires
        d < 10,
    ensures
        digit@ == seq![digit_char(d as nat)],
{
    proof {
        reveal_strlit("0");
        reveal_strlit("1");
        reveal_strlit("2");
        reveal_strlit("3");
        reveal_strlit("4");
        reveal_strlit("5");
        reveal_strlit("6");
        reveal_strlit("7");
        reveal_strlit("8");
        reveal_strlit("9");
    }
    match d {
        0 => "0",
        1 => "1",
        2 => "2",
        3 => "3",
        4 => "4",
        5 => "5",
        6 => "6",
        7 => "7",
        8 => "8",
        _ => "9",
    }
}

fn push_decimal(out: &mut String, n: u32)
    ensures
        final(out)@ == old(out)@ + decimal(n as nat),
    decreases n,
{
    if n >= 10 {
        push_decimal(out, n / 10);
    }
    out.append(digit_str(n % 10));
}

/// `n` written in decimal.
pub fn decimal_text(n: u32) -> (text: String)
    ensures
        text@ == decimal(n as nat),
{
    let mut text = String::new();
    push_decimal(&mut text, n);
    text
}

/// Reading a number back from its decimal text gives the number.
pub proof fn decimal_reads_back(n: nat)
    ensures
        number_of(decimal(n)) == n,
    decreases n,
{
    if n < 10 {
        assert(decimal(n).drop_last() =~= Seq::<char>::empty());
        assert(number_of(decimal(n).drop_last()) == 0);
    } else {
        decimal_reads_back(n / 10);
        assert(decimal(n).drop_last() =~= decimal(n / 10));
    }
}

/// The digit of a number's decimal text that has `i` digits behind it stands for the remainder by
/// ten of the number divided by the `i`-th power of ten.
pub proof fn decimal_has_each_digit(n: nat, i: nat)
    requires
        i < decimal(n).len(),
    ensures
        decimal(n)[decimal(n).len() - 1 - i] as int == '0' as int + (n as int / pow(10, i)) % 10,
    decreases n,
{
    reveal(pow);
    if i == 0 {
        assert(pow(10, 0) == 1);
        assert(n as int / 1 == n as int);
    } else {
        let j = (i - 1) as nat;
        let above = decimal(n / 10);
        decimal_has_each_digit(n / 10, j);
        lemma_pow_positive(10, j);
        lemma_div_denominator(n as int, 10, pow(10, j));
        assert(pow(10, i) == 10 * pow(10, j));
        assert(decimal(n)[decimal(n).len() - 1 - i] == above[above.len() - 1 - j]);
    }
}

/// A number's decimal text has just as many digits as it takes: no number with fewer digits is as
/// large, and every number with more is larger.
pub proof fn decimal_has_no_leading_zeros(n: nat)
    ensures
        decimal(n).len() > 0,
        n < pow(10, decimal(n).len()),
        n >= 10 ==> pow(10, (decimal(n).len() - 1) as nat) <= n,
        n < 10 <==> decimal(n).len() == 1,
    decreases n,
{
    reveal(pow);
    reveal_with_fuel(pow, 3);
    if n >= 10 {
        decimal_has_no_leading_zeros(n / 10);
        let len = decimal(n / 10).len();
        assert(decimal(n).len() == len + 1);
        assert(pow(10, len + 1) == 10 * pow(10, len));
        if n / 10 >= 10 {
            assert(pow(10, len) == 10 * pow(10, (len - 1) as nat));
        } else {
            assert(len == 1);
            assert(pow(10, 1) == 10);
        }
    } else {
        assert(pow(10, 1) == 10);
    }
}

/// Different numbers have different decimal texts.
pub proof fn decimal_tells_numbers_apart(a: nat, b: nat)
    requires
        a != b,
    ensures
        decimal(a) != decimal(b),
{
    decimal_reads_back(a);
    decimal_reads_back(b);
}

} // verus!
