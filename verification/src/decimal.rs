//! Numbers written in decimal, and why such writing can be read back.

use vstd::prelude::*;
use vstd::string::StringExecFns;

verus! {

/// The character for a digit below ten.
pub open spec fn digit(d: nat) -> char {
    if d == 0 {
        '0'
    } else if d == 1 {
        '1'
    } else if d == 2 {
        '2'
    } else if d == 3 {
        '3'
    } else if d == 4 {
        '4'
    } else if d == 5 {
        '5'
    } else if d == 6 {
        '6'
    } else if d == 7 {
        '7'
    } else if d == 8 {
        '8'
    } else {
        '9'
    }
}

/// The character is one of the ten digits.
pub open spec fn is_digit(c: char) -> bool {
    c == '0' || c == '1' || c == '2' || c == '3' || c == '4' || c == '5' || c == '6' || c == '7'
        || c == '8' || c == '9'
}

/// The number in decimal, without leading zeros.
pub open spec fn decimal(n: nat) -> Seq<char>
    decreases n,
{
    if n < 10 {
        seq![digit(n)]
    } else {
        decimal(n / 10).push(digit(n % 10))
    }
}

/// A number in decimal has at least one character, all its characters are
/// digits, and a number of ten or more has at least two.
pub proof fn lemma_decimal_digits(n: nat)
    ensures
        decimal(n).len() >= 1,
        n >= 10 ==> decimal(n).len() >= 2,
        forall|i: int| 0 <= i < decimal(n).len() ==> is_digit(#[trigger] decimal(n)[i]),
    decreases n,
{
    if n >= 10 {
        lemma_decimal_digits(n / 10);
    }
}

/// Different numbers are written differently.
pub proof fn lemma_decimal_injective(a: nat, b: nat)
    requires
        decimal(a) == decimal(b),
    ensures
        a == b,
    decreases a,
{
    lemma_decimal_digits(a);
    lemma_decimal_digits(b);
    if a < 10 {
        assert(decimal(a)[0] == digit(a));
        assert(decimal(b).len() == 1);
        assert(decimal(b)[0] == digit(b));
    } else {
        let rest_a = decimal(a / 10);
        let rest_b = decimal(b / 10);
        assert(b >= 10);
        assert(decimal(a).last() == digit(a % 10));
        assert(decimal(b).last() == digit(b % 10));
        assert(decimal(a).drop_last() =~= rest_a);
        assert(decimal(b).drop_last() =~= rest_b);
        lemma_decimal_injective(a / 10, b / 10);
    }
}

/// A number in decimal ends where the digits end: when two texts are equal,
/// each starts with a number and goes on with something that is not a digit,
/// then the numbers are equal and so is what follows them.
pub proof fn lemma_decimal_delimited(a: nat, after_a: Seq<char>, b: nat, after_b: Seq<char>)
    requires
        decimal(a) + after_a == decimal(b) + after_b,
        after_a.len() > 0,
        after_b.len() > 0,
        !is_digit(after_a[0]),
        !is_digit(after_b[0]),
    ensures
        a == b,
        after_a == after_b,
{
    lemma_decimal_digits(a);
    lemma_decimal_digits(b);
    let left = decimal(a) + after_a;
    let right = decimal(b) + after_b;
    let len_a = decimal(a).len() as int;
    let len_b = decimal(b).len() as int;
    if len_a < len_b {
        assert(left[len_a] == after_a[0]);
        assert(right[len_a] == decimal(b)[len_a]);
        assert(false);
    }
    if len_b < len_a {
        assert(right[len_b] == after_b[0]);
        assert(left[len_b] == decimal(a)[len_b]);
        assert(false);
    }
    assert(left.subrange(0, len_a) =~= decimal(a));
    assert(right.subrange(0, len_b) =~= decimal(b));
    lemma_decimal_injective(a, b);
    assert(left.subrange(len_a, left.len() as int) =~= after_a);
    assert(right.subrange(len_b, right.len() as int) =~= after_b);
}

fn digit_text(d: u64) -> (text: &'static str)
    requires
        d < 10,
    ensures
        text@ == seq![digit(d as nat)],
{
    proof {
        reveal_strlit("0");
        reveal_strlit("1");
        reveal_strlit("2");
        reveal_strlit("3");
        reveal_strlit("4");
        reveal_strlit("5");
        reveal_strlit("6");
        reveal_strlit("7");
        reveal_strlit("8");
        reveal_strlit("9");
    }
    let text = if d == 0 {
        "0"
    } else if d == 1 {
        "1"
    } else if d == 2 {
        "2"
    } else if d == 3 {
        "3"
    } else if d == 4 {
        "4"
    } else if d == 5 {
        "5"
    } else if d == 6 {
        "6"
    } else if d == 7 {
        "7"
    } else if d == 8 {
        "8"
    } else {
        "9"
    };
    assert(text@ =~= seq![digit(d as nat)]);
    text
}

/// Writes `n` in decimal at the end of `out`.
pub fn append_decimal(out: &mut String, n: u64)
    ensures
        final(out)@ == old(out)@ + decimal(n as nat),
    decreases n,
{
    if n >= 10 {
        append_decimal(out, n / 10);
    }
    out.append(digit_text(n % 10));
    proof {
        if n >= 10 {
            assert(out@ =~= old(out)@ + decimal((n / 10) as nat).push(digit((n % 10) as nat)));
        } else {
            assert(out@ =~= old(out)@ + seq![digit(n as nat)]);
        }
    }
}

} // verus!
