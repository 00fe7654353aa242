//! Decimal rendering of integers, as it appears in store keys and message
//! identifiers, together with the proof that distinct integers render
//! differently.

use vstd::prelude::*;
use vstd::string::*;

verus! {

/// The character that writes the digit `d`.
pub open spec fn digit(d: nat) -> char {
    if d == 0 {
        '0'
    } else if d == 1 {
        '1'
    } else if d == 2 {
        '2'
    } else if d == 3 {
        '3'
    } else if d == 4 {
        '4'
    } else if d == 5 {
        '5'
    } else if d == 6 {
        '6'
    } else if d == 7 {
        '7'
    } else if d == 8 {
        '8'
    } else {
        '9'
    }
}

/// The decimal digits of `n`, most significant first, without leading zeros.
pub open spec fn digits(n: nat) -> Seq<char>
    decreases n,
{
    if n < 10 {
        seq![digit(n)]
    } else {
        digits(n / 10).push(digit(n % 10))
    }
}

/// The decimal text of `i`: a minus sign in front of the digits of a
/// negative number, the bare digits otherwise.
pub open spec fn render(i: int) -> Seq<char> {
    if i < 0 {
        seq!['-'] + digits((-i) as nat)
    } else {
        digits(i as nat)
    }
}

/// Every rendering of a natural number starts with a digit, never a sign.
pub proof fn lemma_digits_shape(n: nat)
    ensures
        digits(n).len() >= 1,
        n >= 10 ==> digits(n).len() >= 2,
        digits(n)[0] != '-',
    decreases n,
{
    if n >= 10 {
        lemma_digits_shape(n / 10);
    }
}

/// Distinct natural numbers have distinct digit sequences.
pub proof fn lemma_digits_injective(a: nat, b: nat)
    requires
        digits(a) == digits(b),
    ensures
        a == b,
    decreases a,
{
    lemma_digits_shape(a);
    lemma_digits_shape(b);
    if a >= 10 {
        assert(digits(a).last() == digit(a % 10));
        assert(digits(b).last() == digit(b % 10));
        assert(digits(a).drop_last() =~= digits(a / 10));
        assert(digits(b).drop_last() =~= digits(b / 10));
        lemma_digits_injective(a / 10, b / 10);
    }
}

/// Distinct integers have distinct decimal texts.
pub proof fn lemma_render_injective(a: int, b: int)
    requires
        render(a) == render(b),
    ensures
        a == b,
{
    if a < 0 {
        lemma_digits_shape((-a) as nat);
    } else {
        lemma_digits_shape(a as nat);
    }
    if b < 0 {
        lemma_digits_shape((-b) as nat);
    } else {
        lemma_digits_shape(b as nat);
    }
    if a < 0 && b < 0 {
        let ta = digits((-a) as nat);
        let tb = digits((-b) as nat);
        assert(render(a).subrange(1, render(a).len() as int) =~= ta);
        assert(render(b).subrange(1, render(b).len() as int) =~= tb);
        lemma_digits_injective((-a) as nat, (-b) as nat);
    } else if a >= 0 && b >= 0 {
        lemma_digits_injective(a as nat, b as nat);
    }
}

/// The one-character text of the digit `d`.
fn digit_text(d: u64) -> (text: &'static str)
    requires
        d < 10,
    ensures
        text@ == seq![digit(d as nat)],
{
    proof {
        reveal_strlit("0");
        reveal_strlit("1");
        reveal_strlit("2");
        reveal_strlit("3");
        reveal_strlit("4");
        reveal_strlit("5");
        reveal_strlit("6");
        reveal_strlit("7");
        reveal_strlit("8");
        reveal_strlit("9");
    }
    if d == 0 {
        "0"
    } else if d == 1 {
        "1"
    } else if d == 2 {
        "2"
    } else if d == 3 {
        "3"
    } else if d == 4 {
        "4"
    } else if d == 5 {
        "5"
    } else if d == 6 {
        "6"
    } else if d == 7 {
        "7"
    } else if d == 8 {
        "8"
    } else {
        "9"
    }
}

/// Appends the decimal digits of `n` to `out`.
pub fn append_digits(out: &mut String, n: u64)
    ensures
        final(out)@ == old(out)@ + digits(n as nat),
    decreases n,
{
    if n >= 10 {
        append_digits(out, n / 10);
    }
    out.append(digit_text(n % 10));
}

/// Appends the decimal text of `v` to `out`.
pub fn append_i32(out: &mut String, v: i32)
    ensures
        final(out)@ == old(out)@ + render(v as int),
{
    if v < 0 {
        proof {
            reveal_strlit("-");
        }
        out.append("-");
        let magnitude: u64 = (-(v as i64)) as u64;
        append_digits(out, magnitude);
    } else {
        append_digits(out, v as u64);
    }
}

/// The decimal text of `v`.
pub fn render_u64(v: u64) -> (text: String)
    ensures
        text@ == render(v as int),
{
    let mut text = String::new();
    append_digits(&mut text, v);
    text
}

/// The decimal text of `v`.
pub fn render_i32(v: i32) -> (text: String)
    ensures
        text@ == render(v as int),
{
    let mut text = String::new();
    append_i32(&mut text, v);
    text
}

} // verus!
