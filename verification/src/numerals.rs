//! Decimal rendering of machine integers, with the facts the temporary-file
//! naming scheme needs: every rendered character is a digit, and distinct
//! numbers render to distinct character sequences.

use vstd::prelude::*;

verus! {

/// The character for one decimal digit.
pub open spec fn decimal_digit_char(d: nat) -> char {
    if d == 0 {
        '0'
    } else if d == 1 {
        '1'
    } else if d == 2 {
        '2'
    } else if d == 3 {
        '3'
    } else if d == 4 {
        '4'
    } else if d == 5 {
        '5'
    } else if d == 6 {
        '6'
    } else if d == 7 {
        '7'
    } else if d == 8 {
        '8'
    } else {
        '9'
    }
}

/// The usual decimal rendering of `n`, most significant digit first,
/// without leading zeros (except for `n == 0`, rendered as "0").
pub open spec fn decimal_rendering(n: nat) -> Seq<char>
    decreases n,
{
    if n < 10 {
        seq![decimal_digit_char(n)]
    } else {
        decimal_rendering(n / 10).push(decimal_digit_char(n % 10))
    }
}

pub open spec fn is_decimal_digit_char(c: char) -> bool {
    c == '0' || c == '1' || c == '2' || c == '3' || c == '4' || c == '5' || c == '6' || c == '7'
        || c == '8' || c == '9'
}

/// A rendering is never empty.
pub proof fn lemma_decimal_rendering_len(n: nat)
    ensures
        decimal_rendering(n).len() >= 1,
    decreases n,
{
    if n >= 10 {
        lemma_decimal_rendering_len(n / 10);
    }
}

/// Every character of a rendering is a decimal digit.
pub proof fn lemma_decimal_rendering_digits(n: nat)
    ensures
        forall|i: int|
            0 <= i < decimal_rendering(n).len() ==> is_decimal_digit_char(
                #[trigger] decimal_rendering(n)[i],
            ),
    decreases n,
{
    if n < 10 {
        assert(decimal_rendering(n) =~= seq![decimal_digit_char(n)]);
    } else {
        lemma_decimal_rendering_digits(n / 10);
        let r = decimal_rendering(n / 10);
        let c = decimal_digit_char(n % 10);
        assert(decimal_rendering(n) == r.push(c));
        assert forall|i: int| 0 <= i < decimal_rendering(n).len() implies is_decimal_digit_char(
            decimal_rendering(n)[i],
        ) by {
            if i < r.len() {
                assert(decimal_rendering(n)[i] == r[i]);
            } else {
                assert(decimal_rendering(n)[i] == c);
            }
        }
    }
}

/// Distinct numbers have distinct renderings.
pub proof fn lemma_decimal_rendering_injective(a: nat, b: nat)
    requires
        decimal_rendering(a) == decimal_rendering(b),
    ensures
        a == b,
    decreases a + b,
{
    lemma_decimal_rendering_len(a);
    lemma_decimal_rendering_len(b);
    if a < 10 && b < 10 {
        assert(decimal_rendering(a) =~= seq![decimal_digit_char(a)]);
        assert(decimal_rendering(b) =~= seq![decimal_digit_char(b)]);
        assert(seq![decimal_digit_char(a)][0] == seq![decimal_digit_char(b)][0]);
        assert(decimal_digit_char(a) == decimal_digit_char(b));
    } else if a < 10 && b >= 10 {
        lemma_decimal_rendering_len(b / 10);
        assert(decimal_rendering(a) =~= seq![decimal_digit_char(a)]);
        assert(decimal_rendering(b) == decimal_rendering(b / 10).push(decimal_digit_char(b % 10)));
        assert(decimal_rendering(b).len() >= 2);
    } else if a >= 10 && b < 10 {
        lemma_decimal_rendering_len(a / 10);
        assert(decimal_rendering(b) =~= seq![decimal_digit_char(b)]);
        assert(decimal_rendering(a) == decimal_rendering(a / 10).push(decimal_digit_char(a % 10)));
        assert(decimal_rendering(a).len() >= 2);
    } else {
        let ra = decimal_rendering(a / 10);
        let rb = decimal_rendering(b / 10);
        let ca = decimal_digit_char(a % 10);
        let cb = decimal_digit_char(b % 10);
        assert(decimal_rendering(a) == ra.push(ca));
        assert(decimal_rendering(b) == rb.push(cb));
        let la = ra.len() as int;
        assert(rb.len() == la);
        assert(ra =~= rb) by {
            assert forall|i: int| 0 <= i < la implies ra[i] == rb[i] by {
                assert(ra.push(ca)[i] == ra[i]);
                assert(rb.push(cb)[i] == rb[i]);
            }
        }
        lemma_decimal_rendering_injective(a / 10, b / 10);
        assert(ra.push(ca)[la] == ca);
        assert(rb.push(cb)[la] == cb);
        assert(ca == cb);
        assert(a % 10 == b % 10);
        vstd::arithmetic::div_mod::lemma_fundamental_div_mod(a as int, 10);
        vstd::arithmetic::div_mod::lemma_fundamental_div_mod(b as int, 10);
    }
}

/// One decimal digit as a string slice.
fn decimal_digit_str(d: u64) -> (s: &'static str)
    requires
        d < 10,
    ensures
        s@ =~= seq![decimal_digit_char(d as nat)],
{
    proof {
        reveal_strlit("0");
        reveal_strlit("1");
        reveal_strlit("2");
        reveal_strlit("3");
        reveal_strlit("4");
        reveal_strlit("5");
        reveal_strlit("6");
        reveal_strlit("7");
        reveal_strlit("8");
        reveal_strlit("9");
    }
    match d {
        0 => "0",
        1 => "1",
        2 => "2",
        3 => "3",
        4 => "4",
        5 => "5",
        6 => "6",
        7 => "7",
        8 => "8",
        _ => "9",
    }
}

/// Render `n` in decimal.
pub fn render_decimal(n: u64) -> (s: String)
    ensures
        s@ == decimal_rendering(n as nat),
    decreases n,
{
    if n < 10 {
        let s = String::from_str(decimal_digit_str(n));
        proof {
            assert(s@ =~= decimal_rendering(n as nat));
        }
        s
    } else {
        let prefix = render_decimal(n / 10);
        let s = prefix.concat(decimal_digit_str(n % 10));
        proof {
            assert(s@ =~= decimal_rendering(n as nat));
        }
        s
    }
}

} // verus!
