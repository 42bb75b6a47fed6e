//! Decimal text of exact numbers: an integer, an integer followed by zeros,
//! and an integer with a fixed number of fractional digits.

use vstd::prelude::*;
use vstd::string::StringExecFns;
use crate::arith::{magnitude, unsigned_abs};

verus! {

/// The character of one decimal digit.
pub open spec fn digit(d: int) -> char {
    if d == 0 {
        '0'
    } else if d == 1 {
        '1'
    } else if d == 2 {
        '2'
    } else if d == 3 {
        '3'
    } else if d == 4 {
        '4'
    } else if d == 5 {
        '5'
    } else if d == 6 {
        '6'
    } else if d == 7 {
        '7'
    } else if d == 8 {
        '8'
    } else {
        '9'
    }
}

/// The decimal digits of `n`, most significant first, without leading zeros.
pub open spec fn nat_text(n: nat) -> Seq<char>
    decreases n,
{
    if n < 10 {
        seq![digit(n as int)]
    } else {
        nat_text(n / 10) + seq![digit((n % 10) as int)]
    }
}

/// `k` zeros.
pub open spec fn zeros(k: nat) -> Seq<char> {
    Seq::new(k, |i: int| '0')
}

/// The digits of `n / 10^d` with exactly `d` digits behind the point, `d >= 1`.
pub open spec fn point_text(n: nat, d: nat) -> Seq<char>
    decreases d,
{
    if d <= 1 {
        nat_text(n / 10) + seq!['.'] + seq![digit((n % 10) as int)]
    } else {
        point_text(n / 10, (d - 1) as nat) + seq![digit((n % 10) as int)]
    }
}

/// The sign that precedes the digits of `v`.
pub open spec fn sign_text(v: int) -> Seq<char> {
    if v < 0 {
        seq!['-']
    } else {
        Seq::empty()
    }
}

/// The decimal text of `v * 10^exp`: for a negative exponent with exactly
/// `-exp` fractional digits, otherwise an integer.
pub open spec fn scaled_text(v: int, exp: int) -> Seq<char> {
    if exp < 0 {
        sign_text(v) + point_text(magnitude(v), (-exp) as nat)
    } else if v == 0 {
        nat_text(0)
    } else {
        sign_text(v) + nat_text(magnitude(v)) + zeros(exp as nat)
    }
}

/// The decimal text of `v / 1000`, with as many fractional digits as it
/// takes and three at most.
pub open spec fn milli_text(v: int) -> Seq<char> {
    if v % 1000 == 0 {
        scaled_text(v / 1000, 0)
    } else if v % 100 == 0 {
        scaled_text(v / 100, -1)
    } else if v % 10 == 0 {
        scaled_text(v / 10, -2)
    } else {
        scaled_text(v, -3)
    }
}

fn digit_str(d: u8) -> (r: &'static str)
    requires
        d < 10,
    ensures
        r@ == seq![digit(d as int)],
{
    proof {
        reveal_strlit("0");
        reveal_strlit("1");
        reveal_strlit("2");
        reveal_strlit("3");
        reveal_strlit("4");
        reveal_strlit("5");
        reveal_strlit("6");
        reveal_strlit("7");
        reveal_strlit("8");
        reveal_strlit("9");
    }
    let r = if d == 0 {
        "0"
    } else if d == 1 {
        "1"
    } else if d == 2 {
        "2"
    } else if d == 3 {
        "3"
    } else if d == 4 {
        "4"
    } else if d == 5 {
        "5"
    } else if d == 6 {
        "6"
    } else if d == 7 {
        "7"
    } else if d == 8 {
        "8"
    } else {
        "9"
    };
    assert(r@ =~= seq![digit(d as int)]);
    r
}

/// Appends the digits of `n`.
pub fn push_nat(out: &mut String, n: u128)
    ensures
        final(out)@ == old(out)@ + nat_text(n as nat),
    decreases n,
{
    if n >= 10 {
        push_nat(out, n / 10);
    }
    out.append(digit_str((n % 10) as u8));
    assert(out@ =~= old(out)@ + nat_text(n as nat));
}

/// Appends the digits of `n / 10^d` with `d` digits behind the point.
pub fn push_point(out: &mut String, n: u128, d: u8)
    requires
        d >= 1,
    ensures
        final(out)@ == old(out)@ + point_text(n as nat, d as nat),
    decreases d,
{
    if d == 1 {
        push_nat(out, n / 10);
        proof {
            reveal_strlit(".");
        }
        out.append(".");
    } else {
        push_point(out, n / 10, d - 1);
    }
    out.append(digit_str((n % 10) as u8));
    assert(out@ =~= old(out)@ + point_text(n as nat, d as nat));
}

/// Appends `k` zeros.
pub fn push_zeros(out: &mut String, k: u16)
    ensures
        final(out)@ == old(out)@ + zeros(k as nat),
{
    let mut i: u16 = 0;
    while i < k
        invariant
            i <= k,
            out@ == old(out)@ + zeros(i as nat),
        decreases k - i,
    {
        proof {
            reveal_strlit("0");
        }
        out.append("0");
        i = i + 1;
        assert(out@ =~= old(out)@ + zeros(i as nat));
    }
    assert(out@ =~= old(out)@ + zeros(k as nat));
}

/// The text of `v * 10^exp`. The exponent is limited to what `push_point`
/// and `push_zeros` take.
pub fn scaled_string(v: i128, exp: i16) -> (s: String)
    requires
        -255 <= exp,
    ensures
        s@ == scaled_text(v as int, exp as int),
{
    let mut s = String::new();
    if exp < 0 {
        if v < 0 {
            proof {
                reveal_strlit("-");
            }
            s.append("-");
        }
        push_point(&mut s, unsigned_abs(v), (-exp) as u8);
    } else if v == 0 {
        push_nat(&mut s, 0);
    } else {
        if v < 0 {
            proof {
                reveal_strlit("-");
            }
            s.append("-");
        }
        push_nat(&mut s, unsigned_abs(v));
        push_zeros(&mut s, exp as u16);
    }
    assert(s@ =~= scaled_text(v as int, exp as int));
    s
}

/// The text of `v / 1000`.
pub fn milli_string(v: i128) -> (s: String)
    ensures
        s@ == milli_text(v as int),
{
    if v % 1000 == 0 {
        scaled_string(v / 1000, 0)
    } else if v % 100 == 0 {
        scaled_string(v / 100, -1)
    } else if v % 10 == 0 {
        scaled_string(v / 10, -2)
    } else {
        scaled_string(v, -3)
    }
}

} // verus!
