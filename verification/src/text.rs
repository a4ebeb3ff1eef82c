//! Decimal text for integers and fixed-point fractions, built without
//! floating point.

use vstd::prelude::*;
use vstd::string::StringExecFns;

verus! {

/// Powers of ten.
pub open spec fn pow10_spec(e: nat) -> nat
    decreases e,
{
    if e == 0 {
        1
    } else {
        10 * pow10_spec((e - 1) as nat)
    }
}

/// The character of one decimal digit.
pub open spec fn digit_seq(d: int) -> Seq<char> {
    if d == 0 {
        "0"@
    } else if d == 1 {
        "1"@
    } else if d == 2 {
        "2"@
    } else if d == 3 {
        "3"@
    } else if d == 4 {
        "4"@
    } else if d == 5 {
        "5"@
    } else if d == 6 {
        "6"@
    } else if d == 7 {
        "7"@
    } else if d == 8 {
        "8"@
    } else {
        "9"@
    }
}

/// The decimal digits of `n`, most significant first, no leading zeros.
pub open spec fn dec_seq(n: nat) -> Seq<char>
    decreases n,
{
    if n < 10 {
        digit_seq(n as int)
    } else {
        dec_seq(n / 10) + digit_seq((n % 10) as int)
    }
}

/// Exactly `width` decimal digits of `f`, zero-padded on the left.
pub open spec fn frac_seq(f: nat, width: nat) -> Seq<char>
    decreases width,
{
    if width == 0 {
        Seq::empty()
    } else {
        frac_seq(f / 10, (width - 1) as nat) + digit_seq((f % 10) as int)
    }
}

fn digit_str(d: u64) -> (r: &'static str)
    requires
        d < 10,
    ensures
        r@ == digit_seq(d as int),
{
    if d == 0 {
        "0"
    } else if d == 1 {
        "1"
    } else if d == 2 {
        "2"
    } else if d == 3 {
        "3"
    } else if d == 4 {
        "4"
    } else if d == 5 {
        "5"
    } else if d == 6 {
        "6"
    } else if d == 7 {
        "7"
    } else if d == 8 {
        "8"
    } else {
        "9"
    }
}

/// Ten to the `e`, for exponents up to the fixed scale.
pub fn pow10(e: u8) -> (r: u64)
    requires
        e <= 9,
    ensures
        r as nat == pow10_spec(e as nat),
        r >= 1,
{
    proof {
        reveal_with_fuel(pow10_spec, 11);
    }
    if e == 0 {
        1
    } else if e == 1 {
        10
    } else if e == 2 {
        100
    } else if e == 3 {
        1_000
    } else if e == 4 {
        10_000
    } else if e == 5 {
        100_000
    } else if e == 6 {
        1_000_000
    } else if e == 7 {
        10_000_000
    } else if e == 8 {
        100_000_000
    } else {
        1_000_000_000
    }
}

/// Append the decimal digits of `n`.
pub fn append_dec(out: &mut String, n: u64)
    ensures
        final(out)@ == old(out)@ + dec_seq(n as nat),
    decreases n,
{
    if n >= 10 {
        append_dec(out, n / 10);
        out.append(digit_str(n % 10));
        proof {
            assert(out@ =~= old(out)@ + dec_seq(n as nat));
        }
    } else {
        out.append(digit_str(n));
    }
}

/// Append exactly `width` digits of `f`, zero-padded on the left.
pub fn append_frac(out: &mut String, f: u64, width: u8)
    ensures
        final(out)@ == old(out)@ + frac_seq(f as nat, width as nat),
    decreases width,
{
    if width > 0 {
        append_frac(out, f / 10, width - 1);
        out.append(digit_str(f % 10));
        proof {
            assert(out@ =~= old(out)@ + frac_seq(f as nat, width as nat));
        }
    } else {
        proof {
            assert(out@ =~= old(out)@ + frac_seq(f as nat, 0));
        }
    }
}

} // verus!
