//! Decimal rendering of the integer quantities of the model.
//!
//! The device reports fractional quantities (volume level, playback rate,
//! stream positions) which the model carries in thousandths.  The report
//! lines show them as plain decimals: the integral part, then, when the
//! fractional part is not zero, a point and one to three fractional digits
//! with trailing zeros dropped.

use vstd::prelude::*;

verus! {

/// The character for one decimal digit value.
pub open spec fn spec_digit_char(d: nat) -> char {
    if d == 0 {
        '0'
    } else if d == 1 {
        '1'
    } else if d == 2 {
        '2'
    } else if d == 3 {
        '3'
    } else if d == 4 {
        '4'
    } else if d == 5 {
        '5'
    } else if d == 6 {
        '6'
    } else if d == 7 {
        '7'
    } else if d == 8 {
        '8'
    } else {
        '9'
    }
}

/// The decimal digits of `n`, most significant first, with no leading
/// zeros (a single `'0'` for zero).
pub open spec fn spec_decimal(n: nat) -> Seq<char>
    decreases n,
{
    if n < 10 {
        seq![spec_digit_char(n)]
    } else {
        spec_decimal(n / 10).push(spec_digit_char(n % 10))
    }
}

/// The rendering of a quantity carried in thousandths: the integral part,
/// then, when the fractional part is not zero, a point and the fractional
/// digits with trailing zeros dropped.
pub open spec fn spec_milli(m: nat) -> Seq<char> {
    let whole = spec_decimal(m / 1000);
    let frac = m % 1000;
    if frac == 0 {
        whole
    } else if frac % 100 == 0 {
        whole.push('.').push(spec_digit_char(frac / 100))
    } else if frac % 10 == 0 {
        whole.push('.').push(spec_digit_char(frac / 100)).push(
            spec_digit_char((frac / 10) % 10),
        )
    } else {
        whole.push('.').push(spec_digit_char(frac / 100)).push(
            spec_digit_char((frac / 10) % 10),
        ).push(spec_digit_char(frac % 10))
    }
}

/// The one-character string for one decimal digit value.
fn digit_str(d: u64) -> (s: &'static str)
    requires
        d < 10,
    ensures
        s@ == seq![spec_digit_char(d as nat)],
{
    proof {
        reveal_strlit("0");
        reveal_strlit("1");
        reveal_strlit("2");
        reveal_strlit("3");
        reveal_strlit("4");
        reveal_strlit("5");
        reveal_strlit("6");
        reveal_strlit("7");
        reveal_strlit("8");
        reveal_strlit("9");
    }
    let s: &'static str = if d == 0 {
        "0"
    } else if d == 1 {
        "1"
    } else if d == 2 {
        "2"
    } else if d == 3 {
        "3"
    } else if d == 4 {
        "4"
    } else if d == 5 {
        "5"
    } else if d == 6 {
        "6"
    } else if d == 7 {
        "7"
    } else if d == 8 {
        "8"
    } else {
        "9"
    };
    proof {
        assert(s@ =~= seq![spec_digit_char(d as nat)]);
    }
    s
}

/// The decimal rendering of `n`, per [`spec_decimal`].
pub fn decimal_string(n: u64) -> (s: String)
    ensures
        s@ == spec_decimal(n as nat),
    decreases n,
{
    if n < 10 {
        String::from_str(digit_str(n))
    } else {
        let mut s = decimal_string(n / 10);
        s.append(digit_str(n % 10));
        proof {
            assert(s@ =~= spec_decimal(n as nat));
        }
        s
    }
}

/// The decimal rendering of a quantity in thousandths, per [`spec_milli`].
pub fn milli_string(m: u32) -> (s: String)
    ensures
        s@ == spec_milli(m as nat),
{
    let whole: u64 = (m / 1000) as u64;
    let frac: u32 = m % 1000;
    let mut s = decimal_string(whole);
    if frac == 0 {
        return s;
    }
    proof {
        reveal_strlit(".");
    }
    s.append(".");
    s.append(digit_str((frac / 100) as u64));
    if frac % 100 == 0 {
        proof {
            assert(s@ =~= spec_milli(m as nat));
        }
        return s;
    }
    s.append(digit_str(((frac / 10) % 10) as u64));
    if frac % 10 == 0 {
        proof {
            assert(s@ =~= spec_milli(m as nat));
        }
        return s;
    }
    s.append(digit_str((frac % 10) as u64));
    proof {
        assert(s@ =~= spec_milli(m as nat));
    }
    s
}

} // verus!
