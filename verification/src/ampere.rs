//! A decoded current measurement and its textual rendering.
//!
//! The chip reports a raw mantissa at a fixed power-of-ten exponent. The
//! rendering selects a milli, micro or nano unit prefix by the exponent band
//! and scales the mantissa by the matching power of ten, in exact integer
//! arithmetic: no floating point and no rounding.

use vstd::prelude::*;

verus! {

/// The decimal digit character for `d`, which must be below ten.
pub open spec fn digit_char(d: nat) -> char {
    if d == 0 {
        '0'
    } else if d == 1 {
        '1'
    } else if d == 2 {
        '2'
    } else if d == 3 {
        '3'
    } else if d == 4 {
        '4'
    } else if d == 5 {
        '5'
    } else if d == 6 {
        '6'
    } else if d == 7 {
        '7'
    } else if d == 8 {
        '8'
    } else {
        '9'
    }
}

/// The decimal digits of `n`, most significant first, with no leading zeros
/// (zero itself is the single digit '0').
pub open spec fn dec_digits(n: nat) -> Seq<char>
    decreases n,
{
    if n < 10 {
        seq![digit_char(n)]
    } else {
        dec_digits(n / 10).push(digit_char(n % 10))
    }
}

/// Ten to the power `k`.
pub open spec fn p10(k: nat) -> nat
    decreases k,
{
    if k == 0 {
        1
    } else {
        10 * p10((k - 1) as nat)
    }
}

/// The scaling divisor for an exponent of 10^-e ampere: enough powers of ten
/// to bring the mantissa to the selected unit prefix. Milli below 3, micro
/// below 6, nano up to 9.
pub open spec fn scale_divisor(e: nat) -> nat {
    if e < 3 {
        p10((3 - e) as nat)
    } else if e < 6 {
        p10((6 - e) as nat)
    } else {
        p10((9 - e) as nat)
    }
}

/// The unit suffix for an exponent of 10^-e ampere: milli below 3, micro
/// below 6, nano above.
pub open spec fn unit_suffix(e: nat) -> Seq<char> {
    if e < 3 {
        seq!['m', 'A']
    } else if e < 6 {
        seq!['u', 'A']
    } else {
        seq!['n', 'A']
    }
}

/// The full rendering of a measurement: the scaled mantissa in decimal,
/// followed by the unit suffix.
pub open spec fn ampere_text(value: nat, e: nat) -> Seq<char> {
    dec_digits(value * scale_divisor(e)) + unit_suffix(e)
}

/// The string slice holding the one decimal digit `d`.
fn digit_str(d: u64) -> (s: &'static str)
    requires
        d < 10,
    ensures
        s@ == seq![digit_char(d as nat)],
{
    let s: &'static str = if d == 0 {
        "0"
    } else if d == 1 {
        "1"
    } else if d == 2 {
        "2"
    } else if d == 3 {
        "3"
    } else if d == 4 {
        "4"
    } else if d == 5 {
        "5"
    } else if d == 6 {
        "6"
    } else if d == 7 {
        "7"
    } else if d == 8 {
        "8"
    } else {
        "9"
    };
    proof {
        reveal_strlit("0");
        reveal_strlit("1");
        reveal_strlit("2");
        reveal_strlit("3");
        reveal_strlit("4");
        reveal_strlit("5");
        reveal_strlit("6");
        reveal_strlit("7");
        reveal_strlit("8");
        reveal_strlit("9");
        assert(s@ =~= seq![digit_char(d as nat)]);
    }
    s
}

/// Renders `v` in decimal, most significant digit first.
fn u64_to_dec(v: u64) -> (s: String)
    ensures
        s@ == dec_digits(v as nat),
    decreases v,
{
    if v < 10 {
        let s = String::from_str(digit_str(v));
        proof {
            assert(s@ =~= dec_digits(v as nat));
        }
        s
    } else {
        let mut s = u64_to_dec(v / 10);
        s.append(digit_str(v % 10));
        proof {
            assert(s@ =~= dec_digits(v as nat));
        }
        s
    }
}

/// Ten to the power `k` for the small `k` the scaling bands use.
fn pow10_small(k: u8) -> (r: u32)
    requires
        k <= 3,
    ensures
        r == p10(k as nat),
        r <= 1000,
{
    proof {
        reveal_with_fuel(p10, 5);
    }
    if k == 0 {
        1
    } else if k == 1 {
        10
    } else if k == 2 {
        100
    } else {
        1000
    }
}

/// A completed current measurement: a 32-bit mantissa in units of
/// 10^-exponent ampere. Constructed fresh from each completed read and
/// immutable afterwards.
pub struct Ampere {
    value: u32,
    exponent: u8,
}

impl Ampere {
    /// The raw mantissa.
    pub closed spec fn val(&self) -> u32 {
        self.value
    }

    /// The decimal exponent: the measurement is `val()` times 10^-exp()
    /// ampere.
    pub closed spec fn exp(&self) -> u8 {
        self.exponent
    }

    pub fn new(value: u32, exponent: u8) -> (r: Self)
        ensures
            r.val() == value,
            r.exp() == exponent,
    {
        Self { value, exponent }
    }

    /// Renders the measurement with a milli, micro or nano prefix selected by
    /// the exponent band, the mantissa scaled by the matching power of ten in
    /// exact integer arithmetic. Exponents above 9 would call for division
    /// and are not representable in this rendering.
    pub fn display(&self) -> (s: String)
        requires
            self.exp() <= 9,
        ensures
            s@ == ampere_text(self.val() as nat, self.exp() as nat),
    {
        let e: u8 = self.exponent;
        let k: u8 = if e < 3 {
            3 - e
        } else if e < 6 {
            6 - e
        } else {
            9 - e
        };
        let div: u32 = pow10_small(k);
        proof {
            assert((self.value as int) * (div as int) <= 0xFFFFFFFFint * 1000) by (nonlinear_arith)
                requires
                    self.value <= 0xFFFFFFFFu32,
                    div <= 1000,
            ;
        }
        let scaled: u64 = (self.value as u64) * (div as u64);
        let mut s = u64_to_dec(scaled);
        if e < 3 {
            s.append("mA");
        } else if e < 6 {
            s.append("uA");
        } else {
            s.append("nA");
        }
        proof {
            reveal_strlit("mA");
            reveal_strlit("uA");
            reveal_strlit("nA");
            assert(s@ =~= ampere_text(self.val() as nat, self.exp() as nat));
        }
        s
    }
}

} // verus!
