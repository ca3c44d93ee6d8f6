//! Cumulative transaction counters reported by the monitored node, and the
//! saturating field-wise delta between two successive readings.

use vstd::prelude::*;

verus! {

/// One reading of the node's five cumulative transaction counters:
/// accepted, pushed, duplicate, under-priced, and other.
#[derive(Clone, Copy, PartialEq, Eq, Structural, Debug)]
pub struct StatsResult {
    pub accept: u64,
    pub pushed: u64,
    pub dup: u64,
    pub under_price: u64,
    pub other: u64,
}

/// Subtraction floored at zero: a reset or decreasing source counter never
/// produces an underflow.
pub open spec fn sat_sub(a: u64, b: u64) -> u64 {
    if a >= b {
        (a - b) as u64
    } else {
        0u64
    }
}

/// The field-wise saturating delta of two readings, `cur - prev`.
pub open spec fn delta_of(cur: StatsResult, prev: StatsResult) -> StatsResult {
    StatsResult {
        accept: sat_sub(cur.accept, prev.accept),
        pushed: sat_sub(cur.pushed, prev.pushed),
        dup: sat_sub(cur.dup, prev.dup),
        under_price: sat_sub(cur.under_price, prev.under_price),
        other: sat_sub(cur.other, prev.other),
    }
}

/// The decimal digit character for a value below ten.
pub open spec fn dec_digit_char(v: u8) -> char
    recommends
        v < 10,
{
    if v == 0 {
        '0'
    } else if v == 1 {
        '1'
    } else if v == 2 {
        '2'
    } else if v == 3 {
        '3'
    } else if v == 4 {
        '4'
    } else if v == 5 {
        '5'
    } else if v == 6 {
        '6'
    } else if v == 7 {
        '7'
    } else if v == 8 {
        '8'
    } else {
        '9'
    }
}

/// The usual decimal rendering of a number, most significant digit first
/// and without leading zeroes (a lone zero for zero itself).
pub open spec fn dec_str_of(n: nat) -> Seq<char>
    decreases n,
{
    if n < 10 {
        seq![dec_digit_char(n as u8)]
    } else {
        dec_str_of(n / 10).push(dec_digit_char((n % 10) as u8))
    }
}

/// Appends the decimal digit character for the value `v`.
fn push_dec_digit(s: &mut String, v: u8)
    requires
        v < 10,
    ensures
        final(s)@ == old(s)@.push(dec_digit_char(v)),
{
    proof {
        reveal_strlit("0");
        reveal_strlit("1");
        reveal_strlit("2");
        reveal_strlit("3");
        reveal_strlit("4");
        reveal_strlit("5");
        reveal_strlit("6");
        reveal_strlit("7");
        reveal_strlit("8");
        reveal_strlit("9");
    }
    if v == 0 {
        s.append("0");
    } else if v == 1 {
        s.append("1");
    } else if v == 2 {
        s.append("2");
    } else if v == 3 {
        s.append("3");
    } else if v == 4 {
        s.append("4");
    } else if v == 5 {
        s.append("5");
    } else if v == 6 {
        s.append("6");
    } else if v == 7 {
        s.append("7");
    } else if v == 8 {
        s.append("8");
    } else {
        s.append("9");
    }
    proof {
        assert(final(s)@ =~= old(s)@.push(dec_digit_char(v)));
    }
}

/// Renders a counter in decimal.
pub fn u64_to_dec(n: u64) -> (r: String)
    ensures
        r@ == dec_str_of(n as nat),
    decreases n,
{
    if n < 10 {
        let mut s = String::new();
        push_dec_digit(&mut s, n as u8);
        proof {
            assert(s@ =~= seq![dec_digit_char(n as u8)]);
        }
        s
    } else {
        let mut s = u64_to_dec(n / 10);
        push_dec_digit(&mut s, (n % 10) as u8);
        s
    }
}

impl StatsResult {
    /// Wraps the raw five-counter reply in reply order:
    /// accepted, pushed, duplicate, under-priced, other.
    pub fn new(data: [u64; 5]) -> (r: Self)
        ensures
            r.accept == data[0],
            r.pushed == data[1],
            r.dup == data[2],
            r.under_price == data[3],
            r.other == data[4],
    {
        StatsResult {
            accept: data[0],
            pushed: data[1],
            dup: data[2],
            under_price: data[3],
            other: data[4],
        }
    }

    /// Field-wise saturating subtraction `self - rhs`; every field of the
    /// result is non-negative even where `rhs` exceeds `self`.
    pub fn sub(&self, rhs: &StatsResult) -> (r: StatsResult)
        ensures
            r == delta_of(*self, *rhs),
    {
        StatsResult {
            accept: if self.accept >= rhs.accept { self.accept - rhs.accept } else { 0 },
            pushed: if self.pushed >= rhs.pushed { self.pushed - rhs.pushed } else { 0 },
            dup: if self.dup >= rhs.dup { self.dup - rhs.dup } else { 0 },
            under_price: if self.under_price >= rhs.under_price {
                self.under_price - rhs.under_price
            } else {
                0
            },
            other: if self.other >= rhs.other { self.other - rhs.other } else { 0 },
        }
    }

    /// The push ratio `pushed / accept` of a delta, as an exact fraction
    /// `(numerator, denominator)`; zero (over one) whenever no transaction
    /// was accepted in the interval, so no division by zero can arise.
    pub fn push_ratio(&self) -> (r: (u64, u64))
        ensures
            self.accept == 0 ==> r == (0u64, 1u64),
            self.accept != 0 ==> r == (self.pushed, self.accept),
            r.1 != 0,
    {
        if self.accept == 0 {
            (0, 1)
        } else {
            (self.pushed, self.accept)
        }
    }

    /// Renders the reading for a log line, every counter in decimal.
    pub fn describe(&self) -> (r: String)
        ensures
            r@ == "TxCountResult: accept "@ + dec_str_of(self.accept as nat) + ", pushed "@
                + dec_str_of(self.pushed as nat) + ", duplicate "@ + dec_str_of(self.dup as nat)
                + ", under price "@ + dec_str_of(self.under_price as nat) + ", other "@
                + dec_str_of(self.other as nat),
    {
        let mut s = String::from_str("TxCountResult: accept ");
        let part = u64_to_dec(self.accept);
        s.append(part.as_str());
        s.append(", pushed ");
        let part = u64_to_dec(self.pushed);
        s.append(part.as_str());
        s.append(", duplicate ");
        let part = u64_to_dec(self.dup);
        s.append(part.as_str());
        s.append(", under price ");
        let part = u64_to_dec(self.under_price);
        s.append(part.as_str());
        s.append(", other ");
        let part = u64_to_dec(self.other);
        s.append(part.as_str());
        proof {
            assert(s@ =~= "TxCountResult: accept "@ + dec_str_of(self.accept as nat) + ", pushed "@
                + dec_str_of(self.pushed as nat) + ", duplicate "@ + dec_str_of(self.dup as nat)
                + ", under price "@ + dec_str_of(self.under_price as nat) + ", other "@
                + dec_str_of(self.other as nat));
        }
        s
    }
}

} // verus!
