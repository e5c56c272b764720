//! Products that are too large for a machine integer.
use vstd::prelude::*;

verus! {

/// A natural number below two to the power of 256.
#[derive(Debug, Clone, Copy, PartialEq, Eq, Structural)]
pub struct Wide {
    pub high: u128,
    pub low: u128,
}

/// The number that two halves make up.
pub open spec fn joined(high: int, low: int) -> int {
    high * 0x1_0000_0000_0000_0000_0000_0000_0000_0000 + low
}

impl Wide {
    pub open spec fn view(&self) -> int {
        joined(self.high as int, self.low as int)
    }

    /// Zero.
    pub fn zero() -> (w: Wide)
        ensures
            w@ == 0,
    {
        Wide { high: 0, low: 0 }
    }

    /// The product of two numbers.
    pub fn product(a: u128, b: u128) -> (w: Wide)
        ensures
            w@ == a * b,
    {
        let a1: u128 = a / 0x1_0000_0000_0000_0000;
        let a0: u128 = a % 0x1_0000_0000_0000_0000;
        let b1: u128 = b / 0x1_0000_0000_0000_0000;
        let b0: u128 = b % 0x1_0000_0000_0000_0000;
        proof {
            lemma_half_product(a0 as int, b0 as int);
            lemma_half_product(a0 as int, b1 as int);
            lemma_half_product(a1 as int, b0 as int);
            lemma_half_product(a1 as int, b1 as int);
        }
        let p00: u128 = a0 * b0;
        let p01: u128 = a0 * b1;
        let p10: u128 = a1 * b0;
        let p11: u128 = a1 * b1;
        let t: u128 = p01 + p00 / 0x1_0000_0000_0000_0000;
        let u: u128 = p10 + t % 0x1_0000_0000_0000_0000;
        let low: u128 = (u % 0x1_0000_0000_0000_0000) * 0x1_0000_0000_0000_0000 + p00
            % 0x1_0000_0000_0000_0000;
        proof {
            lemma_product_of_halves(a1 as int, a0 as int, b1 as int, b0 as int);
            lemma_product_fits(a as int, b as int);
        }
        let high: u128 = p11 + t / 0x1_0000_0000_0000_0000 + u / 0x1_0000_0000_0000_0000;
        Wide { high, low }
    }

    /// The sum of two numbers, where it is not too large.
    pub fn plus(self, other: Wide) -> (w: Wide)
        requires
            self.high + other.high < u128::MAX,
        ensures
            w@ == self@ + other@,
    {
        let high: u128 = self.high + other.high;
        if other.low <= u128::MAX - self.low {
            Wide { high, low: self.low + other.low }
        } else {
            Wide { high: high + 1, low: other.low - (u128::MAX - self.low) - 1 }
        }
    }

    /// Whether a number is smaller than another.
    pub fn less_than(self, other: Wide) -> (r: bool)
        ensures
            r == (self@ < other@),
    {
        self.high < other.high || self.high == other.high && self.low < other.low
    }
}

proof fn lemma_half_product(a: int, b: int)
    requires
        0 <= a < 0x1_0000_0000_0000_0000,
        0 <= b < 0x1_0000_0000_0000_0000,
    ensures
        0 <= a * b <= 0xffff_ffff_ffff_fffe_0000_0000_0000_0001,
{
    assert(0 <= a * b <= 0xffff_ffff_ffff_ffff * 0xffff_ffff_ffff_ffff) by (nonlinear_arith)
        requires
            0 <= a <= 0xffff_ffff_ffff_ffff,
            0 <= b <= 0xffff_ffff_ffff_ffff,
    ;
}

proof fn lemma_product_of_halves(a1: int, a0: int, b1: int, b0: int)
    ensures
        (a1 * 0x1_0000_0000_0000_0000 + a0) * (b1 * 0x1_0000_0000_0000_0000 + b0) == (a1 * b1)
            * 0x1_0000_0000_0000_0000_0000_0000_0000_0000 + (a0 * b1 + a1 * b0)
            * 0x1_0000_0000_0000_0000 + a0 * b0,
{
    assert((a1 * 0x1_0000_0000_0000_0000 + a0) * (b1 * 0x1_0000_0000_0000_0000 + b0) == (a1 * b1)
        * 0x1_0000_0000_0000_0000_0000_0000_0000_0000 + (a0 * b1 + a1 * b0)
        * 0x1_0000_0000_0000_0000 + a0 * b0) by (nonlinear_arith);
}

proof fn lemma_product_fits(a: int, b: int)
    requires
        0 <= a <= u128::MAX,
        0 <= b <= u128::MAX,
    ensures
        0 <= a * b <= u128::MAX * u128::MAX,
{
    assert(0 <= a * b <= u128::MAX * u128::MAX) by (nonlinear_arith)
        requires
            0 <= a <= u128::MAX,
            0 <= b <= u128::MAX,
    ;
}

/// The distance between two integers.
pub fn distance(a: i128, b: i128) -> (d: u128)
    ensures
        d == crate::fixed::abs_of(a - b),
{
    let (large, small): (i128, i128) = if a < b {
        (b, a)
    } else {
        (a, b)
    };
    if small >= 0 || large < 0 {
        (large - small) as u128
    } else {
        large as u128 + (-(small + 1)) as u128 + 1
    }
}

} // verus!
