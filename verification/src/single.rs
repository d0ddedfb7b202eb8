//! Single-precision numbers of the game, held as their bit patterns.
//!
//! The game keeps the state of a bobber in IEEE 754 singles. The automaton only
//! ever asks on which side of zero or one such a number lies and what its whole
//! part is, so the bit pattern is enough and no floating-point arithmetic is done.

use vstd::arithmetic::power2;
use vstd::prelude::*;

verus! {

/// An IEEE 754 single by its bits: a sign, eight bits of exponent, 23 of fraction.
#[derive(Clone, Copy, Debug, PartialEq, Eq, Structural)]
pub struct Single {
    pub bits: u32,
}

impl Single {
    pub open spec fn negative(self) -> bool {
        self.bits >= 0x8000_0000
    }

    pub open spec fn exponent(self) -> nat {
        (self.bits as nat / 0x80_0000) % 0x100
    }

    pub open spec fn fraction(self) -> nat {
        self.bits as nat % 0x80_0000
    }

    pub open spec fn is_nan(self) -> bool {
        self.exponent() == 255 && self.fraction() != 0
    }

    /// Zero of either sign.
    pub open spec fn is_zero(self) -> bool {
        self.exponent() == 0 && self.fraction() == 0
    }

    /// The fraction with its hidden leading bit.
    pub open spec fn significand(self) -> nat {
        if self.exponent() == 0 {
            self.fraction()
        } else {
            self.fraction() + 0x80_0000
        }
    }

    /// The power of two that scales the significand, plus 150.
    pub open spec fn scale(self) -> nat {
        if self.exponent() == 0 {
            1
        } else {
            self.exponent()
        }
    }

    /// The whole part of the absolute value. An infinity counts as the power of
    /// two that its bits would spell.
    pub open spec fn magnitude(self) -> nat {
        if self.scale() >= 150 {
            self.significand() * power2::pow2((self.scale() - 150) as nat)
        } else {
            self.significand() / power2::pow2((150 - self.scale()) as nat)
        }
    }

    /// The value rounded towards zero.
    pub open spec fn whole(self) -> int {
        if self.negative() {
            -(self.magnitude() as int)
        } else {
            self.magnitude() as int
        }
    }

    /// The value as an `i32`: rounded towards zero, clamped to the range of the
    /// type, zero where it is not a number.
    pub open spec fn clamped(self) -> int {
        if self.is_nan() {
            0
        } else if self.whole() > i32::MAX {
            i32::MAX as int
        } else if self.whole() < i32::MIN {
            i32::MIN as int
        } else {
            self.whole()
        }
    }

    /// The single nearest to `n`, ties going to the even significand.
    pub fn from_int(n: i32) -> (r: Single)
        ensures
            r == nearest(n as int),
    {
        if n == 0 {
            return Single { bits: 0 };
        }
        let wide: i64 = n as i64;
        let m: u32 = if wide < 0 {
            (-wide) as u32
        } else {
            wide as u32
        };
        let top: u32 = top_bit(m);
        proof {
            power2::lemma2_to64();
            lemma_rounded_range(m as nat);
        }
        let fill: u32 = if top <= 23 {
            let factor: u32 = power_of_two(23 - top);
            m * factor
        } else {
            let unit: u32 = power_of_two(top - 23);
            proof {
                power2::lemma_pow2_pos((top - 23) as nat);
            }
            let q: u32 = m / unit;
            let r: u32 = m % unit;
            if r > unit - r || (r == unit - r && q % 2 == 1) {
                q + 1
            } else {
                q
            }
        };
        let body: u32 = (top + 127) * 0x80_0000 + (fill - 0x80_0000);
        if n < 0 {
            Single { bits: 0x8000_0000 + body }
        } else {
            Single { bits: body }
        }
    }

    /// Whether the value is below zero.
    pub fn below_zero(&self) -> (r: bool)
        ensures
            r == (self.negative() && !self.is_nan() && !self.is_zero()),
            r == (0x8000_0000 < self.bits <= 0xFF80_0000),
    {
        self.bits > 0x8000_0000 && self.bits <= 0xFF80_0000
    }

    /// Whether the value differs from zero; a NaN does.
    pub fn nonzero(&self) -> (r: bool)
        ensures
            r == !self.is_zero(),
            r == (self.bits != 0 && self.bits != 0x8000_0000),
    {
        self.bits % 0x8000_0000 != 0
    }

    /// Whether the value is one or more.
    pub fn at_least_one(&self) -> (r: bool)
        ensures
            r == (!self.negative() && !self.is_nan() && self.exponent() >= 127),
            r == (0x3F80_0000 <= self.bits <= 0x7F80_0000),
    {
        self.bits >= 0x3F80_0000 && self.bits <= 0x7F80_0000
    }

    /// The value as an `i32`, rounded towards zero and clamped.
    pub fn truncated(&self) -> (r: i32)
        ensures
            r == self.clamped(),
    {
        let exponent: u32 = (self.bits / 0x80_0000) % 0x100;
        let fraction: u32 = self.bits % 0x80_0000;
        let negative: bool = self.bits >= 0x8000_0000;
        proof {
            power2::lemma2_to64();
        }
        if exponent == 255 && fraction != 0 {
            return 0;
        }
        if exponent < 127 {
            proof {
                lemma_small_magnitude(*self);
            }
            return 0;
        }
        if exponent >= 158 {
            proof {
                lemma_large_magnitude(*self);
            }
            return if negative {
                i32::MIN
            } else {
                i32::MAX
            };
        }
        let significand: u32 = fraction + 0x80_0000;
        let magnitude: u32 = if exponent >= 150 {
            let factor: u32 = power_of_two(exponent - 150);
            proof {
                if exponent < 157 {
                    power2::lemma_pow2_strictly_increases((exponent - 150) as nat, 7);
                }
                assert(significand * factor <= 0xFF_FFFF * 128) by (nonlinear_arith)
                    requires
                        significand <= 0xFF_FFFF,
                        factor <= 128,
                ;
            }
            significand * factor
        } else {
            let factor: u32 = power_of_two(150 - exponent);
            proof {
                power2::lemma_pow2_pos((150 - exponent) as nat);
                assert(significand / factor <= significand) by (nonlinear_arith)
                    requires
                        factor > 0,
                ;
            }
            significand / factor
        };
        if negative {
            -(magnitude as i32)
        } else {
            magnitude as i32
        }
    }
}

/// The position of the highest set bit of `m`.
pub open spec fn top_of(m: nat) -> nat
    decreases m,
{
    if m < 2 {
        0
    } else {
        top_of(m / 2) + 1
    }
}

/// The significand of the single nearest to `m`, before a carry into the exponent.
pub open spec fn rounded(m: nat) -> nat {
    let top = top_of(m);
    if top <= 23 {
        m * power2::pow2((23 - top) as nat)
    } else {
        let unit = power2::pow2((top - 23) as nat);
        let q = m / unit;
        let r = m % unit;
        if 2 * r > unit || (2 * r == unit && q % 2 == 1) {
            q + 1
        } else {
            q
        }
    }
}

/// The single nearest to `n`, ties going to the even significand.
pub open spec fn nearest(n: int) -> Single {
    let m = if n < 0 {
        (-n) as nat
    } else {
        n as nat
    };
    let sign: int = if n < 0 {
        0x8000_0000
    } else {
        0
    };
    if n == 0 {
        Single { bits: 0 }
    } else {
        Single { bits: (sign + (top_of(m) + 127) * 0x80_0000 + rounded(m) - 0x80_0000) as u32 }
    }
}

/// The position of the highest set bit.
fn top_bit(m: u32) -> (r: u32)
    requires
        m > 0,
    ensures
        r == top_of(m as nat),
        r < 32,
{
    proof {
        lemma_top_range(m as nat);
    }
    let mut rest: u32 = m;
    let mut top: u32 = 0;
    while rest >= 2
        invariant
            rest >= 1,
            top + top_of(rest as nat) == top_of(m as nat),
            top_of(m as nat) < 32,
        decreases rest,
    {
        rest = rest / 2;
        top = top + 1;
    }
    top
}

/// A positive number lies between the power of its highest bit and the next one.
proof fn lemma_top_bounds(m: nat)
    requires
        m > 0,
    ensures
        power2::pow2(top_of(m)) <= m < power2::pow2(top_of(m) + 1),
    decreases m,
{
    power2::lemma2_to64();
    if m >= 2 {
        lemma_top_bounds(m / 2);
        power2::lemma_pow2_unfold(top_of(m));
        power2::lemma_pow2_unfold(top_of(m) + 1);
    }
}

/// A `u32` has its highest bit below position 32.
proof fn lemma_top_range(m: nat)
    requires
        0 < m < 0x1_0000_0000,
    ensures
        top_of(m) < 32,
{
    lemma_top_bounds(m);
    power2::lemma2_to64();
    if top_of(m) > 32 {
        power2::lemma_pow2_strictly_increases(32, top_of(m));
    }
}

/// The significand always has its leading bit, and at most carries out by one.
proof fn lemma_rounded_range(m: nat)
    requires
        0 < m < 0x1_0000_0000,
    ensures
        0x80_0000 <= rounded(m) <= 0x100_0000,
{
    power2::lemma2_to64();
    lemma_top_bounds(m);
    let top = top_of(m);
    if top <= 23 {
        let factor = power2::pow2((23 - top) as nat);
        power2::lemma_pow2_pos((23 - top) as nat);
        power2::lemma_pow2_adds(top, (23 - top) as nat);
        power2::lemma_pow2_unfold(top + 1);
        assert(power2::pow2(top) * factor <= m * factor < 2 * power2::pow2(top) * factor) by (nonlinear_arith)
            requires
                power2::pow2(top) <= m < 2 * power2::pow2(top),
                factor > 0,
        ;
        assert(2 * power2::pow2(top) * factor == 2 * (power2::pow2(top) * factor)) by (nonlinear_arith);
    } else {
        let unit = power2::pow2((top - 23) as nat);
        power2::lemma_pow2_pos((top - 23) as nat);
        power2::lemma_pow2_adds(23, (top - 23) as nat);
        power2::lemma_pow2_unfold(top + 1);
        assert(0x80_0000 <= m / unit < 0x100_0000) by (nonlinear_arith)
            requires
                unit > 0,
                0x80_0000 * unit <= m < 0x100_0000 * unit,
        ;
    }
}

/// Where the single nearest to a whole number lies among the bit patterns.
pub(crate) proof fn lemma_nearest_range(n: int)
    requires
        i32::MIN <= n <= i32::MAX,
    ensures
        n == 0 ==> nearest(n).bits == 0,
        n > 0 ==> 0x3F80_0000 <= nearest(n).bits <= 0x4F80_0000,
        n < 0 ==> 0xBF80_0000 <= nearest(n).bits <= 0xCF80_0000,
{
    if n != 0 {
        let m: nat = if n < 0 {
            (-n) as nat
        } else {
            n as nat
        };
        lemma_rounded_range(m);
        lemma_top_range(m);
    }
}

/// Two to the power `n`.
fn power_of_two(n: u32) -> (r: u32)
    requires
        n < 32,
    ensures
        r == power2::pow2(n as nat),
{
    proof {
        power2::lemma2_to64();
    }
    let mut r: u32 = 1;
    let mut i: u32 = 0;
    while i < n
        invariant
            i <= n < 32,
            r == power2::pow2(i as nat),
        decreases n - i,
    {
        proof {
            power2::lemma_pow2_unfold((i + 1) as nat);
            power2::lemma2_to64();
            if i + 1 < 31 {
                power2::lemma_pow2_strictly_increases((i + 1) as nat, 31);
            }
        }
        r = r * 2;
        i = i + 1;
    }
    r
}

/// Below an exponent of 127 the absolute value is less than one.
pub(crate) proof fn lemma_small_magnitude(x: Single)
    requires
        x.exponent() < 127,
    ensures
        x.magnitude() == 0,
{
    power2::lemma2_to64();
    let k = (150 - x.scale()) as nat;
    assert(k >= 24);
    if k > 24 {
        power2::lemma_pow2_strictly_increases(24, k);
    }
    assert(x.significand() < power2::pow2(k));
    vstd::arithmetic::div_mod::lemma_basic_div(x.significand() as int, power2::pow2(k) as int);
}

/// From an exponent of 158 on the absolute value is at least two to the 31.
pub(crate) proof fn lemma_large_magnitude(x: Single)
    requires
        x.exponent() >= 158,
    ensures
        x.magnitude() >= 0x8000_0000,
{
    power2::lemma2_to64();
    let k = (x.scale() - 150) as nat;
    if k > 8 {
        power2::lemma_pow2_strictly_increases(8, k);
    }
    assert(x.significand() * power2::pow2(k) >= 0x80_0000 * 0x100) by (nonlinear_arith)
        requires
            x.significand() >= 0x80_0000,
            power2::pow2(k) >= 0x100,
    ;
}

/// Every whole number of up to 24 bits survives the way into a single and back.
pub proof fn law_small_whole_numbers_survive(n: int)
    requires
        -0x100_0000 <= n <= 0x100_0000,
    ensures
        nearest(n).clamped() == n,
{
    power2::lemma2_to64();
    if n == 0 {
        lemma_small_magnitude(nearest(n));
    } else {
        let m: nat = if n < 0 {
            (-n) as nat
        } else {
            n as nat
        };
        let x = nearest(n);
        lemma_top_bounds(m);
        lemma_rounded_range(m);
        let top = top_of(m);
        if top > 24 {
            power2::lemma_pow2_strictly_increases(24, top);
        }
        if top == 24 {
            assert(m == 0x100_0000);
            assert(rounded(m) == 0x80_0000);
            assert(x.exponent() == 151);
            assert(x.significand() * power2::pow2(1) == m) by (nonlinear_arith)
                requires
                    x.significand() == 0x80_0000,
                    power2::pow2(1) == 2,
                    m == 0x100_0000,
            ;
        } else {
            let k = (23 - top) as nat;
            power2::lemma_pow2_pos(k);
            power2::lemma_pow2_adds(top, k);
            power2::lemma_pow2_unfold(top + 1);
            assert(m * power2::pow2(k) < 2 * (power2::pow2(top) * power2::pow2(k))) by (nonlinear_arith)
                requires
                    m < 2 * power2::pow2(top),
                    power2::pow2(k) > 0,
            ;
            assert(x.exponent() == top + 127);
            assert(x.significand() == m * power2::pow2(k));
            vstd::arithmetic::div_mod::lemma_div_multiples_vanish(m as int, power2::pow2(k) as int);
            assert(m * power2::pow2(k) == power2::pow2(k) * m) by (nonlinear_arith);
            if k == 0 {
                assert((m * power2::pow2(0)) * power2::pow2(0) == m) by (nonlinear_arith)
                    requires
                        power2::pow2(0) == 1,
                ;
            }
            assert(x.magnitude() == m);
        }
    }
}

} // verus!
