//! What is read from the game, and what a bobber says.

use vstd::arithmetic::power2;
use vstd::prelude::*;

use crate::clr::VarView;
use crate::game::Bobber;
use crate::single::Single;

verus! {

/// Which numbers lie below zero, are zero, or are none, is told by the bits alone.
pub proof fn law_bits_tell_the_side(x: Single)
    ensures
        x.negative() && !x.is_nan() && !x.is_zero() <==> 0x8000_0000 < x.bits <= 0xFF80_0000,
        x.is_zero() <==> x.bits == 0 || x.bits == 0x8000_0000,
        x.is_nan() <==> 0x7F80_0000 < x.bits < 0x8000_0000 || 0xFF80_0000 < x.bits,
        !x.negative() && !x.is_nan() && x.exponent() >= 127 <==> 0x3F80_0000 <= x.bits
            <= 0x7F80_0000,
{
}

/// A whole number keeps its side of zero and of one on its way into a single, and its
/// value where it has up to 24 bits.
pub proof fn law_whole_numbers_keep_their_side(n: i32)
    ensures
        ({
            let x = crate::single::nearest(n as int);
            &&& n < 0 <==> 0x8000_0000 < x.bits <= 0xFF80_0000
            &&& n == 0 <==> x.bits == 0 || x.bits == 0x8000_0000
            &&& n > 0 <==> 0x3F80_0000 <= x.bits <= 0x7F80_0000
        }),
        -0x100_0000 <= n <= 0x100_0000 ==> crate::single::nearest(n as int).clamped() == n,
{
    crate::single::lemma_nearest_range(n as int);
    if -0x100_0000 <= n <= 0x100_0000 {
        crate::single::law_small_whole_numbers_survive(n as int);
    }
}

/// Reading a single as a whole number cuts its fraction off. A significand `s` that counts
/// in units of two to the power `-k` gives the greatest `m` whose `m` times two to the
/// power `k` is not above `s`; one that counts in units of two to the power `k` gives
/// that many times `s`. The sign stays, what does not fit is clamped, and what is no number
/// is zero.
pub proof fn law_fractions_are_cut_off(x: Single, m: nat)
    ensures
        ({
            let e = (x.bits as nat / 0x80_0000) % 0x100;
            let f = x.bits as nat % 0x80_0000;
            let signed = if x.bits >= 0x8000_0000 {
                -(m as int)
            } else {
                m as int
            };
            &&& e == 255 && f != 0 ==> x.clamped() == 0
            &&& e < 127 ==> x.clamped() == 0
            &&& e >= 158 && !(e == 255 && f != 0) ==> x.clamped() == if x.bits >= 0x8000_0000 {
                -0x8000_0000int
            } else {
                0x7FFF_FFFF
            }
            &&& 127 <= e < 150 && m * power2::pow2((150 - e) as nat) <= f + 0x80_0000 < (m + 1)
                * power2::pow2((150 - e) as nat) ==> x.clamped() == signed
            &&& 150 <= e < 158 && m == (f + 0x80_0000) * power2::pow2((e - 150) as nat)
                ==> x.clamped() == signed
        }),
{
    let e = (x.bits as nat / 0x80_0000) % 0x100;
    let f = x.bits as nat % 0x80_0000;
    if e < 127 {
        crate::single::lemma_small_magnitude(x);
    } else if e >= 158 {
        crate::single::lemma_large_magnitude(x);
    } else if e < 150 {
        let p = power2::pow2((150 - e) as nat);
        let s = f + 0x80_0000;
        power2::lemma_pow2_pos((150 - e) as nat);
        if m * p <= s < (m + 1) * p {
            assert(s / p == m) by (nonlinear_arith)
                requires
                    p > 0,
                    m * p <= s < (m + 1) * p,
            ;
            assert(m <= s) by (nonlinear_arith)
                requires
                    p > 0,
                    m * p <= s,
            ;
        }
    } else {
        let p = power2::pow2((e - 150) as nat);
        let s = f + 0x80_0000;
        power2::lemma2_to64();
        if e < 157 {
            power2::lemma_pow2_strictly_increases((e - 150) as nat, 7);
        }
        assert(s * p <= 0xFF_FFFF * 128) by (nonlinear_arith)
            requires
                s <= 0xFF_FFFF,
                p <= 128,
        ;
    }
}

/// What can be read as a number, as a truth value, as a single and as a text. Nothing else
/// can, and then the fallback holds.
pub proof fn law_readings(v: VarView, fallback: i32, truth: bool)
    ensures
        v matches VarView::Int(x) ==> v.number() == Some(x) && v.int_or(fallback) == x
            && v.truth_or(truth) == (x != 0) && v.float() == Some(crate::single::nearest(x as int)),
        v matches VarView::Bool(b) ==> v.number() == Some(
            if b {
                1i32
            } else {
                0i32
            },
        ) && v.truth_or(truth) == b && v.float() is None,
        v matches VarView::Float(x) ==> v.float() == Some(x) && v.float_or_zero() == x && v.int_or(
            fallback,
        ) == x.clamped() && v.truth_or(truth) == truth,
        v matches VarView::Text(s) ==> v.string() == Some(s),
        !(v is Text) ==> v.string() is None,
        !(v is Int) && !(v is Bool) && !(v is Float) ==> v.number() is None && v.int_or(fallback)
            == fallback,
        !(v is Int) && !(v is Bool) ==> v.truth() is None && v.truth_or(truth) == truth,
        !(v is Int) && !(v is Float) ==> v.float() is None && v.float_or_zero().bits == 0,
{
    if let VarView::Float(x) = v {
        assert(i32::MIN <= x.clamped() <= i32::MAX);
    }
}

/// A bobber bites exactly where its second state is a number below zero and what it holds
/// is not zero, whatever that is.
pub proof fn law_every_bite_is_noticed(b: Bobber)
    ensures
        b.bites() <==> 0x8000_0000 < b.ai1.bits <= 0xFF80_0000 && b.local_ai1.bits != 0
            && b.local_ai1.bits != 0x8000_0000,
{
    law_bits_tell_the_side(b.ai1);
    law_bits_tell_the_side(b.local_ai1);
}

/// Whatever item or enemy is on the hook while something bites, the bite is noticed and
/// the catch is that item or enemy; while nothing bites, there is none.
pub proof fn law_catch_is_what_bites(b: Bobber, timer: i32, catch: i32)
    requires
        b.ai1 == crate::single::nearest(timer as int),
        b.local_ai1 == crate::single::nearest(catch as int),
        -0x100_0000 <= catch <= 0x100_0000,
    ensures
        b.bites() <==> timer < 0 && catch != 0,
        b.catch() == catch,
{
    law_every_bite_is_noticed(b);
    law_whole_numbers_keep_their_side(timer);
    law_whole_numbers_keep_their_side(catch);
}

} // verus!
