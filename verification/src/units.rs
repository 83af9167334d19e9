//! Fixed-point fractions: every fraction in this crate is a whole number of
//! millionths.

use vstd::prelude::*;

verus! {

/// The fraction one, in millionths.
pub const UNIT: u32 = 1_000_000;

/// How many full transitions a second of hover amounts to. With time in
/// microseconds and progress in millionths, one microsecond moves the
/// progress by `RATE` millionths.
pub const RATE: u32 = 10;

/// The longest interval that can still matter: after it a transition is
/// complete from wherever it started.
pub const FULL_SWEEP_MICROS: u64 = 100_000;

/// `x`, held to the range from zero to one.
pub open spec fn clamp_unit(x: int) -> int {
    if x < 0 {
        0
    } else if x > UNIT as int {
        UNIT as int
    } else {
        x
    }
}

/// The progress reached from `progress` after `elapsed_micros` microseconds
/// moving in the direction `sign` (-1, 0 or 1).
pub open spec fn advance_spec(progress: int, sign: int, elapsed_micros: int) -> int {
    clamp_unit(progress + elapsed_micros * (RATE as int) * sign)
}

/// The point a fraction `t` of the way from `a` to `b`, rounded down.
pub open spec fn lerp_spec(a: int, b: int, t: int) -> int {
    (a * (UNIT as int - t) + b * t) / (UNIT as int)
}

/// Progress after moving forward for `elapsed_micros`.
pub fn advance_forward(progress: u32, elapsed_micros: u64) -> (next: u32)
    requires
        progress <= UNIT,
    ensures
        next == advance_spec(progress as int, 1, elapsed_micros as int),
{
    let capped: u64 = if elapsed_micros > FULL_SWEEP_MICROS {
        FULL_SWEEP_MICROS
    } else {
        elapsed_micros
    };
    assert(capped * RATE <= 1_000_000);
    let gain: u64 = capped * (RATE as u64);
    let room: u64 = (UNIT - progress) as u64;
    if gain >= room {
        UNIT
    } else {
        progress + (gain as u32)
    }
}

/// Progress after moving backward for `elapsed_micros`.
pub fn advance_backward(progress: u32, elapsed_micros: u64) -> (next: u32)
    requires
        progress <= UNIT,
    ensures
        next == advance_spec(progress as int, -1, elapsed_micros as int),
{
    let capped: u64 = if elapsed_micros > FULL_SWEEP_MICROS {
        FULL_SWEEP_MICROS
    } else {
        elapsed_micros
    };
    assert(capped * RATE <= 1_000_000);
    let loss: u64 = capped * (RATE as u64);
    if loss >= progress as u64 {
        0
    } else {
        progress - (loss as u32)
    }
}

/// The point a fraction `t` of the way from `a` to `b`, rounded down.
pub fn lerp(a: u32, b: u32, t: u32) -> (r: u32)
    requires
        t <= UNIT,
    ensures
        r == lerp_spec(a as int, b as int, t as int),
{
    let back: u64 = (UNIT - t) as u64;
    proof {
        lemma_lerp_bounds(a as int, b as int, t as int);
        assert(a * (UNIT - t) <= 0xFFFF_FFFF * 1_000_000) by (nonlinear_arith)
            requires
                0 <= a <= 0xFFFF_FFFF,
                0 <= UNIT - t <= 1_000_000,
        ;
        assert(b * t <= 0xFFFF_FFFF * 1_000_000) by (nonlinear_arith)
            requires
                0 <= b <= 0xFFFF_FFFF,
                0 <= t <= 1_000_000,
        ;
    }
    let weighted: u64 = (a as u64) * back + (b as u64) * (t as u64);
    (weighted / (UNIT as u64)) as u32
}

/// An interpolated point lies between its two ends, and at the ends of the
/// range of `t` it is the end itself.
pub proof fn lemma_lerp_bounds(a: int, b: int, t: int)
    requires
        0 <= t <= UNIT,
    ensures
        a <= b ==> a <= lerp_spec(a, b, t) <= b,
        b <= a ==> b <= lerp_spec(a, b, t) <= a,
        lerp_spec(a, b, 0) == a,
        lerp_spec(a, b, UNIT as int) == b,
{
    let u: int = UNIT as int;
    let w: int = a * (u - t) + b * t;
    assert(a * (u - 0) + b * 0 == a * u) by (nonlinear_arith);
    assert(a * (u - u) + b * u == b * u) by (nonlinear_arith);
    assert((a * u) / u == a) by (nonlinear_arith)
        requires
            u == 1_000_000,
    ;
    assert((b * u) / u == b) by (nonlinear_arith)
        requires
            u == 1_000_000,
    ;
    if a <= b {
        assert(a * u <= w <= b * u) by (nonlinear_arith)
            requires
                w == a * (u - t) + b * t,
                0 <= t <= u,
                a <= b,
        ;
        assert(a <= w / u <= b) by (nonlinear_arith)
            requires
                a * u <= w <= b * u,
                u == 1_000_000,
        ;
    }
    if b <= a {
        assert(b * u <= w <= a * u) by (nonlinear_arith)
            requires
                w == a * (u - t) + b * t,
                0 <= t <= u,
                b <= a,
        ;
        assert(b <= w / u <= a) by (nonlinear_arith)
            requires
                b * u <= w <= a * u,
                u == 1_000_000,
        ;
    }
}

} // verus!
