//! Perceptual color values and the blending between them.
//!
//! A color is held in a lightness / chroma / hue / alpha representation.
//! Every component, and every blending fraction, is a fixed-point number
//! whose unit is `SCALE`, so that blending at a progress of exactly 0 or
//! exactly 1 reproduces an input color exactly, component for component.
//!
//! Hue is blended linearly, not along the shortest angular path through the
//! hue circle; this is a documented limitation, kept deliberately.

use vstd::prelude::*;
use vstd::arithmetic::div_mod::lemma_div_by_multiple;
use vstd::arithmetic::div_mod::lemma_div_is_ordered;

verus! {

/// The fixed-point unit: a stored value of `SCALE` stands for 1.0.
pub const SCALE: u32 = 1_000_000;

/// A fraction held as `num / SCALE`; well-formed values lie in `[0, 1]`.
#[derive(Clone, Copy, Debug, PartialEq, Eq, Structural)]
pub struct UnitRatio {
    pub num: u32,
}

impl UnitRatio {
    /// The fraction lies in the unit interval.
    pub open spec fn wf(self) -> bool {
        self.num <= SCALE
    }

    pub fn new(num: u32) -> (r: UnitRatio)
        requires
            num <= SCALE,
        ensures
            r.num == num,
            r.wf(),
    {
        UnitRatio { num }
    }

    pub fn zero() -> (r: UnitRatio)
        ensures
            r.num == 0,
            r.wf(),
    {
        UnitRatio { num: 0 }
    }

    pub fn one() -> (r: UnitRatio)
        ensures
            r.num == SCALE,
            r.wf(),
    {
        UnitRatio { num: SCALE }
    }
}

/// A color with fixed-point lightness, chroma, hue and alpha components.
#[derive(Clone, Copy, Debug, PartialEq, Eq, Structural)]
pub struct Lcha {
    pub lightness: u32,
    pub chroma: u32,
    pub hue: u32,
    pub alpha: u32,
}

impl Lcha {
    pub fn new(lightness: u32, chroma: u32, hue: u32, alpha: u32) -> (r: Lcha)
        ensures
            r.lightness == lightness,
            r.chroma == chroma,
            r.hue == hue,
            r.alpha == alpha,
    {
        Lcha { lightness, chroma, hue, alpha }
    }
}

/// Linear interpolation of one component: `(a * (1 - t) + b * t)`, carried
/// out over the fixed-point numerators and rounded down once at the end.
pub open spec fn lerp_spec(a: int, b: int, n: int) -> int {
    (a * (SCALE - n) + b * n) / (SCALE as int)
}

/// The component-wise linear blend of two colors at progress `n / SCALE`.
pub open spec fn mix_spec(a: Lcha, b: Lcha, n: int) -> Lcha {
    Lcha {
        lightness: lerp_spec(a.lightness as int, b.lightness as int, n) as u32,
        chroma: lerp_spec(a.chroma as int, b.chroma as int, n) as u32,
        hue: lerp_spec(a.hue as int, b.hue as int, n) as u32,
        alpha: lerp_spec(a.alpha as int, b.alpha as int, n) as u32,
    }
}

proof fn lemma_mul_bounds(x: int, y: int, xb: int, yb: int)
    requires
        0 <= x <= xb,
        0 <= y <= yb,
    ensures
        0 <= x * y <= xb * yb,
{
    assert(0 <= x * y <= xb * yb) by (nonlinear_arith)
        requires
            0 <= x <= xb,
            0 <= y <= yb,
    {
    }
}

/// The interpolated component stays between its two endpoints.
pub proof fn lemma_lerp_in_bounds(a: int, b: int, n: int)
    requires
        0 <= a,
        0 <= b,
        0 <= n <= SCALE,
    ensures
        a <= b ==> a <= lerp_spec(a, b, n) <= b,
        b <= a ==> b <= lerp_spec(a, b, n) <= a,
{
    let s = SCALE as int;
    let num = a * (s - n) + b * n;
    if a <= b {
        assert(a * s <= num && num <= b * s) by (nonlinear_arith)
            requires
                0 <= a,
                a <= b,
                0 <= n <= s,
                num == a * (s - n) + b * n,
        {
        }
        lemma_div_is_ordered(a * s, num, s);
        lemma_div_is_ordered(num, b * s, s);
        lemma_div_by_multiple(a, s);
        lemma_div_by_multiple(b, s);
    }
    if b <= a {
        assert(b * s <= num && num <= a * s) by (nonlinear_arith)
            requires
                0 <= b,
                b <= a,
                0 <= n <= s,
                num == a * (s - n) + b * n,
        {
        }
        lemma_div_is_ordered(b * s, num, s);
        lemma_div_is_ordered(num, a * s, s);
        lemma_div_by_multiple(a, s);
        lemma_div_by_multiple(b, s);
    }
}

/// As the progress grows, the interpolated component moves weakly
/// monotonically from the first endpoint toward the second.
pub proof fn lemma_lerp_monotone(a: int, b: int, n1: int, n2: int)
    requires
        0 <= a,
        0 <= b,
        0 <= n1 <= n2 <= SCALE,
    ensures
        a <= b ==> lerp_spec(a, b, n1) <= lerp_spec(a, b, n2),
        b <= a ==> lerp_spec(a, b, n2) <= lerp_spec(a, b, n1),
{
    let s = SCALE as int;
    if a <= b {
        assert(a * (s - n1) + b * n1 <= a * (s - n2) + b * n2) by (nonlinear_arith)
            requires
                a <= b,
                0 <= n1 <= n2 <= s,
        {
        }
        lemma_div_is_ordered(a * (s - n1) + b * n1, a * (s - n2) + b * n2, s);
    }
    if b <= a {
        assert(a * (s - n2) + b * n2 <= a * (s - n1) + b * n1) by (nonlinear_arith)
            requires
                b <= a,
                0 <= n1 <= n2 <= s,
        {
        }
        lemma_div_is_ordered(a * (s - n2) + b * n2, a * (s - n1) + b * n1, s);
    }
}

/// Interpolating at progress 0 gives back the first endpoint exactly, and
/// at full progress the second.
pub proof fn lemma_lerp_endpoints(a: int, b: int)
    requires
        0 <= a,
        0 <= b,
    ensures
        lerp_spec(a, b, 0) == a,
        lerp_spec(a, b, SCALE as int) == b,
{
    let s = SCALE as int;
    assert(a * (s - 0) + b * 0 == a * s) by (nonlinear_arith) {
    }
    assert(a * (s - s) + b * s == b * s) by (nonlinear_arith) {
    }
    lemma_div_by_multiple(a, s);
    lemma_div_by_multiple(b, s);
}

/// Linear interpolation between two fixed-point component values.
pub fn lerp(a: u32, b: u32, value: UnitRatio) -> (r: u32)
    requires
        value.wf(),
    ensures
        r == lerp_spec(a as int, b as int, value.num as int),
        a <= b ==> a <= r <= b,
        b <= a ==> b <= r <= a,
{
    let inv: u32 = SCALE - value.num;
    proof {
        lemma_mul_bounds(a as int, inv as int, u32::MAX as int, SCALE as int);
        lemma_mul_bounds(b as int, value.num as int, u32::MAX as int, SCALE as int);
        lemma_lerp_in_bounds(a as int, b as int, value.num as int);
    }
    let num: u64 = (a as u64) * (inv as u64) + (b as u64) * (value.num as u64);
    let q: u64 = num / (SCALE as u64);
    q as u32
}

/// Blends two colors component-wise: lightness, chroma, hue and alpha are
/// each interpolated linearly by `mix_value`. Hue takes no shortest-path
/// correction around the hue circle.
pub fn mix(color_a: Lcha, color_b: Lcha, mix_value: UnitRatio) -> (r: Lcha)
    requires
        mix_value.wf(),
    ensures
        r == mix_spec(color_a, color_b, mix_value.num as int),
{
    let lightness = lerp(color_a.lightness, color_b.lightness, mix_value);
    let chroma = lerp(color_a.chroma, color_b.chroma, mix_value);
    let hue = lerp(color_a.hue, color_b.hue, mix_value);
    let alpha = lerp(color_a.alpha, color_b.alpha, mix_value);
    Lcha::new(lightness, chroma, hue, alpha)
}

/// Law: mixing two colors at progress 0 yields the first color exactly, and
/// mixing at full progress yields the second, component for component.
pub proof fn lemma_mix_endpoints(a: Lcha, b: Lcha)
    ensures
        mix_spec(a, b, 0) == a,
        mix_spec(a, b, SCALE as int) == b,
{
    lemma_lerp_endpoints(a.lightness as int, b.lightness as int);
    lemma_lerp_endpoints(a.chroma as int, b.chroma as int);
    lemma_lerp_endpoints(a.hue as int, b.hue as int);
    lemma_lerp_endpoints(a.alpha as int, b.alpha as int);
}

/// Law: along each component, the mixed color stays between the two input
/// colors.
pub proof fn lemma_mix_in_bounds(a: Lcha, b: Lcha, n: int)
    requires
        0 <= n <= SCALE,
    ensures
        a.lightness <= b.lightness ==> a.lightness <= mix_spec(a, b, n).lightness <= b.lightness,
        b.lightness <= a.lightness ==> b.lightness <= mix_spec(a, b, n).lightness <= a.lightness,
        a.chroma <= b.chroma ==> a.chroma <= mix_spec(a, b, n).chroma <= b.chroma,
        b.chroma <= a.chroma ==> b.chroma <= mix_spec(a, b, n).chroma <= a.chroma,
        a.hue <= b.hue ==> a.hue <= mix_spec(a, b, n).hue <= b.hue,
        b.hue <= a.hue ==> b.hue <= mix_spec(a, b, n).hue <= a.hue,
        a.alpha <= b.alpha ==> a.alpha <= mix_spec(a, b, n).alpha <= b.alpha,
        b.alpha <= a.alpha ==> b.alpha <= mix_spec(a, b, n).alpha <= a.alpha,
{
    lemma_lerp_in_bounds(a.lightness as int, b.lightness as int, n);
    lemma_lerp_in_bounds(a.chroma as int, b.chroma as int, n);
    lemma_lerp_in_bounds(a.hue as int, b.hue as int, n);
    lemma_lerp_in_bounds(a.alpha as int, b.alpha as int, n);
}

/// Law: along each component, the mixed color moves weakly monotonically
/// from the first color toward the second as the progress grows.
pub proof fn lemma_mix_monotone(a: Lcha, b: Lcha, n1: int, n2: int)
    requires
        0 <= n1 <= n2 <= SCALE,
    ensures
        a.lightness <= b.lightness ==> mix_spec(a, b, n1).lightness <= mix_spec(a, b, n2).lightness,
        b.lightness <= a.lightness ==> mix_spec(a, b, n2).lightness <= mix_spec(a, b, n1).lightness,
        a.chroma <= b.chroma ==> mix_spec(a, b, n1).chroma <= mix_spec(a, b, n2).chroma,
        b.chroma <= a.chroma ==> mix_spec(a, b, n2).chroma <= mix_spec(a, b, n1).chroma,
        a.hue <= b.hue ==> mix_spec(a, b, n1).hue <= mix_spec(a, b, n2).hue,
        b.hue <= a.hue ==> mix_spec(a, b, n2).hue <= mix_spec(a, b, n1).hue,
        a.alpha <= b.alpha ==> mix_spec(a, b, n1).alpha <= mix_spec(a, b, n2).alpha,
        b.alpha <= a.alpha ==> mix_spec(a, b, n2).alpha <= mix_spec(a, b, n1).alpha,
{
    lemma_lerp_in_bounds(a.lightness as int, b.lightness as int, n1);
    lemma_lerp_in_bounds(a.chroma as int, b.chroma as int, n1);
    lemma_lerp_in_bounds(a.hue as int, b.hue as int, n1);
    lemma_lerp_in_bounds(a.alpha as int, b.alpha as int, n1);
    lemma_lerp_in_bounds(a.lightness as int, b.lightness as int, n2);
    lemma_lerp_in_bounds(a.chroma as int, b.chroma as int, n2);
    lemma_lerp_in_bounds(a.hue as int, b.hue as int, n2);
    lemma_lerp_in_bounds(a.alpha as int, b.alpha as int, n2);
    lemma_lerp_monotone(a.lightness as int, b.lightness as int, n1, n2);
    lemma_lerp_monotone(a.chroma as int, b.chroma as int, n1, n2);
    lemma_lerp_monotone(a.hue as int, b.hue as int, n1, n2);
    lemma_lerp_monotone(a.alpha as int, b.alpha as int, n1, n2);
}

} // verus!
