//! Three-component vectors over saturating fixed-point scalars.

use vstd::prelude::*;
use crate::fixed::{
    FX_LIM, FX_ONE, clv, div_floor, fx_add, fx_clamp, fx_div, fx_mul, fx_ok, fx_sub, isqrt,
    lemma_fx_prod_bounds, lemma_isqrt_bounds, lemma_isqrt_unique, sat64, sat_to_i64, spec_fx_div,
    spec_fx_mul, spec_isqrt,
};

verus! {

/// A vector of three fixed-point scalars.
#[derive(Clone, Copy, PartialEq, Eq, Structural, Debug)]
pub struct Vec3Fx {
    pub x: i64,
    pub y: i64,
    pub z: i64,
}

/// Componentwise saturating addition.
pub open spec fn spec_v3_add(a: Vec3Fx, b: Vec3Fx) -> Vec3Fx {
    Vec3Fx {
        x: sat64(a.x + b.x),
        y: sat64(a.y + b.y),
        z: sat64(a.z + b.z),
    }
}

/// Componentwise saturating subtraction.
pub open spec fn spec_v3_sub(a: Vec3Fx, b: Vec3Fx) -> Vec3Fx {
    Vec3Fx {
        x: sat64(a.x - b.x),
        y: sat64(a.y - b.y),
        z: sat64(a.z - b.z),
    }
}

/// Componentwise saturating negation.
pub open spec fn spec_v3_neg(a: Vec3Fx) -> Vec3Fx {
    Vec3Fx { x: sat64(-a.x), y: sat64(-a.y), z: sat64(-a.z) }
}

/// Scale every component by the fixed-point scalar `s`.
pub open spec fn spec_v3_scale(a: Vec3Fx, s: i64) -> Vec3Fx {
    Vec3Fx {
        x: sat64(spec_fx_mul(a.x as int, s as int)),
        y: sat64(spec_fx_mul(a.y as int, s as int)),
        z: sat64(spec_fx_mul(a.z as int, s as int)),
    }
}

/// Fixed-point dot product. Stored components are first clamped into the
/// fixed-point domain (a no-op for every vector this crate produces).
pub open spec fn spec_v3_dot(a: Vec3Fx, b: Vec3Fx) -> i64 {
    sat64((clv(a.x) * clv(b.x) + clv(a.y) * clv(b.y) + clv(a.z) * clv(b.z)) / (FX_ONE as int))
}

/// Fixed-point cross product, with the same clamping as the dot product.
pub open spec fn spec_v3_cross(a: Vec3Fx, b: Vec3Fx) -> Vec3Fx {
    Vec3Fx {
        x: sat64((clv(a.y) * clv(b.z) - clv(a.z) * clv(b.y)) / (FX_ONE as int)),
        y: sat64((clv(a.z) * clv(b.x) - clv(a.x) * clv(b.z)) / (FX_ONE as int)),
        z: sat64((clv(a.x) * clv(b.y) - clv(a.y) * clv(b.x)) / (FX_ONE as int)),
    }
}

/// Fixed-point Euclidean length: the floor square root of the sum of the
/// squared (clamped) components.
pub open spec fn spec_v3_norm(a: Vec3Fx) -> i64 {
    sat64(spec_isqrt(clv(a.x) * clv(a.x) + clv(a.y) * clv(a.y) + clv(a.z) * clv(a.z)))
}

/// Scale a vector to unit length; the zero vector is returned unchanged.
pub open spec fn spec_v3_normalize(a: Vec3Fx) -> Vec3Fx {
    let n = spec_v3_norm(a);
    if n <= 0 {
        a
    } else {
        Vec3Fx {
            x: sat64(spec_fx_div(a.x as int, n as int)),
            y: sat64(spec_fx_div(a.y as int, n as int)),
            z: sat64(spec_fx_div(a.z as int, n as int)),
        }
    }
}

impl Vec3Fx {
    /// Build a vector from its components.
    pub fn new(x: i64, y: i64, z: i64) -> (r: Vec3Fx)
        ensures
            r == (Vec3Fx { x, y, z }),
    {
        Vec3Fx { x, y, z }
    }

    /// The zero vector.
    pub fn zero() -> (r: Vec3Fx)
        ensures
            r == (Vec3Fx { x: 0i64, y: 0i64, z: 0i64 }),
    {
        Vec3Fx { x: 0, y: 0, z: 0 }
    }

    /// All components lie in the fixed-point domain.
    pub open spec fn well_bounded(self) -> bool {
        fx_ok(self.x as int) && fx_ok(self.y as int) && fx_ok(self.z as int)
    }
}

/// Componentwise saturating addition.
pub fn v3_add(a: Vec3Fx, b: Vec3Fx) -> (r: Vec3Fx)
    ensures
        r == spec_v3_add(a, b),
        r.well_bounded(),
{
    Vec3Fx { x: fx_add(a.x, b.x), y: fx_add(a.y, b.y), z: fx_add(a.z, b.z) }
}

/// Componentwise saturating subtraction.
pub fn v3_sub(a: Vec3Fx, b: Vec3Fx) -> (r: Vec3Fx)
    ensures
        r == spec_v3_sub(a, b),
        r.well_bounded(),
{
    Vec3Fx { x: fx_sub(a.x, b.x), y: fx_sub(a.y, b.y), z: fx_sub(a.z, b.z) }
}

/// Componentwise saturating negation.
pub fn v3_neg(a: Vec3Fx) -> (r: Vec3Fx)
    ensures
        r == spec_v3_neg(a),
        r.well_bounded(),
{
    Vec3Fx { x: fx_sub(0, a.x), y: fx_sub(0, a.y), z: fx_sub(0, a.z) }
}

/// Scale every component by the fixed-point scalar `s`.
pub fn v3_scale(a: Vec3Fx, s: i64) -> (r: Vec3Fx)
    ensures
        r == spec_v3_scale(a, s),
        r.well_bounded(),
{
    Vec3Fx { x: fx_mul(a.x, s), y: fx_mul(a.y, s), z: fx_mul(a.z, s) }
}

/// Fixed-point dot product.
pub fn v3_dot(a: Vec3Fx, b: Vec3Fx) -> (r: i64)
    ensures
        r == spec_v3_dot(a, b),
        fx_ok(r as int),
{
    let ax: i64 = fx_clamp(a.x, -FX_LIM, FX_LIM);
    let ay: i64 = fx_clamp(a.y, -FX_LIM, FX_LIM);
    let az: i64 = fx_clamp(a.z, -FX_LIM, FX_LIM);
    let bx: i64 = fx_clamp(b.x, -FX_LIM, FX_LIM);
    let by: i64 = fx_clamp(b.y, -FX_LIM, FX_LIM);
    let bz: i64 = fx_clamp(b.z, -FX_LIM, FX_LIM);
    proof {
        lemma_fx_prod_bounds(ax as int, bx as int);
        lemma_fx_prod_bounds(ay as int, by as int);
        lemma_fx_prod_bounds(az as int, bz as int);
    }
    let p: i128 = (ax as i128) * (bx as i128) + (ay as i128) * (by as i128) + (az as i128) * (
    bz as i128);
    let q: i128 = div_floor(p, FX_ONE as i128);
    sat_to_i64(q)
}

/// One component of the cross product: `(p - q) / FX_ONE`, saturated.
fn cross_part(p0: i64, p1: i64, q0: i64, q1: i64) -> (r: i64)
    requires
        fx_ok(p0 as int),
        fx_ok(p1 as int),
        fx_ok(q0 as int),
        fx_ok(q1 as int),
    ensures
        r == sat64((p0 * p1 - q0 * q1) / (FX_ONE as int)),
{
    proof {
        lemma_fx_prod_bounds(p0 as int, p1 as int);
        lemma_fx_prod_bounds(q0 as int, q1 as int);
    }
    let p: i128 = (p0 as i128) * (p1 as i128) - (q0 as i128) * (q1 as i128);
    let q: i128 = div_floor(p, FX_ONE as i128);
    sat_to_i64(q)
}

/// Fixed-point cross product.
pub fn v3_cross(a: Vec3Fx, b: Vec3Fx) -> (r: Vec3Fx)
    ensures
        r == spec_v3_cross(a, b),
        r.well_bounded(),
{
    let ax: i64 = fx_clamp(a.x, -FX_LIM, FX_LIM);
    let ay: i64 = fx_clamp(a.y, -FX_LIM, FX_LIM);
    let az: i64 = fx_clamp(a.z, -FX_LIM, FX_LIM);
    let bx: i64 = fx_clamp(b.x, -FX_LIM, FX_LIM);
    let by: i64 = fx_clamp(b.y, -FX_LIM, FX_LIM);
    let bz: i64 = fx_clamp(b.z, -FX_LIM, FX_LIM);
    Vec3Fx {
        x: cross_part(ay, bz, az, by),
        y: cross_part(az, bx, ax, bz),
        z: cross_part(ax, by, ay, bx),
    }
}

/// Fixed-point Euclidean length.
pub fn v3_norm(a: Vec3Fx) -> (r: i64)
    ensures
        r == spec_v3_norm(a),
        0 <= r <= FX_LIM,
{
    let ax: i64 = fx_clamp(a.x, -FX_LIM, FX_LIM);
    let ay: i64 = fx_clamp(a.y, -FX_LIM, FX_LIM);
    let az: i64 = fx_clamp(a.z, -FX_LIM, FX_LIM);
    proof {
        lemma_fx_prod_bounds(ax as int, ax as int);
        lemma_fx_prod_bounds(ay as int, ay as int);
        lemma_fx_prod_bounds(az as int, az as int);
        assert(ax as int * ax as int >= 0) by (nonlinear_arith);
        assert(ay as int * ay as int >= 0) by (nonlinear_arith);
        assert(az as int * az as int >= 0) by (nonlinear_arith);
    }
    let sq: i128 = (ax as i128) * (ax as i128) + (ay as i128) * (ay as i128) + (az as i128) * (
    az as i128);
    let root: u128 = isqrt(sq as u128);
    proof {
        lemma_isqrt_bounds(sq as int);
        assert(spec_isqrt(sq as int) * spec_isqrt(sq as int) <= sq as int);
        assert(spec_isqrt(sq as int) <= 281474976710657int) by (nonlinear_arith)
            requires
                spec_isqrt(sq as int) >= 0,
                spec_isqrt(sq as int) * spec_isqrt(sq as int) <= sq as int,
                sq as int <= 59421121885698253195157962752int;
    }
    sat_to_i64(root as i128)
}

/// A vector of magnitude `d` along the negative X axis normalizes to the
/// negative X unit vector.
pub proof fn lemma_neg_x_normalize(d: i64)
    requires
        FX_ONE <= d <= FX_LIM,
    ensures
        spec_v3_norm(Vec3Fx { x: (-(d as int)) as i64, y: 0i64, z: 0i64 }) == d,
        spec_v3_normalize(Vec3Fx { x: (-(d as int)) as i64, y: 0i64, z: 0i64 }) == (Vec3Fx {
            x: (-FX_ONE) as i64,
            y: 0i64,
            z: 0i64,
        }),
{
    let v = Vec3Fx { x: (-(d as int)) as i64, y: 0i64, z: 0i64 };
    assert(clv(v.x) * clv(v.x) + clv(v.y) * clv(v.y) + clv(v.z) * clv(v.z) == (d as int) * (
    d as int)) by (nonlinear_arith)
        requires
            clv(v.x) == -(d as int),
            clv(v.y) == 0,
            clv(v.z) == 0;
    assert((d as int) * (d as int) < ((d as int) + 1) * ((d as int) + 1)) by (nonlinear_arith)
        requires
            d as int >= 0;
    lemma_isqrt_unique((d as int) * (d as int), d as int);
    assert(spec_v3_norm(v) == d);
    assert((-(d as int)) * (FX_ONE as int) == (-(FX_ONE as int)) * (d as int))
        by (nonlinear_arith);
    crate::fixed::lemma_mul_div_cancel(-(FX_ONE as int), d as int);
    assert(0int * (FX_ONE as int) == 0) by (nonlinear_arith);
    vstd::arithmetic::div_mod::lemma_div_of0(d as int);
}

/// The cross products and normalization of the axis-aligned frame a centered
/// camera uses: minus X forward, plus Y up, plus Z to the side.
pub proof fn lemma_axis_frame()
    ensures
        spec_v3_cross(
            Vec3Fx { x: 0i64, y: FX_ONE, z: 0i64 },
            Vec3Fx { x: (-FX_ONE) as i64, y: 0i64, z: 0i64 },
        ) == (Vec3Fx { x: 0i64, y: 0i64, z: FX_ONE }),
        spec_v3_normalize(Vec3Fx { x: 0i64, y: 0i64, z: FX_ONE }) == (Vec3Fx {
            x: 0i64,
            y: 0i64,
            z: FX_ONE,
        }),
        spec_v3_cross(
            Vec3Fx { x: (-FX_ONE) as i64, y: 0i64, z: 0i64 },
            Vec3Fx { x: 0i64, y: 0i64, z: FX_ONE },
        ) == (Vec3Fx { x: 0i64, y: FX_ONE, z: 0i64 }),
{
    let one = FX_ONE as int;
    assert(clv(FX_ONE) == one);
    assert(clv((-FX_ONE) as i64) == -one);
    assert(clv(0i64) == 0);
    assert(one * 0 == 0 && 0 * one == 0 && 0 * 0 == 0 && 0 * (-one) == 0 && (-one) * 0 == 0
        && one * (-one) == -(one * one) && (-one) * one == -(one * one) && one * one == one
        * one) by (nonlinear_arith);
    crate::fixed::lemma_mul_div_cancel(one, one);
    vstd::arithmetic::div_mod::lemma_div_of0(one);
    assert((one * one) < (one + 1) * (one + 1)) by (nonlinear_arith)
        requires
            one > 0;
    lemma_isqrt_unique(one * one, one);
    assert(spec_v3_norm(Vec3Fx { x: 0i64, y: 0i64, z: FX_ONE }) == FX_ONE);
}

/// Dotting with an axis unit vector picks out one component, negated for the
/// negative axis.
pub proof fn lemma_dot_axes(v: Vec3Fx)
    requires
        v.well_bounded(),
    ensures
        spec_v3_dot(Vec3Fx { x: 0i64, y: 0i64, z: FX_ONE }, v) == v.z,
        spec_v3_dot(Vec3Fx { x: 0i64, y: FX_ONE, z: 0i64 }, v) == v.y,
        spec_v3_dot(Vec3Fx { x: (-FX_ONE) as i64, y: 0i64, z: 0i64 }, v) as int == -(
        v.x as int),
{
    let one = FX_ONE as int;
    assert(0 * clv(v.x) == 0 && 0 * clv(v.y) == 0 && 0 * clv(v.z) == 0) by (nonlinear_arith);
    assert(one * clv(v.z) == clv(v.z) * one) by (nonlinear_arith);
    assert(one * clv(v.y) == clv(v.y) * one) by (nonlinear_arith);
    assert((-one) * clv(v.x) == (-clv(v.x)) * one) by (nonlinear_arith);
    crate::fixed::lemma_mul_div_cancel(clv(v.z), one);
    crate::fixed::lemma_mul_div_cancel(clv(v.y), one);
    crate::fixed::lemma_mul_div_cancel(-clv(v.x), one);
}

/// Scale a vector to unit length; the zero vector is returned unchanged.
pub fn v3_normalize(a: Vec3Fx) -> (r: Vec3Fx)
    ensures
        r == spec_v3_normalize(a),
{
    let n: i64 = v3_norm(a);
    if n <= 0 {
        a
    } else {
        Vec3Fx { x: fx_div(a.x, n), y: fx_div(a.y, n), z: fx_div(a.z, n) }
    }
}

} // verus!
