//! The orbital camera: a view parameterized by target, yaw, pitch and
//! distance, and the left-handed view and projection matrices derived from it.

use vstd::prelude::*;
use crate::fixed::{
    FX_LIM, FX_ONE, clv, cos_sin, div_floor, fx_add, fx_clamp, fx_div, fx_mul, fx_sub,
    lemma_cos_sin_zero, lemma_fx_mul_unit, lemma_fx_mul_zero, lemma_fx_prod_bounds, sat64,
    sat_to_i64, spec_clamp, spec_cos_sin, spec_fx_div, spec_fx_mul,
};
use crate::vec3::{
    Vec3Fx, spec_v3_add, spec_v3_cross, spec_v3_dot, spec_v3_norm, spec_v3_normalize, spec_v3_sub,
    v3_add, v3_cross, v3_dot, v3_normalize, v3_sub,
};

verus! {

/// A vector of four fixed-point scalars, used for homogeneous coordinates.
#[derive(Clone, Copy, PartialEq, Eq, Structural, Debug)]
pub struct Vec4Fx {
    pub x: i64,
    pub y: i64,
    pub z: i64,
    pub w: i64,
}

/// A row-major 4x4 fixed-point matrix.
#[derive(Clone, Copy, PartialEq, Eq, Structural, Debug)]
pub struct Mat4Fx {
    pub r0: Vec4Fx,
    pub r1: Vec4Fx,
    pub r2: Vec4Fx,
    pub r3: Vec4Fx,
}

/// Fixed-point dot product of four-vectors, with components clamped into the
/// fixed-point domain first (a no-op for every vector this crate produces).
pub open spec fn spec_v4_dot(a: Vec4Fx, b: Vec4Fx) -> i64 {
    sat64(
        (clv(a.x) * clv(b.x) + clv(a.y) * clv(b.y) + clv(a.z) * clv(b.z) + clv(a.w) * clv(b.w))
            / (FX_ONE as int),
    )
}

/// Apply a row-major matrix to a column vector.
pub open spec fn spec_mat4_mul_vec(m: Mat4Fx, v: Vec4Fx) -> Vec4Fx {
    Vec4Fx {
        x: spec_v4_dot(m.r0, v),
        y: spec_v4_dot(m.r1, v),
        z: spec_v4_dot(m.r2, v),
        w: spec_v4_dot(m.r3, v),
    }
}

/// Fixed-point dot product of four-vectors.
pub fn v4_dot(a: Vec4Fx, b: Vec4Fx) -> (r: i64)
    ensures
        r == spec_v4_dot(a, b),
{
    let ax: i64 = fx_clamp(a.x, -FX_LIM, FX_LIM);
    let ay: i64 = fx_clamp(a.y, -FX_LIM, FX_LIM);
    let az: i64 = fx_clamp(a.z, -FX_LIM, FX_LIM);
    let aw: i64 = fx_clamp(a.w, -FX_LIM, FX_LIM);
    let bx: i64 = fx_clamp(b.x, -FX_LIM, FX_LIM);
    let by: i64 = fx_clamp(b.y, -FX_LIM, FX_LIM);
    let bz: i64 = fx_clamp(b.z, -FX_LIM, FX_LIM);
    let bw: i64 = fx_clamp(b.w, -FX_LIM, FX_LIM);
    proof {
        lemma_fx_prod_bounds(ax as int, bx as int);
        lemma_fx_prod_bounds(ay as int, by as int);
        lemma_fx_prod_bounds(az as int, bz as int);
        lemma_fx_prod_bounds(aw as int, bw as int);
    }
    let p: i128 = (ax as i128) * (bx as i128) + (ay as i128) * (by as i128) + (az as i128) * (
    bz as i128) + (aw as i128) * (bw as i128);
    let q: i128 = div_floor(p, FX_ONE as i128);
    sat_to_i64(q)
}

/// Apply a row-major matrix to a column vector.
pub fn mat4_mul_vec(m: &Mat4Fx, v: Vec4Fx) -> (r: Vec4Fx)
    ensures
        r == spec_mat4_mul_vec(*m, v),
{
    Vec4Fx {
        x: v4_dot(m.r0, v),
        y: v4_dot(m.r1, v),
        z: v4_dot(m.r2, v),
        w: v4_dot(m.r3, v),
    }
}

/// Lowest pitch a drag can reach: a tenth above minus a quarter turn.
pub const PITCH_MIN: i64 = -96389;

/// Highest pitch a drag can reach: a tenth below a quarter turn.
pub const PITCH_MAX: i64 = 96389;

/// Closest orbital distance (1.0).
pub const DISTANCE_MIN: i64 = 65536;

/// Farthest orbital distance (100.0).
pub const DISTANCE_MAX: i64 = 6553600;

/// A tenth in fixed point, the zoom sensitivity.
pub const FX_TENTH: i64 = 6554;

/// The orbital camera. All angles are fixed-point radians; all lengths are
/// fixed-point world units. The two mouse fields only bookkeep an ongoing
/// drag.
#[derive(Clone, Copy, Debug)]
pub struct Camera {
    pub position: Vec3Fx,
    pub target: Vec3Fx,
    pub up: Vec3Fx,
    pub fov: i64,
    pub aspect: i64,
    pub near: i64,
    pub far: i64,
    pub yaw: i64,
    pub pitch: i64,
    pub distance: i64,
    pub last_mouse_pos: Option<(i64, i64)>,
    pub is_rotating: bool,
}

/// The orbital position: `target + distance * (cos p cos y, sin p, cos p sin y)`.
pub open spec fn spec_orbit_position(target: Vec3Fx, yaw: i64, pitch: i64, distance: i64) -> Vec3Fx {
    let cy = spec_cos_sin(yaw as int).0;
    let sy = spec_cos_sin(yaw as int).1;
    let cp = spec_cos_sin(pitch as int).0;
    let sp = spec_cos_sin(pitch as int).1;
    let x = sat64(spec_fx_mul(distance as int, spec_fx_mul(cy as int, cp as int)));
    let y = sat64(spec_fx_mul(distance as int, sp as int));
    let z = sat64(spec_fx_mul(distance as int, spec_fx_mul(sy as int, cp as int)));
    spec_v3_add(target, Vec3Fx { x, y, z })
}

/// The camera after a drag update: offsets scaled by a hundredth, pitch
/// clamped into `[PITCH_MIN, PITCH_MAX]`, position recomputed, and the mouse
/// position remembered. Without an active drag only the mouse position
/// changes.
pub open spec fn spec_update_rotation(c: Camera, mx: i64, my: i64) -> Camera {
    if c.is_rotating && c.last_mouse_pos is Some {
        let last = c.last_mouse_pos->0;
        let lx = last.0;
        let ly = last.1;
        let dx = sat64(mx - lx);
        let dy = sat64(my - ly);
        let new_yaw = sat64(c.yaw - sat64(dx as int / 100));
        let new_pitch = sat64(
            spec_clamp(sat64(c.pitch - sat64(dy as int / 100)) as int, PITCH_MIN as int, PITCH_MAX as int),
        );
        Camera {
            yaw: new_yaw,
            pitch: new_pitch,
            position: spec_orbit_position(c.target, new_yaw, new_pitch, c.distance),
            last_mouse_pos: Some((mx, my)),
            ..c
        }
    } else {
        Camera { last_mouse_pos: Some((mx, my)), ..c }
    }
}

/// The camera after a zoom: distance scaled by `1 + delta / 10`, clamped into
/// `[DISTANCE_MIN, DISTANCE_MAX]`, position recomputed.
pub open spec fn spec_zoom(c: Camera, delta: i64) -> Camera {
    let factor = sat64(FX_ONE + spec_fx_mul(delta as int, FX_TENTH as int));
    let d = sat64(
        spec_clamp(
            spec_fx_mul(c.distance as int, factor as int),
            DISTANCE_MIN as int,
            DISTANCE_MAX as int,
        ),
    );
    Camera {
        distance: d,
        position: spec_orbit_position(c.target, c.yaw, c.pitch, d),
        ..c
    }
}

/// The left-handed look-at view matrix of a camera.
pub open spec fn spec_view_matrix(c: Camera) -> Mat4Fx {
    let f = spec_v3_normalize(spec_v3_sub(c.target, c.position));
    let s = spec_v3_normalize(spec_v3_cross(c.up, f));
    let u = spec_v3_cross(f, s);
    Mat4Fx {
        r0: Vec4Fx { x: s.x, y: s.y, z: s.z, w: sat64(-spec_v3_dot(s, c.position)) },
        r1: Vec4Fx { x: u.x, y: u.y, z: u.z, w: sat64(-spec_v3_dot(u, c.position)) },
        r2: Vec4Fx { x: f.x, y: f.y, z: f.z, w: sat64(-spec_v3_dot(f, c.position)) },
        r3: Vec4Fx { x: 0i64, y: 0i64, z: 0i64, w: FX_ONE },
    }
}

/// The left-handed perspective matrix of a camera. Degenerate parameters
/// (a field of view or aspect ratio that is not positive, or a far plane not
/// beyond the near plane) saturate deterministically instead of dividing by
/// zero.
pub open spec fn spec_projection_matrix(c: Camera) -> Mat4Fx {
    let half = sat64((c.fov as int) / 2);
    let ch = spec_cos_sin(half as int).0;
    let sh = spec_cos_sin(half as int).1;
    let h = if sh > 0 {
        sat64(spec_fx_div(ch as int, sh as int))
    } else {
        FX_LIM
    };
    let w = if c.aspect > 0 {
        sat64(spec_fx_div(h as int, c.aspect as int))
    } else {
        h
    };
    let zr = sat64(c.far - c.near);
    let zf = if zr > 0 {
        sat64(spec_fx_div(c.far as int, zr as int))
    } else {
        FX_LIM
    };
    let zb = sat64(-spec_fx_mul(zf as int, c.near as int));
    Mat4Fx {
        r0: Vec4Fx { x: w, y: 0i64, z: 0i64, w: 0i64 },
        r1: Vec4Fx { x: 0i64, y: h, z: 0i64, w: 0i64 },
        r2: Vec4Fx { x: 0i64, y: 0i64, z: zf, w: zb },
        r3: Vec4Fx { x: 0i64, y: 0i64, z: FX_ONE, w: 0i64 },
    }
}

impl Camera {
    /// A camera ten units from the origin, slightly above it, with a
    /// 45-degree field of view.
    pub fn new(aspect: i64) -> (r: Camera)
        ensures
            r.position == (Vec3Fx { x: 0i64, y: 327680i64, z: 655360i64 }),
            r.target == (Vec3Fx { x: 0i64, y: 0i64, z: 0i64 }),
            r.up == (Vec3Fx { x: 0i64, y: FX_ONE, z: 0i64 }),
            r.fov == 51471i64,
            r.aspect == aspect,
            r.near == 6554i64,
            r.far == 65536000i64,
            r.yaw == 0i64,
            r.pitch == -19661i64,
            r.distance == 655360i64,
            r.last_mouse_pos is None,
            !r.is_rotating,
    {
        Camera {
            position: Vec3Fx { x: 0, y: 327680, z: 655360 },
            target: Vec3Fx { x: 0, y: 0, z: 0 },
            up: Vec3Fx { x: 0, y: FX_ONE, z: 0 },
            fov: 51471,  // 45 degrees in fixed-point radians
            aspect,
            near: 6554,  // 0.1
            far: 65536000,  // 1000.0
            yaw: 0,
            pitch: -19661,  // -0.3
            distance: 655360,  // 10.0
            last_mouse_pos: None,
            is_rotating: false,
        }
    }

    /// The left-handed look-at view matrix.
    pub fn view_matrix(&self) -> (m: Mat4Fx)
        ensures
            m == spec_view_matrix(*self),
    {
        let f: Vec3Fx = v3_normalize(v3_sub(self.target, self.position));
        let s: Vec3Fx = v3_normalize(v3_cross(self.up, f));
        let u: Vec3Fx = v3_cross(f, s);
        Mat4Fx {
            r0: Vec4Fx { x: s.x, y: s.y, z: s.z, w: fx_sub(0, v3_dot(s, self.position)) },
            r1: Vec4Fx { x: u.x, y: u.y, z: u.z, w: fx_sub(0, v3_dot(u, self.position)) },
            r2: Vec4Fx { x: f.x, y: f.y, z: f.z, w: fx_sub(0, v3_dot(f, self.position)) },
            r3: Vec4Fx { x: 0, y: 0, z: 0, w: FX_ONE },
        }
    }

    /// The left-handed perspective matrix.
    pub fn projection_matrix(&self) -> (m: Mat4Fx)
        ensures
            m == spec_projection_matrix(*self),
    {
        let half: i64 = sat_to_i64(div_floor(self.fov as i128, 2));
        let cs: (i64, i64) = cos_sin(half);
        let h: i64 = if cs.1 > 0 {
            fx_div(cs.0, cs.1)
        } else {
            FX_LIM
        };
        let w: i64 = if self.aspect > 0 {
            fx_div(h, self.aspect)
        } else {
            h
        };
        let zr: i64 = fx_sub(self.far, self.near);
        let zf: i64 = if zr > 0 {
            fx_div(self.far, zr)
        } else {
            FX_LIM
        };
        let zb: i64 = fx_sub(0, fx_mul(zf, self.near));
        Mat4Fx {
            r0: Vec4Fx { x: w, y: 0, z: 0, w: 0 },
            r1: Vec4Fx { x: 0, y: h, z: 0, w: 0 },
            r2: Vec4Fx { x: 0, y: 0, z: zf, w: zb },
            r3: Vec4Fx { x: 0, y: 0, z: FX_ONE, w: 0 },
        }
    }

    /// Recompute the orbital position from target, yaw, pitch and distance.
    pub fn update_from_angles(&mut self)
        ensures
            final(self).position == spec_orbit_position(
                old(self).target,
                old(self).yaw,
                old(self).pitch,
                old(self).distance,
            ),
            *final(self) == (Camera { position: final(self).position, ..*old(self) }),
    {
        let cs_y: (i64, i64) = cos_sin(self.yaw);
        let cs_p: (i64, i64) = cos_sin(self.pitch);
        let x: i64 = fx_mul(self.distance, fx_mul(cs_y.0, cs_p.0));
        let y: i64 = fx_mul(self.distance, cs_p.1);
        let z: i64 = fx_mul(self.distance, fx_mul(cs_y.1, cs_p.0));
        self.position = v3_add(self.target, Vec3Fx { x, y, z });
    }

    /// Begin a drag at the given cursor position.
    pub fn start_rotation(&mut self, mx: i64, my: i64)
        ensures
            *final(self) == (Camera {
                is_rotating: true,
                last_mouse_pos: Some((mx, my)),
                ..*old(self)
            }),
    {
        self.is_rotating = true;
        self.last_mouse_pos = Some((mx, my));
    }

    /// End the drag.
    pub fn stop_rotation(&mut self)
        ensures
            *final(self) == (Camera { is_rotating: false, last_mouse_pos: None, ..*old(self) }),
    {
        self.is_rotating = false;
        self.last_mouse_pos = None;
    }

    /// Apply a drag update at the given cursor position.
    pub fn update_rotation(&mut self, mx: i64, my: i64)
        ensures
            *final(self) == spec_update_rotation(*old(self), mx, my),
    {
        let active: bool = self.is_rotating;
        match self.last_mouse_pos {
            Some(last) => {
                if active {
                    let dx: i64 = fx_sub(mx, last.0);
                    let dy: i64 = fx_sub(my, last.1);
                    let yaw_step: i64 = sat_to_i64(div_floor(dx as i128, 100));
                    let pitch_step: i64 = sat_to_i64(div_floor(dy as i128, 100));
                    self.yaw = fx_sub(self.yaw, yaw_step);
                    self.pitch = fx_clamp(fx_sub(self.pitch, pitch_step), PITCH_MIN, PITCH_MAX);
                    self.update_from_angles();
                }
            },
            None => {},
        }
        self.last_mouse_pos = Some((mx, my));
    }

    /// Apply a zoom step.
    pub fn zoom(&mut self, delta: i64)
        ensures
            *final(self) == spec_zoom(*old(self), delta),
    {
        let factor: i64 = fx_add(FX_ONE, fx_mul(delta, FX_TENTH));
        let d: i64 = fx_clamp(fx_mul(self.distance, factor), DISTANCE_MIN, DISTANCE_MAX);
        self.distance = d;
        self.update_from_angles();
    }

    /// Change the aspect ratio.
    pub fn set_aspect_ratio(&mut self, aspect: i64)
        ensures
            *final(self) == (Camera { aspect, ..*old(self) }),
    {
        self.aspect = aspect;
    }
}

/// A camera looking straight down the X axis (yaw and pitch both zero, the
/// position derived from the orbit) has an exactly axis-aligned view matrix.
pub proof fn lemma_view_matrix_centered(c: Camera)
    requires
        c.yaw == 0,
        c.pitch == 0,
        FX_ONE <= c.distance <= FX_LIM,
        c.up == (Vec3Fx { x: 0i64, y: FX_ONE, z: 0i64 }),
        c.target.well_bounded(),
        c.target.x + c.distance <= FX_LIM,
        c.position == spec_orbit_position(c.target, 0i64, 0i64, c.distance),
    ensures
        spec_view_matrix(c) == (Mat4Fx {
            r0: Vec4Fx { x: 0i64, y: 0i64, z: FX_ONE, w: (-c.target.z) as i64 },
            r1: Vec4Fx { x: 0i64, y: FX_ONE, z: 0i64, w: (-c.target.y) as i64 },
            r2: Vec4Fx { x: (-FX_ONE) as i64, y: 0i64, z: 0i64, w: (c.target.x + c.distance) as i64 },
            r3: Vec4Fx { x: 0i64, y: 0i64, z: 0i64, w: FX_ONE },
        }),
{
    let t = c.target;
    let d = c.distance;
    lemma_cos_sin_zero();
    lemma_fx_mul_unit(FX_ONE as int);
    lemma_fx_mul_unit(d as int);
    lemma_fx_mul_zero(d as int);
    assert(c.position == Vec3Fx { x: (t.x + d) as i64, y: t.y, z: t.z });
    let sub = spec_v3_sub(t, c.position);
    assert(sub == Vec3Fx { x: (-(d as int)) as i64, y: 0i64, z: 0i64 });
    crate::vec3::lemma_neg_x_normalize(d);
    let f = spec_v3_normalize(sub);
    assert(f == Vec3Fx { x: (-FX_ONE) as i64, y: 0i64, z: 0i64 });
    crate::vec3::lemma_axis_frame();
    let s = spec_v3_normalize(spec_v3_cross(c.up, f));
    assert(s == Vec3Fx { x: 0i64, y: 0i64, z: FX_ONE });
    let u = spec_v3_cross(f, s);
    assert(u == Vec3Fx { x: 0i64, y: FX_ONE, z: 0i64 });
    let eye = c.position;
    assert(eye.well_bounded());
    crate::vec3::lemma_dot_axes(eye);
    assert(spec_v3_dot(s, eye) == t.z);
    assert(spec_v3_dot(u, eye) == t.y);
    assert(spec_v3_dot(f, eye) as int == -(t.x as int + d as int));
}

/// Pitch clamping: whenever a drag would push the raw pitch to `PITCH_MIN` or
/// below, the updated pitch is exactly `PITCH_MIN`; in particular, once the
/// pitch sits at `PITCH_MIN`, any further downward drag leaves it there.
pub proof fn lemma_pitch_clamp(c: Camera, mx: i64, my: i64)
    requires
        c.is_rotating,
        c.last_mouse_pos is Some,
        sat64(c.pitch - sat64(sat64(my - (c.last_mouse_pos->0).1) as int / 100) as int) as int
            <= PITCH_MIN,
    ensures
        spec_update_rotation(c, mx, my).pitch == PITCH_MIN,
{
}

/// Once the pitch sits at the clamp floor, dragging further down never moves
/// it: the clamped state is absorbing.
pub proof fn lemma_pitch_clamp_absorbing(c: Camera, mx: i64, my: i64)
    requires
        c.is_rotating,
        c.last_mouse_pos is Some,
        c.pitch == PITCH_MIN,
        my >= (c.last_mouse_pos->0).1,
    ensures
        spec_update_rotation(c, mx, my).pitch == PITCH_MIN,
{
    let ly = (c.last_mouse_pos->0).1;
    let dy = sat64(my - ly);
    assert(dy >= 0);
    vstd::arithmetic::div_mod::lemma_div_pos_is_pos(dy as int, 100);
}

} // verus!
