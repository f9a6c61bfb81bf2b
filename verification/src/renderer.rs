//! The software line renderer: stores a frame's segments, projects their
//! endpoints through the camera's view and projection matrices, and
//! rasterizes them into a packed 32-bit pixel buffer with a depth test.

use vstd::prelude::*;
use crate::LsysError;
use crate::camera::{
    Camera, Mat4Fx, Vec4Fx, mat4_mul_vec, spec_mat4_mul_vec, spec_projection_matrix,
    spec_view_matrix,
};
use crate::fixed::{
    FX_HALF, FX_LIM, FX_ONE, clv, div_floor, divu, fx_clamp, fx_div, fx_ok, lemma_div_shrinks,
    lemma_mul_div_bound, lemma_prod_bound, sat64, sat_to_i64, spec_clamp, spec_fx_div,
};
use crate::vec3::Vec3Fx;

verus! {

/// The background color written by `clear`: a dark blue, packed `0x00RRGGBB`.
pub const BACKGROUND_COLOR: u32 = 0x000020;

/// The depth value meaning "nothing here yet": the greatest `i64`, standing
/// in for positive infinity.
pub const DEPTH_INF: i64 = 9223372036854775807;

/// One endpoint of a segment: a world position and a color, both fixed point
/// (color components are intensities in `[0, FX_ONE]`).
#[derive(Clone, Copy, PartialEq, Eq, Structural, Debug)]
pub struct Vertex {
    pub position: Vec3Fx,
    pub color: Vec3Fx,
}

impl Vertex {
    /// Build a vertex.
    pub fn new(position: Vec3Fx, color: Vec3Fx) -> (r: Vertex)
        ensures
            r == (Vertex { position, color }),
    {
        Vertex { position, color }
    }
}

/// A line segment owned by the renderer for the duration of one frame.
#[derive(Clone, Copy, PartialEq, Eq, Structural, Debug)]
pub struct Line {
    pub start: Vertex,
    pub end: Vertex,
    pub thickness: i64,
}

impl Line {
    /// A segment of unit thickness.
    pub fn new(start: Vertex, end: Vertex) -> (r: Line)
        ensures
            r == (Line { start, end, thickness: FX_ONE }),
    {
        Line { start, end, thickness: FX_ONE }
    }

    /// A segment with an explicit fixed-point thickness.
    pub fn new_with_thickness(start: Vertex, end: Vertex, thickness: i64) -> (r: Line)
        ensures
            r == (Line { start, end, thickness }),
    {
        Line { start, end, thickness }
    }
}

/// One fragment: a candidate write of `color` at pixel `(px, py)` with depth
/// `z`. Purely a specification-level notion.
pub struct Frag {
    pub px: int,
    pub py: int,
    pub z: i64,
    pub color: u32,
}

/// Write one fragment: inside the buffer rectangle and strictly nearer than
/// the stored depth, the pixel and its depth are replaced; otherwise nothing
/// changes. Fragments outside the rectangle are never written.
pub open spec fn spec_put_frag(pix: Seq<u32>, dep: Seq<i64>, w: int, h: int, f: Frag) -> (
    Seq<u32>,
    Seq<i64>,
) {
    let i = f.py * w + f.px;
    if 0 <= f.px < w && 0 <= f.py < h && 0 <= i < pix.len() && i < dep.len() {
        if f.z < dep[i] {
            (pix.update(i, f.color), dep.update(i, f.z))
        } else {
            (pix, dep)
        }
    } else {
        (pix, dep)
    }
}

/// Write a sequence of fragments in order.
pub open spec fn spec_put_frags(pix: Seq<u32>, dep: Seq<i64>, w: int, h: int, fs: Seq<Frag>) -> (
    Seq<u32>,
    Seq<i64>,
)
    decreases fs.len(),
{
    if fs.len() == 0 {
        (pix, dep)
    } else {
        let prev = spec_put_frags(pix, dep, w, h, fs.drop_last());
        spec_put_frag(prev.0, prev.1, w, h, fs.last())
    }
}

/// Writing a concatenation is writing the two halves in turn.
pub proof fn lemma_put_frags_append(
    pix: Seq<u32>,
    dep: Seq<i64>,
    w: int,
    h: int,
    a: Seq<Frag>,
    b: Seq<Frag>,
)
    ensures
        spec_put_frags(pix, dep, w, h, a + b) == {
            let mid = spec_put_frags(pix, dep, w, h, a);
            spec_put_frags(mid.0, mid.1, w, h, b)
        },
    decreases b.len(),
{
    if b.len() == 0 {
        assert(a + b =~= a);
    } else {
        lemma_put_frags_append(pix, dep, w, h, a, b.drop_last());
        assert((a + b).drop_last() =~= a + b.drop_last());
        assert((a + b).last() == b.last());
    }
}

/// One packed color channel: the intensity clamped into `[0, FX_ONE]`, scaled
/// to `[0, 255]`.
pub open spec fn spec_channel(c: int) -> int {
    spec_clamp(c, 0, FX_ONE as int) * 255 / (FX_ONE as int)
}

/// Pack three fixed-point intensities as `0x00RRGGBB`.
pub open spec fn spec_pack(r: int, g: int, b: int) -> u32 {
    (spec_channel(r) * 65536 + spec_channel(g) * 256 + spec_channel(b)) as u32
}

/// A packed channel lies in `[0, 255]`.
pub proof fn lemma_channel_range(c: int)
    ensures
        0 <= spec_channel(c) <= 255,
{
    let cl = spec_clamp(c, 0, FX_ONE as int);
    vstd::arithmetic::div_mod::lemma_div_pos_is_pos(cl * 255, FX_ONE as int);
    vstd::arithmetic::div_mod::lemma_div_is_ordered(cl * 255, 255 * (FX_ONE as int), FX_ONE as int);
    vstd::arithmetic::div_mod::lemma_div_by_multiple(255, FX_ONE as int);
}

/// One packed color channel.
fn channel(c: i128) -> (r: u32)
    ensures
        r == spec_channel(c as int),
{
    let cl: i128 = if c < 0 {
        0
    } else if c > FX_ONE as i128 {
        FX_ONE as i128
    } else {
        c
    };
    proof {
        lemma_channel_range(c as int);
    }
    let q: i128 = div_floor(cl * 255, FX_ONE as i128);
    q as u32
}

/// Pack three fixed-point intensities as `0x00RRGGBB`.
fn pack(r: i128, g: i128, b: i128) -> (c: u32)
    ensures
        c == spec_pack(r as int, g as int, b as int),
{
    let cr: u32 = channel(r);
    let cg: u32 = channel(g);
    let cb: u32 = channel(b);
    proof {
        lemma_channel_range(r as int);
        lemma_channel_range(g as int);
        lemma_channel_range(b as int);
    }
    cr * 65536 + cg * 256 + cb
}

/// The renderer: the current segment list and the pixel and depth buffers,
/// row-major with the origin in the upper left.
#[derive(Debug)]
pub struct Renderer {
    lines: Vec<Line>,
    width: usize,
    height: usize,
    buffer: Vec<u32>,
    depth_buffer: Vec<i64>,
}

impl Renderer {
    /// The stored segments.
    pub closed spec fn spec_lines(self) -> Seq<Line> {
        self.lines@
    }

    /// The pixel buffer.
    pub closed spec fn spec_pixels(self) -> Seq<u32> {
        self.buffer@
    }

    /// The depth buffer.
    pub closed spec fn spec_depths(self) -> Seq<i64> {
        self.depth_buffer@
    }

    /// Buffer width in pixels.
    pub closed spec fn spec_width(self) -> int {
        self.width as int
    }

    /// Buffer height in pixels.
    pub closed spec fn spec_height(self) -> int {
        self.height as int
    }

    /// Both buffers hold exactly width times height entries.
    pub open spec fn wf(self) -> bool {
        self.spec_pixels().len() == self.spec_width() * self.spec_height()
            && self.spec_depths().len() == self.spec_width() * self.spec_height()
    }

    /// Allocate a renderer; a zero-area buffer is rejected.
    pub fn new(width: usize, height: usize) -> (r: Result<Renderer, LsysError>)
        requires
            width * height <= usize::MAX,
        ensures
            match r {
                Ok(rr) => {
                    &&& width > 0 && height > 0
                    &&& rr.wf()
                    &&& rr.spec_width() == width
                    &&& rr.spec_height() == height
                    &&& rr.spec_lines().len() == 0
                    &&& forall|i: int|
                        0 <= i < rr.spec_pixels().len() ==> rr.spec_pixels()[i] == 0u32
                    &&& forall|i: int|
                        0 <= i < rr.spec_depths().len() ==> rr.spec_depths()[i] == DEPTH_INF
                },
                Err(e) => e == LsysError::ZeroArea && (width == 0 || height == 0),
            },
    {
        if width == 0 || height == 0 {
            return Err(LsysError::ZeroArea);
        }
        let n: usize = width * height;
        Ok(
            Renderer {
                lines: Vec::new(),
                width,
                height,
                buffer: vec![0u32; n],
                depth_buffer: vec![DEPTH_INF; n],
            },
        )
    }

    /// Fill the pixel buffer with the background color, reset every depth to
    /// infinity, and discard the segment list.
    pub fn clear(&mut self)
        requires
            old(self).wf(),
        ensures
            final(self).wf(),
            final(self).spec_width() == old(self).spec_width(),
            final(self).spec_height() == old(self).spec_height(),
            final(self).spec_lines().len() == 0,
            final(self).spec_pixels().len() == old(self).spec_pixels().len(),
            final(self).spec_depths().len() == old(self).spec_depths().len(),
            forall|i: int|
                0 <= i < final(self).spec_pixels().len() ==> final(self).spec_pixels()[i]
                    == BACKGROUND_COLOR,
            forall|i: int|
                0 <= i < final(self).spec_depths().len() ==> final(self).spec_depths()[i]
                    == DEPTH_INF,
    {
        let n: usize = self.buffer.len();
        self.buffer = vec![BACKGROUND_COLOR; n];
        let m: usize = self.depth_buffer.len();
        self.depth_buffer = vec![DEPTH_INF; m];
        self.lines.clear();
    }

    /// Append a segment to this frame's list.
    pub fn add_line(&mut self, line: Line)
        ensures
            final(self).spec_lines() == old(self).spec_lines().push(line),
            final(self).spec_pixels() == old(self).spec_pixels(),
            final(self).spec_depths() == old(self).spec_depths(),
            final(self).spec_width() == old(self).spec_width(),
            final(self).spec_height() == old(self).spec_height(),
            old(self).wf() ==> final(self).wf(),
    {
        self.lines.push(line);
    }

    /// A read-only view of the pixel buffer, row-major.
    pub fn get_buffer(&self) -> (r: &[u32])
        ensures
            r@ == self.spec_pixels(),
    {
        self.buffer.as_slice()
    }

    /// A read-only view of this frame's segment list.
    pub fn get_lines(&self) -> (r: &[Line])
        ensures
            r@ == self.spec_lines(),
    {
        self.lines.as_slice()
    }

    /// Reallocate both buffers at a new size, filled with the clear values;
    /// the segment list is kept.
    pub fn resize(&mut self, width: usize, height: usize)
        requires
            width * height <= usize::MAX,
        ensures
            final(self).wf(),
            final(self).spec_width() == width,
            final(self).spec_height() == height,
            final(self).spec_lines() == old(self).spec_lines(),
            forall|i: int|
                0 <= i < final(self).spec_pixels().len() ==> final(self).spec_pixels()[i]
                    == BACKGROUND_COLOR,
            forall|i: int|
                0 <= i < final(self).spec_depths().len() ==> final(self).spec_depths()[i]
                    == DEPTH_INF,
    {
        let n: usize = width * height;
        self.width = width;
        self.height = height;
        self.buffer = vec![BACKGROUND_COLOR; n];
        self.depth_buffer = vec![DEPTH_INF; n];
    }

    /// Write one fragment, with the depth test.
    fn put_fragment(&mut self, px: i64, py: i64, z: i64, color: u32)
        requires
            old(self).wf(),
        ensures
            final(self).wf(),
            ({
                let out = spec_put_frag(
                    old(self).spec_pixels(),
                    old(self).spec_depths(),
                    old(self).spec_width(),
                    old(self).spec_height(),
                    Frag { px: px as int, py: py as int, z, color },
                );
                final(self).spec_pixels() == out.0 && final(self).spec_depths() == out.1
            }),
            final(self).spec_lines() == old(self).spec_lines(),
            final(self).spec_width() == old(self).spec_width(),
            final(self).spec_height() == old(self).spec_height(),
    {
        let blen: usize = self.buffer.len();
        let dlen: usize = self.depth_buffer.len();
        if px >= 0 && py >= 0 && (px as i128) < (self.width as i128) && (py as i128) < (
        self.height as i128) {
            proof {
                assert((py as int) * (self.width as int) + (px as int) < (self.width as int) * (
                self.height as int)) by (nonlinear_arith)
                    requires
                        0 <= py as int,
                        0 <= px as int,
                        (py as int) < (self.height as int),
                        (px as int) < (self.width as int);
            }
            let idx: usize = (py as usize) * self.width + (px as usize);
            if z < self.depth_buffer[idx] {
                self.buffer[idx] = color;
                self.depth_buffer[idx] = z;
            }
        }
    }

    /// Write the disk of radius `rad` around `(pxc, pyc)`: every cell of the
    /// surrounding square whose center lies in the inscribed circle gets an
    /// independent depth-tested fragment with the central depth and color.
    #[verifier::loop_isolation(false)]
    #[verifier::rlimit(30)]
    fn draw_disk(&mut self, pxc: i64, pyc: i64, z: i64, color: u32, rad: i64)
        requires
            old(self).wf(),
            0 <= rad <= 1073741824,
            -4611686018427387904 <= pxc <= 4611686018427387904,
            -4611686018427387904 <= pyc <= 4611686018427387904,
        ensures
            final(self).wf(),
            ({
                let out = spec_put_frags(
                    old(self).spec_pixels(),
                    old(self).spec_depths(),
                    old(self).spec_width(),
                    old(self).spec_height(),
                    spec_disk_frags(
                        pxc as int,
                        pyc as int,
                        z,
                        color,
                        rad as int,
                        ((2 * rad as int + 1) * (2 * rad as int + 1)) as nat,
                    ),
                );
                final(self).spec_pixels() == out.0 && final(self).spec_depths() == out.1
            }),
            final(self).spec_lines() == old(self).spec_lines(),
            final(self).spec_width() == old(self).spec_width(),
            final(self).spec_height() == old(self).spec_height(),
    {
        proof {
            assert((2 * rad as int + 1) * (2 * rad as int + 1) <= 4611686027017322497)
                by (nonlinear_arith)
                requires
                    0 <= rad as int <= 1073741824;
        }
        let side: i64 = 2 * rad + 1;
        let cells: i64 = side * side;
        let mut k: i64 = 0;
        while k < cells
            invariant
                0 <= k <= cells,
                ({
                    let out = spec_put_frags(
                        old(self).spec_pixels(),
                        old(self).spec_depths(),
                        old(self).spec_width(),
                        old(self).spec_height(),
                        spec_disk_frags(pxc as int, pyc as int, z, color, rad as int, k as nat),
                    );
                    self.spec_pixels() == out.0 && self.spec_depths() == out.1
                }),
                self.wf(),
                self.spec_lines() == old(self).spec_lines(),
                self.spec_width() == old(self).spec_width(),
                self.spec_height() == old(self).spec_height(),
            decreases cells - k,
        {
            let q: i64 = divu(k, side);
            proof {
                vstd::arithmetic::div_mod::lemma_fundamental_div_mod(k as int, side as int);
                vstd::arithmetic::div_mod::lemma_mod_bound(k as int, side as int);
                assert((q as int) * (side as int) == (side as int) * (q as int))
                    by (nonlinear_arith);
                vstd::arithmetic::div_mod::lemma_div_is_ordered(
                    k as int,
                    (side as int) * (side as int) - 1,
                    side as int,
                );
                assert((side as int) * (side as int) - 1 == (side as int) * (side as int - 1) + (
                side as int - 1)) by (nonlinear_arith);
                vstd::arithmetic::div_mod::lemma_fundamental_div_mod_converse(
                    (side as int) * (side as int) - 1,
                    side as int,
                    side as int - 1,
                    side as int - 1,
                );
                assert(q as int <= side as int - 1);
            }
            let r: i64 = k - q * side;
            let ddx: i64 = r - rad;
            let ddy: i64 = q - rad;
            let ghost disk_so_far = spec_disk_frags(
                pxc as int,
                pyc as int,
                z,
                color,
                rad as int,
                k as nat,
            );
            proof {
                lemma_prod_bound(ddx as int, ddx as int, 2147483649, 2147483649);
                lemma_prod_bound(ddy as int, ddy as int, 2147483649, 2147483649);
                lemma_prod_bound(rad as int, rad as int, 2147483649, 2147483649);
            }
            let sq: i128 = (ddx as i128) * (ddx as i128) + (ddy as i128) * (ddy as i128);
            let rsq: i128 = (rad as i128) * (rad as i128);
            if sq <= rsq {
                let fpx: i64 = pxc + ddx;
                let fpy: i64 = pyc + ddy;
                self.put_fragment(fpx, fpy, z, color);
                proof {
                    let cell = spec_disk_cell(
                        pxc as int,
                        pyc as int,
                        z,
                        color,
                        rad as int,
                        k as int,
                    );
                    assert(cell == seq![Frag { px: fpx as int, py: fpy as int, z, color }]);
                    assert(spec_disk_frags(
                        pxc as int,
                        pyc as int,
                        z,
                        color,
                        rad as int,
                        (k + 1) as nat,
                    ) == disk_so_far + cell);
                    lemma_put_frags_append(
                        old(self).spec_pixels(),
                        old(self).spec_depths(),
                        old(self).spec_width(),
                        old(self).spec_height(),
                        disk_so_far,
                        cell,
                    );
                    let mid = spec_put_frags(
                        old(self).spec_pixels(),
                        old(self).spec_depths(),
                        old(self).spec_width(),
                        old(self).spec_height(),
                        disk_so_far,
                    );
                    assert(cell.drop_last() =~= Seq::<Frag>::empty());
                    assert(spec_put_frags(
                        mid.0,
                        mid.1,
                        old(self).spec_width(),
                        old(self).spec_height(),
                        cell.drop_last(),
                    ) == (mid.0, mid.1));
                    assert(spec_put_frags(
                        mid.0,
                        mid.1,
                        old(self).spec_width(),
                        old(self).spec_height(),
                        cell,
                    ) == spec_put_frag(
                        mid.0,
                        mid.1,
                        old(self).spec_width(),
                        old(self).spec_height(),
                        cell.last(),
                    ));
                }
            } else {
                proof {
                    let cell = spec_disk_cell(
                        pxc as int,
                        pyc as int,
                        z,
                        color,
                        rad as int,
                        k as int,
                    );
                    assert(cell =~= Seq::<Frag>::empty());
                    assert(spec_disk_frags(
                        pxc as int,
                        pyc as int,
                        z,
                        color,
                        rad as int,
                        (k + 1) as nat,
                    ) =~= disk_so_far);
                }
            }
            k = k + 1;
        }
    }

    /// Rasterize one segment given in fixed-point screen coordinates: walk
    /// `max(|dx|, |dy|) + 1` evenly spaced steps, writing the thickness disk
    /// at each with interpolated depth and color.
    #[verifier::loop_isolation(false)]
    #[verifier::rlimit(60)]
    fn draw_line_2d(
        &mut self,
        a: (i64, i64, i64),
        b: (i64, i64, i64),
        c0: Vec3Fx,
        c1: Vec3Fx,
        th: i64,
    )
        requires
            old(self).wf(),
            fx_ok(a.0 as int),
            fx_ok(a.1 as int),
            fx_ok(a.2 as int),
            fx_ok(b.0 as int),
            fx_ok(b.1 as int),
            fx_ok(b.2 as int),
        ensures
            final(self).wf(),
            ({
                let out = spec_put_frags(
                    old(self).spec_pixels(),
                    old(self).spec_depths(),
                    old(self).spec_width(),
                    old(self).spec_height(),
                    spec_line2d_frags(a, b, c0, c1, th),
                );
                final(self).spec_pixels() == out.0 && final(self).spec_depths() == out.1
            }),
            final(self).spec_lines() == old(self).spec_lines(),
            final(self).spec_width() == old(self).spec_width(),
            final(self).spec_height() == old(self).spec_height(),
    {
        let dx_abs: i64 = if b.0 >= a.0 {
            b.0 - a.0
        } else {
            a.0 - b.0
        };
        let dy_abs: i64 = if b.1 >= a.1 {
            b.1 - a.1
        } else {
            a.1 - b.1
        };
        let mx: i64 = if dx_abs >= dy_abs {
            dx_abs
        } else {
            dy_abs
        };
        let n0: i64 = divu(mx, FX_ONE);
        let m: i64 = if n0 < 1 {
            1
        } else {
            n0
        };
        let thc: i64 = fx_clamp(th, -FX_LIM, FX_LIM);
        let rad: i64 = if thc <= FX_ONE {
            0
        } else {
            divu(thc + 2 * FX_ONE - 1, 2 * FX_ONE)
        };
        proof {
            assert(m as int == spec_num_steps(a, b));
            assert(rad as int == spec_rad(th));
            if thc > FX_ONE {
                vstd::arithmetic::div_mod::lemma_div_is_ordered(
                    thc as int + 2 * FX_ONE - 1,
                    FX_LIM as int + 2 * FX_ONE - 1,
                    2 * FX_ONE as int,
                );
                assert((FX_LIM as int + 2 * FX_ONE - 1) / (2 * FX_ONE as int) == 1073741824);
            }
            assert(0 <= rad <= 1073741824);
        }
        let mut i: i64 = 0;
        while i <= m
            invariant
                0 <= i <= m + 1,
                ({
                    let out = spec_put_frags(
                        old(self).spec_pixels(),
                        old(self).spec_depths(),
                        old(self).spec_width(),
                        old(self).spec_height(),
                        spec_steps_frags(a, b, c0, c1, th, i as nat, m as int),
                    );
                    self.spec_pixels() == out.0 && self.spec_depths() == out.1
                }),
                self.wf(),
                self.spec_lines() == old(self).spec_lines(),
                self.spec_width() == old(self).spec_width(),
                self.spec_height() == old(self).spec_height(),
            decreases m + 1 - i,
        {
            let sv: (i64, i64, i64, u32) = step_values(a, b, c0, c1, i, m);
            let pxc: i64 = sv.0;
            let pyc: i64 = sv.1;
            let z: i64 = sv.2;
            let color: u32 = sv.3;
            let ghost steps_so_far = spec_steps_frags(a, b, c0, c1, th, i as nat, m as int);
            self.draw_disk(pxc, pyc, z, color, rad);
            proof {
                let disk_all = spec_disk_frags(
                    pxc as int,
                    pyc as int,
                    z,
                    color,
                    rad as int,
                    ((2 * rad as int + 1) * (2 * rad as int + 1)) as nat,
                );
                lemma_put_frags_append(
                    old(self).spec_pixels(),
                    old(self).spec_depths(),
                    old(self).spec_width(),
                    old(self).spec_height(),
                    steps_so_far,
                    disk_all,
                );
                assert(spec_step_frags(a, b, c0, c1, th, i as int, m as int) == disk_all);
                assert(spec_steps_frags(a, b, c0, c1, th, (i + 1) as nat, m as int)
                    == steps_so_far + spec_step_frags(a, b, c0, c1, th, i as int, m as int));
            }
            i = i + 1;
        }
        proof {
            assert(spec_line2d_frags(a, b, c0, c1, th) == spec_steps_frags(
                a,
                b,
                c0,
                c1,
                th,
                (m + 1) as nat,
                m as int,
            ));
        }
    }

    /// Project a segment's endpoints and rasterize it; a segment with either
    /// endpoint behind the camera is dropped whole.
    fn draw_line_3d(&mut self, start: &Vertex, end: &Vertex, thickness: i64, view: &Mat4Fx, proj: &Mat4Fx)
        requires
            old(self).wf(),
        ensures
            final(self).wf(),
            ({
                let out = spec_put_frags(
                    old(self).spec_pixels(),
                    old(self).spec_depths(),
                    old(self).spec_width(),
                    old(self).spec_height(),
                    spec_line3d_frags(
                        *view,
                        *proj,
                        old(self).spec_width(),
                        old(self).spec_height(),
                        Line { start: *start, end: *end, thickness },
                    ),
                );
                final(self).spec_pixels() == out.0 && final(self).spec_depths() == out.1
            }),
            final(self).spec_lines() == old(self).spec_lines(),
            final(self).spec_width() == old(self).spec_width(),
            final(self).spec_height() == old(self).spec_height(),
    {
        let pa: Option<(i64, i64, i64)> = project_point(
            view,
            proj,
            self.width,
            self.height,
            start.position,
        );
        let pb: Option<(i64, i64, i64)> = project_point(
            view,
            proj,
            self.width,
            self.height,
            end.position,
        );
        match (pa, pb) {
            (Some(sa), Some(sb)) => {
                self.draw_line_2d(sa, sb, start.color, end.color, thickness);
            },
            _ => {},
        }
    }

    /// Rasterize every stored segment through the camera's matrices into the
    /// pixel and depth buffers.
    #[verifier::loop_isolation(false)]
    pub fn render(&mut self, camera: &Camera)
        requires
            old(self).wf(),
        ensures
            final(self).wf(),
            ({
                let out = spec_put_frags(
                    old(self).spec_pixels(),
                    old(self).spec_depths(),
                    old(self).spec_width(),
                    old(self).spec_height(),
                    spec_render_frags(
                        spec_view_matrix(*camera),
                        spec_projection_matrix(*camera),
                        old(self).spec_width(),
                        old(self).spec_height(),
                        old(self).spec_lines(),
                    ),
                );
                final(self).spec_pixels() == out.0 && final(self).spec_depths() == out.1
            }),
            final(self).spec_lines() == old(self).spec_lines(),
            final(self).spec_width() == old(self).spec_width(),
            final(self).spec_height() == old(self).spec_height(),
    {
        let view: Mat4Fx = camera.view_matrix();
        let proj: Mat4Fx = camera.projection_matrix();
        let n: usize = self.lines.len();
        let mut i: usize = 0;
        while i < n
            invariant
                0 <= i <= n,
                n == old(self).spec_lines().len(),
                view == spec_view_matrix(*camera),
                proj == spec_projection_matrix(*camera),
                ({
                    let out = spec_put_frags(
                        old(self).spec_pixels(),
                        old(self).spec_depths(),
                        old(self).spec_width(),
                        old(self).spec_height(),
                        spec_render_frags(
                            view,
                            proj,
                            old(self).spec_width(),
                            old(self).spec_height(),
                            old(self).spec_lines().take(i as int),
                        ),
                    );
                    self.spec_pixels() == out.0 && self.spec_depths() == out.1
                }),
                self.wf(),
                self.spec_lines() == old(self).spec_lines(),
                self.spec_width() == old(self).spec_width(),
                self.spec_height() == old(self).spec_height(),
            decreases n - i,
        {
            let line: Line = self.lines[i];
            let ghost frames_so_far = spec_render_frags(
                view,
                proj,
                old(self).spec_width(),
                old(self).spec_height(),
                old(self).spec_lines().take(i as int),
            );
            self.draw_line_3d(&line.start, &line.end, line.thickness, &view, &proj);
            proof {
                let lines0 = old(self).spec_lines();
                assert(lines0.take(i + 1).drop_last() =~= lines0.take(i as int));
                assert(lines0.take(i + 1).last() == line);
                assert(line == (Line { start: line.start, end: line.end, thickness: line.thickness }));
                lemma_put_frags_append(
                    old(self).spec_pixels(),
                    old(self).spec_depths(),
                    old(self).spec_width(),
                    old(self).spec_height(),
                    frames_so_far,
                    spec_line3d_frags(
                        view,
                        proj,
                        old(self).spec_width(),
                        old(self).spec_height(),
                        line,
                    ),
                );
            }
            i = i + 1;
        }
        proof {
            assert(old(self).spec_lines().take(n as int) =~= old(self).spec_lines());
        }
    }
}

/// Linear interpolation at step `i` of `m`: `a0 + i * (a1 - a0) / m`, with
/// the division rounded toward minus infinity.
pub open spec fn spec_interp(a0: i64, a1: i64, i: int, m: int) -> int
    recommends
        m >= 1,
{
    a0 + (i * (a1 - a0)) / m
}

/// The pixel hit by a fixed-point screen coordinate: rounded to nearest,
/// halves upward.
pub open spec fn spec_px_of(v: int) -> int {
    (v + FX_HALF) / (FX_ONE as int)
}

/// The disk radius in pixels for a fixed-point thickness: zero (a single
/// pixel) up to unit thickness, the rounded-up half thickness beyond it.
pub open spec fn spec_rad(th: i64) -> int {
    if clv(th) <= FX_ONE {
        0
    } else {
        (clv(th) + 2 * FX_ONE - 1) / (2 * FX_ONE as int)
    }
}

/// Cell `j` of the disk around `(cx, cy)`: the cells walk a square of side
/// `2 * rad + 1` row by row, and a cell contributes a fragment exactly when
/// it lies in the inscribed circle.
pub open spec fn spec_disk_cell(cx: int, cy: int, z: i64, color: u32, rad: int, j: int) -> Seq<
    Frag,
> {
    let side = 2 * rad + 1;
    let dx = j % side - rad;
    let dy = j / side - rad;
    if dx * dx + dy * dy <= rad * rad {
        seq![Frag { px: cx + dx, py: cy + dy, z, color }]
    } else {
        Seq::empty()
    }
}

/// The first `k` cells of the disk around `(cx, cy)`.
pub open spec fn spec_disk_frags(cx: int, cy: int, z: i64, color: u32, rad: int, k: nat) -> Seq<
    Frag,
>
    decreases k,
{
    if k == 0 {
        Seq::empty()
    } else {
        spec_disk_frags(cx, cy, z, color, rad, (k - 1) as nat) + spec_disk_cell(
            cx,
            cy,
            z,
            color,
            rad,
            k as int - 1,
        )
    }
}

/// The fragments of step `i` of a rasterized segment: the interpolated point
/// rounded to a pixel, the interpolated depth and packed color, expanded to
/// the thickness disk.
pub open spec fn spec_step_frags(
    a: (i64, i64, i64),
    b: (i64, i64, i64),
    c0: Vec3Fx,
    c1: Vec3Fx,
    th: i64,
    i: int,
    m: int,
) -> Seq<Frag> {
    let cx = spec_px_of(spec_interp(a.0, b.0, i, m));
    let cy = spec_px_of(spec_interp(a.1, b.1, i, m));
    let z = sat64(spec_interp(a.2, b.2, i, m));
    let color = spec_pack(
        spec_interp(c0.x, c1.x, i, m),
        spec_interp(c0.y, c1.y, i, m),
        spec_interp(c0.z, c1.z, i, m),
    );
    let rad = spec_rad(th);
    spec_disk_frags(cx, cy, z, color, rad, ((2 * rad + 1) * (2 * rad + 1)) as nat)
}

/// The fragments of the first `j` steps of a rasterized segment.
pub open spec fn spec_steps_frags(
    a: (i64, i64, i64),
    b: (i64, i64, i64),
    c0: Vec3Fx,
    c1: Vec3Fx,
    th: i64,
    j: nat,
    m: int,
) -> Seq<Frag>
    decreases j,
{
    if j == 0 {
        Seq::empty()
    } else {
        spec_steps_frags(a, b, c0, c1, th, (j - 1) as nat, m) + spec_step_frags(
            a,
            b,
            c0,
            c1,
            th,
            j as int - 1,
            m,
        )
    }
}

/// How a segment is walked: `max(|dx|, |dy|)` whole pixels, at least one.
/// The fragments are the `spec_num_steps + 1` evenly spaced steps.
pub open spec fn spec_num_steps(a: (i64, i64, i64), b: (i64, i64, i64)) -> int {
    let dx = if b.0 >= a.0 {
        b.0 - a.0
    } else {
        a.0 - b.0
    };
    let dy = if b.1 >= a.1 {
        b.1 - a.1
    } else {
        a.1 - b.1
    };
    let mx = if dx >= dy {
        dx
    } else {
        dy
    };
    let n = mx / (FX_ONE as int);
    if n < 1 {
        1
    } else {
        n
    }
}

/// All fragments of one segment in screen space.
pub open spec fn spec_line2d_frags(
    a: (i64, i64, i64),
    b: (i64, i64, i64),
    c0: Vec3Fx,
    c1: Vec3Fx,
    th: i64,
) -> Seq<Frag> {
    let m = spec_num_steps(a, b);
    spec_steps_frags(a, b, c0, c1, th, (m + 1) as nat, m)
}

/// Project a world point: through the view matrix, then the projection
/// matrix, rejected when the clip-space `w` is not positive, otherwise
/// divided by `w` and mapped to fixed-point screen coordinates (the third
/// component is the depth, the clip-space `z` over `w`).
pub open spec fn spec_project(view: Mat4Fx, proj: Mat4Fx, w: int, h: int, p: Vec3Fx) -> Option<
    (i64, i64, i64),
> {
    let vv = spec_mat4_mul_vec(view, Vec4Fx { x: p.x, y: p.y, z: p.z, w: FX_ONE });
    let clip = spec_mat4_mul_vec(proj, vv);
    if clip.w <= 0 {
        None
    } else {
        let ndx = sat64(spec_fx_div(clip.x as int, clip.w as int));
        let ndy = sat64(spec_fx_div(clip.y as int, clip.w as int));
        let ndz = sat64(spec_fx_div(clip.z as int, clip.w as int));
        Some(
            (
                sat64(((ndx as int + FX_ONE) * w) / 2),
                sat64(((FX_ONE - ndy as int) * h) / 2),
                ndz,
            ),
        )
    }
}

/// The fragments of one stored segment: nothing if either endpoint fails the
/// clip test, else the rasterized screen-space segment.
pub open spec fn spec_line3d_frags(view: Mat4Fx, proj: Mat4Fx, w: int, h: int, line: Line) -> Seq<
    Frag,
> {
    let pa = spec_project(view, proj, w, h, line.start.position);
    let pb = spec_project(view, proj, w, h, line.end.position);
    if pa is Some && pb is Some {
        spec_line2d_frags(pa->0, pb->0, line.start.color, line.end.color, line.thickness)
    } else {
        Seq::empty()
    }
}

/// The fragments of a whole frame, in segment order.
pub open spec fn spec_render_frags(
    view: Mat4Fx,
    proj: Mat4Fx,
    w: int,
    h: int,
    lines: Seq<Line>,
) -> Seq<Frag>
    decreases lines.len(),
{
    if lines.len() == 0 {
        Seq::empty()
    } else {
        spec_render_frags(view, proj, w, h, lines.drop_last()) + spec_line3d_frags(
            view,
            proj,
            w,
            h,
            lines.last(),
        )
    }
}

/// A saturated coordinate times a pixel count stays far inside `i128`.
proof fn lemma_screen_prod_bounds(a: int, b: int)
    by (nonlinear_arith)
    requires
        -281474976710656 <= a <= 281474976710656,
        0 <= b <= 18446744073709551615,
    ensures
        -5192296858534827628530496329220096 <= a * b <= 5192296858534827628530496329220096,
{
}

/// The center pixel, depth and packed color of step `i` of `m` along a
/// screen-space segment.
#[verifier::rlimit(30)]
fn step_values(
    a: (i64, i64, i64),
    b: (i64, i64, i64),
    c0: Vec3Fx,
    c1: Vec3Fx,
    i: i64,
    m: i64,
) -> (r: (i64, i64, i64, u32))
    requires
        1 <= m <= 281474976710656,
        0 <= i <= m,
        fx_ok(a.0 as int),
        fx_ok(a.1 as int),
        fx_ok(a.2 as int),
        fx_ok(b.0 as int),
        fx_ok(b.1 as int),
        fx_ok(b.2 as int),
    ensures
        r.0 as int == spec_px_of(spec_interp(a.0, b.0, i as int, m as int)),
        r.1 as int == spec_px_of(spec_interp(a.1, b.1, i as int, m as int)),
        -4611686018427387904 <= r.0 <= 4611686018427387904,
        -4611686018427387904 <= r.1 <= 4611686018427387904,
        r.2 == sat64(spec_interp(a.2, b.2, i as int, m as int)),
        r.3 == spec_pack(
            spec_interp(c0.x, c1.x, i as int, m as int),
            spec_interp(c0.y, c1.y, i as int, m as int),
            spec_interp(c0.z, c1.z, i as int, m as int),
        ),
{
    let dxf: i64 = b.0 - a.0;
    let dyf: i64 = b.1 - a.1;
    let dzf: i64 = b.2 - a.2;
    proof {
        lemma_prod_bound(i as int, dxf as int, 281474976710656, 281474976710656);
        lemma_prod_bound(i as int, dyf as int, 281474976710656, 281474976710656);
        lemma_prod_bound(i as int, dzf as int, 281474976710656, 281474976710656);
        lemma_mul_div_bound(i as int, m as int, dxf as int, 281474976710656);
        lemma_mul_div_bound(i as int, m as int, dyf as int, 281474976710656);
        lemma_mul_div_bound(i as int, m as int, dzf as int, 281474976710656);
    }
    let cxf: i128 = (a.0 as i128) + div_floor((i as i128) * (dxf as i128), m as i128);
    let cyf: i128 = (a.1 as i128) + div_floor((i as i128) * (dyf as i128), m as i128);
    proof {
        lemma_div_shrinks(cxf as int + FX_HALF, FX_ONE as int);
        lemma_div_shrinks(cyf as int + FX_HALF, FX_ONE as int);
    }
    let pxc: i64 = div_floor(cxf + FX_HALF as i128, FX_ONE as i128) as i64;
    let pyc: i64 = div_floor(cyf + FX_HALF as i128, FX_ONE as i128) as i64;
    let z: i64 = sat_to_i64((a.2 as i128) + div_floor((i as i128) * (dzf as i128), m as i128));
    let cdx: i128 = (c1.x as i128) - (c0.x as i128);
    let cdy: i128 = (c1.y as i128) - (c0.y as i128);
    let cdz: i128 = (c1.z as i128) - (c0.z as i128);
    proof {
        lemma_prod_bound(i as int, cdx as int, 281474976710656, 18446744073709551616);
        lemma_prod_bound(i as int, cdy as int, 281474976710656, 18446744073709551616);
        lemma_prod_bound(i as int, cdz as int, 281474976710656, 18446744073709551616);
        lemma_div_shrinks((i as int) * (cdx as int), m as int);
        lemma_div_shrinks((i as int) * (cdy as int), m as int);
        lemma_div_shrinks((i as int) * (cdz as int), m as int);
    }
    let ir: i128 = (c0.x as i128) + div_floor((i as i128) * cdx, m as i128);
    let ig: i128 = (c0.y as i128) + div_floor((i as i128) * cdy, m as i128);
    let ib: i128 = (c0.z as i128) + div_floor((i as i128) * cdz, m as i128);
    let color: u32 = pack(ir, ig, ib);
    (pxc, pyc, z, color)
}

/// Project a world point to fixed-point screen coordinates.
fn project_point(view: &Mat4Fx, proj: &Mat4Fx, w: usize, h: usize, p: Vec3Fx) -> (r: Option<
    (i64, i64, i64),
>)
    ensures
        r == spec_project(*view, *proj, w as int, h as int, p),
{
    let vv: Vec4Fx = mat4_mul_vec(view, Vec4Fx { x: p.x, y: p.y, z: p.z, w: FX_ONE });
    let clip: Vec4Fx = mat4_mul_vec(proj, vv);
    if clip.w <= 0 {
        None
    } else {
        let ndx: i64 = fx_div(clip.x, clip.w);
        let ndy: i64 = fx_div(clip.y, clip.w);
        let ndz: i64 = fx_div(clip.z, clip.w);
        proof {
            lemma_screen_prod_bounds(ndx as int + FX_ONE, w as int);
            lemma_screen_prod_bounds(FX_ONE - ndy as int, h as int);
        }
        let sx: i64 = sat_to_i64(
            div_floor((ndx as i128 + FX_ONE as i128) * (w as i128), 2),
        );
        let sy: i64 = sat_to_i64(
            div_floor((FX_ONE as i128 - ndy as i128) * (h as i128), 2),
        );
        Some((sx, sy, ndz))
    }
}

/// Projection sanity: a camera with zero yaw and pitch, its position derived
/// from the orbit at a distance beyond the near plane, projects its own
/// target to the exact center of the screen: the screen coordinates are
/// `width/2` and `height/2` in fixed point, which round to the center pixel.
pub proof fn lemma_projection_center(c: Camera, w: int, h: int)
    requires
        c.yaw == 0,
        c.pitch == 0,
        FX_ONE <= c.distance <= FX_LIM,
        c.near < c.distance,
        c.up == (crate::vec3::Vec3Fx { x: 0i64, y: FX_ONE, z: 0i64 }),
        c.target.well_bounded(),
        c.target.x + c.distance <= FX_LIM,
        c.position == crate::camera::spec_orbit_position(c.target, 0i64, 0i64, c.distance),
        0 <= w <= 4294967296,
        0 <= h <= 4294967296,
    ensures
        spec_project(spec_view_matrix(c), spec_projection_matrix(c), w, h, c.target) is Some,
        ({
            let p = spec_project(spec_view_matrix(c), spec_projection_matrix(c), w, h, c.target)->0;
            &&& p.0 as int == 32768 * w
            &&& p.1 as int == 32768 * h
            &&& spec_px_of(p.0 as int) == (w + 1) / 2
            &&& spec_px_of(p.1 as int) == (h + 1) / 2
        }),
{
    let one = FX_ONE as int;
    let t = c.target;
    let d = c.distance;
    crate::camera::lemma_view_matrix_centered(c);
    let view = spec_view_matrix(c);
    let vin = Vec4Fx { x: t.x, y: t.y, z: t.z, w: FX_ONE };
    let vv = spec_mat4_mul_vec(view, vin);
    assert(clv(view.r0.x) * clv(vin.x) + clv(view.r0.y) * clv(vin.y) + clv(view.r0.z) * clv(
        vin.z,
    ) + clv(view.r0.w) * clv(vin.w) == 0) by (nonlinear_arith)
        requires
            clv(view.r0.x) == 0,
            clv(view.r0.y) == 0,
            clv(view.r0.z) == one,
            clv(view.r0.w) == -(t.z as int),
            clv(vin.z) == t.z as int,
            clv(vin.w) == one;
    assert(clv(view.r1.x) * clv(vin.x) + clv(view.r1.y) * clv(vin.y) + clv(view.r1.z) * clv(
        vin.z,
    ) + clv(view.r1.w) * clv(vin.w) == 0) by (nonlinear_arith)
        requires
            clv(view.r1.x) == 0,
            clv(view.r1.y) == one,
            clv(view.r1.z) == 0,
            clv(view.r1.w) == -(t.y as int),
            clv(vin.y) == t.y as int,
            clv(vin.w) == one;
    assert(clv(view.r2.x) * clv(vin.x) + clv(view.r2.y) * clv(vin.y) + clv(view.r2.z) * clv(
        vin.z,
    ) + clv(view.r2.w) * clv(vin.w) == (d as int) * one) by (nonlinear_arith)
        requires
            clv(view.r2.x) == -one,
            clv(view.r2.y) == 0,
            clv(view.r2.z) == 0,
            clv(view.r2.w) == t.x as int + d as int,
            clv(vin.x) == t.x as int,
            clv(vin.w) == one;
    assert(clv(view.r3.x) * clv(vin.x) + clv(view.r3.y) * clv(vin.y) + clv(view.r3.z) * clv(
        vin.z,
    ) + clv(view.r3.w) * clv(vin.w) == one * one) by (nonlinear_arith)
        requires
            clv(view.r3.x) == 0,
            clv(view.r3.y) == 0,
            clv(view.r3.z) == 0,
            clv(view.r3.w) == one,
            clv(vin.w) == one;
    vstd::arithmetic::div_mod::lemma_div_of0(one);
    crate::fixed::lemma_mul_div_cancel(d as int, one);
    crate::fixed::lemma_mul_div_cancel(one, one);
    assert(vv == Vec4Fx { x: 0i64, y: 0i64, z: d, w: FX_ONE });
    let proj = spec_projection_matrix(c);
    assert(proj.r0.y == 0i64 && proj.r0.z == 0i64 && proj.r0.w == 0i64);
    assert(proj.r1.x == 0i64 && proj.r1.z == 0i64 && proj.r1.w == 0i64);
    assert(proj.r3.x == 0i64 && proj.r3.y == 0i64 && proj.r3.z == FX_ONE && proj.r3.w == 0i64);
    assert(-FX_LIM <= clv(proj.r0.x) <= FX_LIM);
    assert(-FX_LIM <= clv(proj.r1.y) <= FX_LIM);
    let clip = spec_mat4_mul_vec(proj, vv);
    assert(clv(proj.r0.x) * clv(vv.x) + clv(proj.r0.y) * clv(vv.y) + clv(proj.r0.z) * clv(vv.z)
        + clv(proj.r0.w) * clv(vv.w) == 0) by (nonlinear_arith)
        requires
            clv(vv.x) == 0,
            clv(proj.r0.y) == 0,
            clv(proj.r0.z) == 0,
            clv(proj.r0.w) == 0;
    assert(clv(proj.r1.x) * clv(vv.x) + clv(proj.r1.y) * clv(vv.y) + clv(proj.r1.z) * clv(vv.z)
        + clv(proj.r1.w) * clv(vv.w) == 0) by (nonlinear_arith)
        requires
            clv(vv.y) == 0,
            clv(proj.r1.x) == 0,
            clv(proj.r1.z) == 0,
            clv(proj.r1.w) == 0;
    assert(clv(proj.r3.x) * clv(vv.x) + clv(proj.r3.y) * clv(vv.y) + clv(proj.r3.z) * clv(vv.z)
        + clv(proj.r3.w) * clv(vv.w) == one * (d as int)) by (nonlinear_arith)
        requires
            clv(proj.r3.x) == 0,
            clv(proj.r3.y) == 0,
            clv(proj.r3.z) == one,
            clv(proj.r3.w) == 0,
            clv(vv.z) == d as int;
    assert(one * (d as int) == (d as int) * one) by (nonlinear_arith);
    assert(clip.x == 0i64 && clip.y == 0i64 && clip.w == d);
    assert(clip.w > 0);
    assert(0int * one == 0) by (nonlinear_arith);
    vstd::arithmetic::div_mod::lemma_div_of0(d as int);
    let ndx = sat64(spec_fx_div(clip.x as int, clip.w as int));
    let ndy = sat64(spec_fx_div(clip.y as int, clip.w as int));
    assert(ndx == 0i64 && ndy == 0i64);
    assert((0 + one) * w == (32768 * w) * 2) by (nonlinear_arith)
        requires
            one == 65536;
    assert((one - 0) * h == (32768 * h) * 2) by (nonlinear_arith)
        requires
            one == 65536;
    crate::fixed::lemma_mul_div_cancel(32768 * w, 2);
    crate::fixed::lemma_mul_div_cancel(32768 * h, 2);
    assert(0 <= 32768 * w <= FX_LIM) by (nonlinear_arith)
        requires
            0 <= w <= 4294967296;
    assert(0 <= 32768 * h <= FX_LIM) by (nonlinear_arith)
        requires
            0 <= h <= 4294967296;
    let sx = sat64(((ndx as int + FX_ONE) * w) / 2);
    let sy = sat64(((FX_ONE - ndy as int) * h) / 2);
    assert(sx as int == 32768 * w);
    assert(sy as int == 32768 * h);
    lemma_half_screen_rounds(w);
    lemma_half_screen_rounds(h);
}

/// The fixed-point screen coordinate `32768 * n` rounds to pixel
/// `(n + 1) / 2`: the center column of `n` pixels, within one of `n / 2`.
proof fn lemma_half_screen_rounds(n: int)
    requires
        0 <= n,
    ensures
        spec_px_of(32768 * n) == (n + 1) / 2,
{
    assert(32768 * n + FX_HALF == 32768 * (n + 1)) by (nonlinear_arith);
    assert(0 <= 32768 * (n + 1)) by (nonlinear_arith)
        requires
            0 <= n;
    vstd::arithmetic::div_mod::lemma_div_denominator(32768 * (n + 1), 32768, 2);
    crate::fixed::lemma_mul_div_cancel(n + 1, 32768);
    assert(32768 * (n + 1) == (n + 1) * 32768) by (nonlinear_arith);
}

/// Depth correctness at a pixel: starting from a cleared depth, writing two
/// fragments at the same pixel leaves the color of the nearer one, whichever
/// order they arrive in (ties lose against an earlier write).
pub proof fn lemma_depth_test(
    pix: Seq<u32>,
    dep: Seq<i64>,
    w: int,
    h: int,
    a: Frag,
    b: Frag,
)
    requires
        a.px == b.px,
        a.py == b.py,
        0 <= a.px < w,
        0 <= a.py < h,
        0 <= a.py * w + a.px < pix.len(),
        a.py * w + a.px < dep.len(),
        dep[a.py * w + a.px] == DEPTH_INF,
        a.z < b.z,
        b.z < DEPTH_INF,
    ensures
        ({
            let m1 = spec_put_frag(pix, dep, w, h, a);
            let s1 = spec_put_frag(m1.0, m1.1, w, h, b);
            s1.0[a.py * w + a.px] == a.color && s1.1[a.py * w + a.px] == a.z
        }),
        ({
            let m2 = spec_put_frag(pix, dep, w, h, b);
            let s2 = spec_put_frag(m2.0, m2.1, w, h, a);
            s2.0[a.py * w + a.px] == a.color && s2.1[a.py * w + a.px] == a.z
        }),
{
}

} // verus!
