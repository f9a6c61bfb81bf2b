//! The 3D turtle: consumes an expanded command string symbol by symbol,
//! keeps a position and an orientation frame with a branching stack, and
//! emits colored line segments into the renderer.

use vstd::prelude::*;
use crate::fixed::{
    FX_ONE, cos_sin, deg_to_rad, div_floor, fx_add, fx_clamp, fx_mul, fx_sub, sat64, sat_to_i64,
    spec_clamp, spec_cos_sin, spec_deg_to_rad, spec_fx_mul,
};
use crate::renderer::{Line, Renderer, Vertex};
use crate::vec3::{
    Vec3Fx, spec_v3_add, spec_v3_cross, spec_v3_dot, spec_v3_neg, spec_v3_scale, v3_add, v3_cross,
    v3_dot, v3_neg, v3_scale,
};

verus! {

/// Narrowest line width a width command can reach (0.1).
pub const WIDTH_MIN: i64 = 6554;

/// Widest line width a width command can reach (5.0).
pub const WIDTH_MAX: i64 = 327680;

/// A complete snapshot of the turtle: position, orientation frame, color and
/// line width. Pushed and popped whole by the bracket commands.
#[derive(Clone, Copy, PartialEq, Eq, Structural, Debug)]
pub struct TurtleState {
    pub position: Vec3Fx,
    pub direction: Vec3Fx,
    pub up: Vec3Fx,
    pub color: Vec3Fx,
    pub line_width: i64,
}

/// The initial turtle: at the origin, heading along +Y with +Z up, green,
/// unit line width.
pub open spec fn spec_initial_state() -> TurtleState {
    TurtleState {
        position: Vec3Fx { x: 0i64, y: 0i64, z: 0i64 },
        direction: Vec3Fx { x: 0i64, y: FX_ONE, z: 0i64 },
        up: Vec3Fx { x: 0i64, y: 0i64, z: FX_ONE },
        color: Vec3Fx { x: 0i64, y: FX_ONE, z: 0i64 },
        line_width: FX_ONE,
    }
}

impl TurtleState {
    /// The initial turtle state.
    pub fn new() -> (r: TurtleState)
        ensures
            r == spec_initial_state(),
    {
        TurtleState {
            position: Vec3Fx { x: 0, y: 0, z: 0 },
            direction: Vec3Fx { x: 0, y: FX_ONE, z: 0 },
            up: Vec3Fx { x: 0, y: 0, z: FX_ONE },
            color: Vec3Fx { x: 0, y: FX_ONE, z: 0 },
            line_width: FX_ONE,
        }
    }
}

/// Rotate `v` around the unit `axis` by the angle whose cosine and sine are
/// `c` and `s`, by the Rodrigues formula
/// `v*c + (axis x v)*s + axis*(axis . v)*(1 - c)` in fixed point.
#[verifier::opaque]
pub open spec fn spec_rotate(v: Vec3Fx, axis: Vec3Fx, c: i64, s: i64) -> Vec3Fx {
    let t1 = spec_v3_scale(v, c);
    let t2 = spec_v3_scale(spec_v3_cross(axis, v), s);
    let kv = spec_v3_dot(axis, v);
    let t3 = spec_v3_scale(axis, sat64(spec_fx_mul(kv as int, sat64(FX_ONE - c) as int)));
    spec_v3_add(spec_v3_add(t1, t2), t3)
}

/// Rotate `v` around the unit `axis` by the angle with cosine `c`, sine `s`.
pub fn rotate(v: Vec3Fx, axis: Vec3Fx, c: i64, s: i64) -> (r: Vec3Fx)
    ensures
        r == spec_rotate(v, axis, c, s),
{
    proof {
        reveal(spec_rotate);
    }
    let t1: Vec3Fx = v3_scale(v, c);
    let t2: Vec3Fx = v3_scale(v3_cross(axis, v), s);
    let kv: i64 = v3_dot(axis, v);
    let t3: Vec3Fx = v3_scale(axis, fx_mul(kv, fx_sub(FX_ONE, c)));
    v3_add(v3_add(t1, t2), t3)
}

/// The configuration a run of the interpreter reads but never writes.
#[verifier::ext_equal]
pub struct TurtleCfg {
    pub step_length: i64,
    pub angle_cos: i64,
    pub angle_sin: i64,
    pub palette: Seq<Vec3Fx>,
    pub depth_colors: bool,
}

/// The turtle: current state, branching stack and configuration.
#[derive(Debug)]
pub struct Turtle3D {
    pub current_state: TurtleState,
    pub state_stack: Vec<TurtleState>,
    pub step_length: i64,
    pub angle_cos: i64,
    pub angle_sin: i64,
    pub color_palette: Vec<Vec3Fx>,
    pub current_color_index: usize,
    pub depth_colors: bool,
}

/// The configuration carried by a turtle.
pub open spec fn spec_cfg(t: Turtle3D) -> TurtleCfg {
    TurtleCfg {
        step_length: t.step_length,
        angle_cos: t.angle_cos,
        angle_sin: t.angle_sin,
        palette: t.color_palette@,
        depth_colors: t.depth_colors,
    }
}

/// The running state of one interpretation: the turtle snapshot, the stack,
/// the palette index, and the segments emitted so far.
pub struct TurtleSim {
    pub st: TurtleState,
    pub stack: Seq<TurtleState>,
    pub color_idx: int,
    pub segs: Seq<Line>,
}

/// The height-based segment color: linear from brown at y = -10 to green at
/// y = +10, clamped outside that range.
pub open spec fn spec_depth_color(y: i64) -> Vec3Fx {
    let t = spec_clamp(sat64(sat64(y + 655360) as int / 20) as int, 0, FX_ONE as int);
    Vec3Fx {
        x: sat64(26214 + spec_fx_mul(t, -26214)),
        y: sat64(13107 + spec_fx_mul(t, 39322)),
        z: sat64(spec_fx_mul(t, 13107)),
    }
}

/// The height-based segment color.
pub fn depth_color(y: i64) -> (r: Vec3Fx)
    ensures
        r == spec_depth_color(y),
{
    let s: i64 = sat_to_i64(y as i128 + 655360);
    let t0: i64 = sat_to_i64(div_floor(s as i128, 20));
    let t: i64 = fx_clamp(t0, 0, FX_ONE);
    Vec3Fx {
        x: fx_add(26214, fx_mul(t, -26214)),
        y: fx_add(13107, fx_mul(t, 39322)),
        z: fx_mul(t, 13107),
    }
}

/// The state after one step forward.
pub open spec fn spec_forward_state(cfg: TurtleCfg, st: TurtleState) -> TurtleState {
    TurtleState {
        position: spec_v3_add(st.position, spec_v3_scale(st.direction, cfg.step_length)),
        ..st
    }
}

/// The segment a drawing step emits: from the old to the new position, in
/// the height-based color or the turtle's own, with unit thickness.
pub open spec fn spec_forward_seg(cfg: TurtleCfg, st: TurtleState) -> Line {
    let color = if cfg.depth_colors {
        spec_depth_color(st.position.y)
    } else {
        st.color
    };
    Line {
        start: Vertex { position: st.position, color },
        end: Vertex { position: spec_forward_state(cfg, st).position, color },
        thickness: FX_ONE,
    }
}

/// One command applied to a running state. Unrecognized symbols are ignored.
#[verifier::opaque]
pub open spec fn spec_turtle_step(cfg: TurtleCfg, sim: TurtleSim, c: char) -> TurtleSim {
    let st = sim.st;
    if c == 'F' || c == 'G' {
        TurtleSim {
            st: spec_forward_state(cfg, st),
            segs: sim.segs.push(spec_forward_seg(cfg, st)),
            ..sim
        }
    } else if c == 'f' || c == 'g' {
        TurtleSim { st: spec_forward_state(cfg, st), ..sim }
    } else if c == '+' {
        TurtleSim {
            st: TurtleState {
                direction: spec_rotate(st.direction, st.up, cfg.angle_cos, cfg.angle_sin),
                ..st
            },
            ..sim
        }
    } else if c == '-' {
        TurtleSim {
            st: TurtleState {
                direction: spec_rotate(
                    st.direction,
                    st.up,
                    cfg.angle_cos,
                    sat64(-cfg.angle_sin),
                ),
                ..st
            },
            ..sim
        }
    } else if c == '&' {
        let right = spec_v3_cross(st.direction, st.up);
        TurtleSim {
            st: TurtleState {
                direction: spec_rotate(st.direction, right, cfg.angle_cos, sat64(-cfg.angle_sin)),
                up: spec_rotate(st.up, right, cfg.angle_cos, sat64(-cfg.angle_sin)),
                ..st
            },
            ..sim
        }
    } else if c == '^' {
        let right = spec_v3_cross(st.direction, st.up);
        TurtleSim {
            st: TurtleState {
                direction: spec_rotate(st.direction, right, cfg.angle_cos, cfg.angle_sin),
                up: spec_rotate(st.up, right, cfg.angle_cos, cfg.angle_sin),
                ..st
            },
            ..sim
        }
    } else if c == '\\' {
        TurtleSim {
            st: TurtleState {
                up: spec_rotate(st.up, st.direction, cfg.angle_cos, cfg.angle_sin),
                ..st
            },
            ..sim
        }
    } else if c == '/' {
        TurtleSim {
            st: TurtleState {
                up: spec_rotate(st.up, st.direction, cfg.angle_cos, sat64(-cfg.angle_sin)),
                ..st
            },
            ..sim
        }
    } else if c == '|' {
        TurtleSim { st: TurtleState { direction: spec_v3_neg(st.direction), ..st }, ..sim }
    } else if c == '[' {
        TurtleSim { stack: sim.stack.push(st), ..sim }
    } else if c == ']' {
        if sim.stack.len() > 0 {
            TurtleSim { st: sim.stack.last(), stack: sim.stack.drop_last(), ..sim }
        } else {
            sim
        }
    } else if c == '#' {
        if cfg.palette.len() > 0 {
            let idx = ((sim.color_idx % cfg.palette.len() as int) + 1) % cfg.palette.len() as int;
            TurtleSim {
                st: TurtleState { color: cfg.palette[idx], ..st },
                color_idx: idx,
                ..sim
            }
        } else {
            sim
        }
    } else if c == '\'' {
        let w = sat64(spec_clamp(sat64((st.line_width as int) * 6 / 5) as int, WIDTH_MIN as int, WIDTH_MAX as int));
        TurtleSim { st: TurtleState { line_width: w, ..st }, ..sim }
    } else if c == '!' {
        let w = sat64(spec_clamp(sat64((st.line_width as int) * 4 / 5) as int, WIDTH_MIN as int, WIDTH_MAX as int));
        TurtleSim { st: TurtleState { line_width: w, ..st }, ..sim }
    } else {
        sim
    }
}

/// A command sequence applied left to right.
pub open spec fn spec_turtle_run(cfg: TurtleCfg, sim: TurtleSim, cmds: Seq<char>) -> TurtleSim
    decreases cmds.len(),
{
    if cmds.len() == 0 {
        sim
    } else {
        spec_turtle_run(cfg, spec_turtle_step(cfg, sim, cmds[0]), cmds.subrange(1, cmds.len() as int))
    }
}

/// Running a concatenation is running the two halves in turn.
pub proof fn lemma_turtle_run_append(cfg: TurtleCfg, sim: TurtleSim, a: Seq<char>, b: Seq<char>)
    ensures
        spec_turtle_run(cfg, sim, a + b) == spec_turtle_run(cfg, spec_turtle_run(cfg, sim, a), b),
    decreases a.len(),
{
    if a.len() == 0 {
        assert(a + b =~= b);
    } else {
        assert((a + b)[0] == a[0]);
        assert((a + b).subrange(1, (a + b).len() as int) =~= a.subrange(1, a.len() as int) + b);
        lemma_turtle_run_append(cfg, spec_turtle_step(cfg, sim, a[0]), a.subrange(1, a.len() as int), b);
    }
}

impl Turtle3D {
    /// The default palette: ten saturated colors, green first.
    pub fn create_color_palette() -> (v: Vec<Vec3Fx>)
        ensures
            v@ == spec_default_palette(),
    {
        let mut v: Vec<Vec3Fx> = Vec::new();
        v.push(Vec3Fx { x: 0, y: FX_ONE, z: 0 });
        v.push(Vec3Fx { x: 52429, y: 26214, z: 0 });
        v.push(Vec3Fx { x: FX_ONE, y: 0, z: 0 });
        v.push(Vec3Fx { x: 0, y: 0, z: FX_ONE });
        v.push(Vec3Fx { x: FX_ONE, y: FX_ONE, z: 0 });
        v.push(Vec3Fx { x: FX_ONE, y: 0, z: FX_ONE });
        v.push(Vec3Fx { x: 0, y: FX_ONE, z: FX_ONE });
        v.push(Vec3Fx { x: FX_ONE, y: 32768, z: 0 });
        v.push(Vec3Fx { x: 32768, y: 0, z: 32768 });
        v.push(Vec3Fx { x: 32768, y: FX_ONE, z: 32768 });
        proof {
            assert(v@ =~= spec_default_palette());
        }
        v
    }

    /// A turtle with the default configuration: unit steps, a 25-degree
    /// angle, the default palette, height-based coloring.
    pub fn new() -> (r: Turtle3D)
        ensures
            r.current_state == spec_initial_state(),
            r.state_stack@.len() == 0,
            r.step_length == FX_ONE,
            r.angle_cos == spec_cos_sin(spec_deg_to_rad(1638400)).0,
            r.angle_sin == spec_cos_sin(spec_deg_to_rad(1638400)).1,
            r.color_palette@ == spec_default_palette(),
            r.current_color_index == 0,
            r.depth_colors,
    {
        let rad: i64 = deg_to_rad(1638400);  // 25 degrees
        let cs: (i64, i64) = cos_sin(rad);
        Turtle3D {
            current_state: TurtleState::new(),
            state_stack: Vec::new(),
            step_length: FX_ONE,
            angle_cos: cs.0,
            angle_sin: cs.1,
            color_palette: Self::create_color_palette(),
            current_color_index: 0,
            depth_colors: true,
        }
    }

    /// Change the step length.
    pub fn set_step_length(&mut self, length: i64)
        ensures
            *final(self) == (Turtle3D { step_length: length, ..*old(self) }),
    {
        self.step_length = length;
    }

    /// Change the turn angle, given in fixed-point degrees.
    pub fn set_angle(&mut self, angle_degrees: i64)
        ensures
            final(self).angle_cos == spec_cos_sin(spec_deg_to_rad(angle_degrees as int)).0,
            final(self).angle_sin == spec_cos_sin(spec_deg_to_rad(angle_degrees as int)).1,
            *final(self) == (Turtle3D {
                angle_cos: final(self).angle_cos,
                angle_sin: final(self).angle_sin,
                ..*old(self)
            }),
    {
        let rad: i64 = deg_to_rad(angle_degrees);
        let cs: (i64, i64) = cos_sin(rad);
        self.angle_cos = cs.0;
        self.angle_sin = cs.1;
    }

    /// Choose between height-based and palette coloring.
    pub fn set_depth_colors(&mut self, enabled: bool)
        ensures
            *final(self) == (Turtle3D { depth_colors: enabled, ..*old(self) }),
    {
        self.depth_colors = enabled;
    }

    /// Reset the turtle to the initial state with an empty stack.
    pub fn reset(&mut self)
        ensures
            final(self).current_state == spec_initial_state(),
            final(self).state_stack@.len() == 0,
            final(self).current_color_index == 0,
            spec_cfg(*final(self)) =~= spec_cfg(*old(self)),
    {
        self.current_state = TurtleState::new();
        self.state_stack.clear();
        self.current_color_index = 0;
    }

    /// One step forward, drawing a segment if `draw`.
    fn forward(&mut self, renderer: &mut Renderer, draw: bool)
        ensures
            final(self).current_state == spec_forward_state(
                spec_cfg(*old(self)),
                old(self).current_state,
            ),
            final(self).state_stack@ == old(self).state_stack@,
            final(self).current_color_index == old(self).current_color_index,
            spec_cfg(*final(self)) =~= spec_cfg(*old(self)),
            final(renderer).spec_lines() == if draw {
                old(renderer).spec_lines().push(
                    spec_forward_seg(spec_cfg(*old(self)), old(self).current_state),
                )
            } else {
                old(renderer).spec_lines()
            },
            final(renderer).spec_pixels() == old(renderer).spec_pixels(),
            final(renderer).spec_depths() == old(renderer).spec_depths(),
            final(renderer).spec_width() == old(renderer).spec_width(),
            final(renderer).spec_height() == old(renderer).spec_height(),
            old(renderer).wf() ==> final(renderer).wf(),
    {
        let new_position: Vec3Fx = v3_add(
            self.current_state.position,
            v3_scale(self.current_state.direction, self.step_length),
        );
        if draw {
            let color: Vec3Fx = if self.depth_colors {
                depth_color(self.current_state.position.y)
            } else {
                self.current_state.color
            };
            let start: Vertex = Vertex::new(self.current_state.position, color);
            let end: Vertex = Vertex::new(new_position, color);
            renderer.add_line(Line::new(start, end));
        }
        self.current_state.position = new_position;
    }

    /// Apply one recognized command to the turtle, emitting into `renderer`.
    fn apply_command(&mut self, renderer: &mut Renderer, c: char)
        ensures
            ({
                let cfg = spec_cfg(*old(self));
                let sim0 = TurtleSim {
                    st: old(self).current_state,
                    stack: old(self).state_stack@,
                    color_idx: old(self).current_color_index as int,
                    segs: Seq::empty(),
                };
                let r = spec_turtle_step(cfg, sim0, c);
                &&& final(self).current_state == r.st
                &&& final(self).state_stack@ == r.stack
                &&& final(self).current_color_index as int == r.color_idx
                &&& final(renderer).spec_lines() == old(renderer).spec_lines() + r.segs
            }),
            spec_cfg(*final(self)) =~= spec_cfg(*old(self)),
            final(renderer).spec_pixels() == old(renderer).spec_pixels(),
            final(renderer).spec_depths() == old(renderer).spec_depths(),
            final(renderer).spec_width() == old(renderer).spec_width(),
            final(renderer).spec_height() == old(renderer).spec_height(),
            old(renderer).wf() ==> final(renderer).wf(),
    {
        proof {
            reveal(spec_turtle_step);
        }
        let ghost segs0 = renderer.spec_lines();
        if c == 'F' || c == 'G' {
            self.forward(renderer, true);
            proof {
                assert(renderer.spec_lines() =~= segs0 + seq![
                    spec_forward_seg(spec_cfg(*old(self)), old(self).current_state),
                ]);
            }
        } else if c == 'f' || c == 'g' {
            self.forward(renderer, false);
            proof {
                assert(renderer.spec_lines() =~= segs0 + Seq::<Line>::empty());
            }
        } else if c == '+' {
            self.current_state.direction = rotate(
                self.current_state.direction,
                self.current_state.up,
                self.angle_cos,
                self.angle_sin,
            );
            proof {
                assert(renderer.spec_lines() =~= segs0 + Seq::<Line>::empty());
            }
        } else if c == '-' {
            self.current_state.direction = rotate(
                self.current_state.direction,
                self.current_state.up,
                self.angle_cos,
                fx_sub(0, self.angle_sin),
            );
            proof {
                assert(renderer.spec_lines() =~= segs0 + Seq::<Line>::empty());
            }
        } else if c == '&' {
            let right: Vec3Fx = v3_cross(self.current_state.direction, self.current_state.up);
            let ns: i64 = fx_sub(0, self.angle_sin);
            self.current_state.direction = rotate(
                self.current_state.direction,
                right,
                self.angle_cos,
                ns,
            );
            self.current_state.up = rotate(self.current_state.up, right, self.angle_cos, ns);
            proof {
                assert(renderer.spec_lines() =~= segs0 + Seq::<Line>::empty());
            }
        } else if c == '^' {
            let right: Vec3Fx = v3_cross(self.current_state.direction, self.current_state.up);
            self.current_state.direction = rotate(
                self.current_state.direction,
                right,
                self.angle_cos,
                self.angle_sin,
            );
            self.current_state.up = rotate(
                self.current_state.up,
                right,
                self.angle_cos,
                self.angle_sin,
            );
            proof {
                assert(renderer.spec_lines() =~= segs0 + Seq::<Line>::empty());
            }
        } else if c == '\\' {
            self.current_state.up = rotate(
                self.current_state.up,
                self.current_state.direction,
                self.angle_cos,
                self.angle_sin,
            );
            proof {
                assert(renderer.spec_lines() =~= segs0 + Seq::<Line>::empty());
            }
        } else if c == '/' {
            self.current_state.up = rotate(
                self.current_state.up,
                self.current_state.direction,
                self.angle_cos,
                fx_sub(0, self.angle_sin),
            );
            proof {
                assert(renderer.spec_lines() =~= segs0 + Seq::<Line>::empty());
            }
        } else if c == '|' {
            self.current_state.direction = v3_neg(self.current_state.direction);
            proof {
                assert(renderer.spec_lines() =~= segs0 + Seq::<Line>::empty());
            }
        } else if c == '[' {
            let snapshot: TurtleState = self.current_state;
            self.state_stack.push(snapshot);
            proof {
                assert(renderer.spec_lines() =~= segs0 + Seq::<Line>::empty());
            }
        } else if c == ']' {
            match self.state_stack.pop() {
                Some(state) => {
                    self.current_state = state;
                },
                None => {},
            }
            proof {
                assert(renderer.spec_lines() =~= segs0 + Seq::<Line>::empty());
            }
        } else if c == '#' {
            let len: usize = self.color_palette.len();
            if len > 0 {
                let nidx: usize = (self.current_color_index % len + 1) % len;
                self.current_color_index = nidx;
                self.current_state.color = self.color_palette[nidx];
            }
            proof {
                assert(renderer.spec_lines() =~= segs0 + Seq::<Line>::empty());
            }
        } else if c == '\'' {
            let w6: i64 = sat_to_i64(div_floor((self.current_state.line_width as i128) * 6, 5));
            self.current_state.line_width = fx_clamp(w6, WIDTH_MIN, WIDTH_MAX);
            proof {
                assert(renderer.spec_lines() =~= segs0 + Seq::<Line>::empty());
            }
        } else if c == '!' {
            let w4: i64 = sat_to_i64(div_floor((self.current_state.line_width as i128) * 4, 5));
            self.current_state.line_width = fx_clamp(w4, WIDTH_MIN, WIDTH_MAX);
            proof {
                assert(renderer.spec_lines() =~= segs0 + Seq::<Line>::empty());
            }
        } else {
            proof {
                assert(renderer.spec_lines() =~= segs0 + Seq::<Line>::empty());
            }
        }
    }

    /// Interpret a whole command sequence, left to right, emitting segments
    /// into `renderer`. Everything but the segment list is left untouched on
    /// the renderer.
    #[verifier::loop_isolation(false)]
    #[verifier::rlimit(100)]
    pub fn interpret(&mut self, commands: &Vec<char>, renderer: &mut Renderer)
        ensures
            ({
                let r = spec_turtle_run(
                    spec_cfg(*old(self)),
                    TurtleSim {
                        st: old(self).current_state,
                        stack: old(self).state_stack@,
                        color_idx: old(self).current_color_index as int,
                        segs: Seq::empty(),
                    },
                    commands@,
                );
                &&& final(self).current_state == r.st
                &&& final(self).state_stack@ == r.stack
                &&& final(self).current_color_index as int == r.color_idx
                &&& final(renderer).spec_lines() == old(renderer).spec_lines() + r.segs
            }),
            spec_cfg(*final(self)) =~= spec_cfg(*old(self)),
            final(renderer).spec_pixels() == old(renderer).spec_pixels(),
            final(renderer).spec_depths() == old(renderer).spec_depths(),
            final(renderer).spec_width() == old(renderer).spec_width(),
            final(renderer).spec_height() == old(renderer).spec_height(),
            old(renderer).wf() ==> final(renderer).wf(),
    {
        let ghost cfg = spec_cfg(*old(self));
        let ghost sim0 = TurtleSim {
            st: old(self).current_state,
            stack: old(self).state_stack@,
            color_idx: old(self).current_color_index as int,
            segs: Seq::empty(),
        };
        let n: usize = commands.len();
        let mut i: usize = 0;
        while i < n
            invariant
                0 <= i <= n,
                ({
                    let r = spec_turtle_run(cfg, sim0, commands@.take(i as int));
                    &&& self.current_state == r.st
                    &&& self.state_stack@ == r.stack
                    &&& self.current_color_index as int == r.color_idx
                    &&& renderer.spec_lines() == old(renderer).spec_lines() + r.segs
                }),
                spec_cfg(*self) =~= cfg,
                renderer.spec_pixels() == old(renderer).spec_pixels(),
                renderer.spec_depths() == old(renderer).spec_depths(),
                renderer.spec_width() == old(renderer).spec_width(),
                renderer.spec_height() == old(renderer).spec_height(),
                old(renderer).wf() ==> renderer.wf(),
            decreases n - i,
        {
            let c: char = commands[i];
            let ghost r_before = spec_turtle_run(cfg, sim0, commands@.take(i as int));
            let ghost segs_before = renderer.spec_lines();
            self.apply_command(renderer, c);
            proof {
                let stepped = spec_turtle_step(
                    cfg,
                    TurtleSim {
                        st: r_before.st,
                        stack: r_before.stack,
                        color_idx: r_before.color_idx,
                        segs: Seq::empty(),
                    },
                    c,
                );
                lemma_step_shifts_segs(cfg, r_before, c);
                assert(commands@.take(i + 1) =~= commands@.take(i as int) + seq![c]);
                lemma_turtle_run_append(cfg, sim0, commands@.take(i as int), seq![c]);
                assert(seq![c].subrange(1, 1) =~= Seq::<char>::empty());
                assert(seq![c][0] == c);
                assert(spec_turtle_run(
                    cfg,
                    spec_turtle_step(cfg, r_before, c),
                    seq![c].subrange(1, 1),
                ) == spec_turtle_step(cfg, r_before, c));
                assert(spec_turtle_run(cfg, r_before, seq![c]) == spec_turtle_step(
                    cfg,
                    r_before,
                    c,
                ));
                assert(renderer.spec_lines() =~= old(renderer).spec_lines() + (r_before.segs
                    + stepped.segs));
            }
            i = i + 1;
        }
        proof {
            assert(commands@.take(n as int) =~= commands@);
        }
    }
}

/// The default palette as a sequence.
pub open spec fn spec_default_palette() -> Seq<Vec3Fx> {
    seq![
        Vec3Fx { x: 0i64, y: FX_ONE, z: 0i64 },
        Vec3Fx { x: 52429i64, y: 26214i64, z: 0i64 },
        Vec3Fx { x: FX_ONE, y: 0i64, z: 0i64 },
        Vec3Fx { x: 0i64, y: 0i64, z: FX_ONE },
        Vec3Fx { x: FX_ONE, y: FX_ONE, z: 0i64 },
        Vec3Fx { x: FX_ONE, y: 0i64, z: FX_ONE },
        Vec3Fx { x: 0i64, y: FX_ONE, z: FX_ONE },
        Vec3Fx { x: FX_ONE, y: 32768i64, z: 0i64 },
        Vec3Fx { x: 32768i64, y: 0i64, z: 32768i64 },
        Vec3Fx { x: 32768i64, y: FX_ONE, z: 32768i64 },
    ]
}

/// Whether `v` is one of the six exactly-unit axis vectors.
pub open spec fn is_axis_unit(v: Vec3Fx) -> bool {
    ||| v == (Vec3Fx { x: FX_ONE, y: 0i64, z: 0i64 })
    ||| v == (Vec3Fx { x: (-FX_ONE) as i64, y: 0i64, z: 0i64 })
    ||| v == (Vec3Fx { x: 0i64, y: FX_ONE, z: 0i64 })
    ||| v == (Vec3Fx { x: 0i64, y: (-FX_ONE) as i64, z: 0i64 })
    ||| v == (Vec3Fx { x: 0i64, y: 0i64, z: FX_ONE })
    ||| v == (Vec3Fx { x: 0i64, y: 0i64, z: (-FX_ONE) as i64 })
}

/// An exactly orthonormal, axis-aligned heading and up pair.
pub open spec fn axis_ortho_frame(dir: Vec3Fx, up: Vec3Fx) -> bool {
    is_axis_unit(dir) && is_axis_unit(up) && spec_v3_dot(dir, up) == 0
}

/// The ground products and quotients of the axis-unit component values.
proof fn lemma_axis_ground_facts()
    ensures
        65536int * 65536 == 4294967296,
        65536int * (-65536) == -4294967296,
        (-65536int) * 65536 == -4294967296,
        (-65536int) * (-65536) == 4294967296,
        65536int * 0 == 0,
        (-65536int) * 0 == 0,
        0int * 65536 == 0,
        0int * (-65536) == 0,
        0int * 0 == 0,
        4294967296int / 65536 == 65536,
        (-4294967296int) / 65536 == -65536,
        0int / 65536 == 0,
{
    assert(65536int * 65536 == 4294967296) by (nonlinear_arith);
    assert(65536int * (-65536) == -4294967296) by (nonlinear_arith);
    assert((-65536int) * 65536 == -4294967296) by (nonlinear_arith);
    assert((-65536int) * (-65536) == 4294967296) by (nonlinear_arith);
    assert(65536int * 0 == 0) by (nonlinear_arith);
    assert((-65536int) * 0 == 0) by (nonlinear_arith);
    assert(0int * 65536 == 0) by (nonlinear_arith);
    assert(0int * (-65536) == 0) by (nonlinear_arith);
    assert(0int * 0 == 0) by (nonlinear_arith);
    crate::fixed::lemma_mul_div_cancel(65536, 65536);
    crate::fixed::lemma_mul_div_cancel(-65536, 65536);
    assert(65536int * 65536 == 4294967296) by (nonlinear_arith);
    assert((-65536int) * 65536 == -4294967296) by (nonlinear_arith);
    vstd::arithmetic::div_mod::lemma_div_of0(65536int);
}

/// With a cosine of zero, the Rodrigues rotation about a perpendicular axis
/// is exactly the cross product with the axis (or its negation, for the
/// negative quarter turn).
pub proof fn lemma_rotate_quarter(v: Vec3Fx, k: Vec3Fx, s: i64)
    requires
        spec_v3_dot(k, v) == 0,
        s == FX_ONE || s as int == -(FX_ONE as int),
    ensures
        s == FX_ONE ==> spec_rotate(v, k, 0, s) == spec_v3_cross(k, v),
        s != FX_ONE ==> spec_rotate(v, k, 0, s) == spec_v3_neg(spec_v3_cross(k, v)),
{
    reveal(spec_rotate);
    crate::fixed::lemma_fx_mul_zero(v.x as int);
    crate::fixed::lemma_fx_mul_zero(v.y as int);
    crate::fixed::lemma_fx_mul_zero(v.z as int);
    crate::fixed::lemma_fx_mul_zero(k.x as int);
    crate::fixed::lemma_fx_mul_zero(k.y as int);
    crate::fixed::lemma_fx_mul_zero(k.z as int);
    crate::fixed::lemma_fx_mul_zero(FX_ONE as int);
    let cr = spec_v3_cross(k, v);
    crate::fixed::lemma_fx_mul_unit(cr.x as int);
    crate::fixed::lemma_fx_mul_unit(cr.y as int);
    crate::fixed::lemma_fx_mul_unit(cr.z as int);
    if s != FX_ONE {
        assert((cr.x as int) * (s as int) == (-(cr.x as int)) * (FX_ONE as int))
            by (nonlinear_arith)
            requires
                s as int == -(FX_ONE as int);
        assert((cr.y as int) * (s as int) == (-(cr.y as int)) * (FX_ONE as int))
            by (nonlinear_arith)
            requires
                s as int == -(FX_ONE as int);
        assert((cr.z as int) * (s as int) == (-(cr.z as int)) * (FX_ONE as int))
            by (nonlinear_arith)
            requires
                s as int == -(FX_ONE as int);
        crate::fixed::lemma_mul_div_cancel(-(cr.x as int), FX_ONE as int);
        crate::fixed::lemma_mul_div_cancel(-(cr.y as int), FX_ONE as int);
        crate::fixed::lemma_mul_div_cancel(-(cr.z as int), FX_ONE as int);
    }
}


/// For an exactly orthonormal axis-aligned frame, every cross product a
/// right-angle command needs is again an exact axis unit, perpendicular
/// where the rotation requires it, and negation preserves the frame.
#[verifier::rlimit(100)]
proof fn lemma_axis_frame_cases(dir: Vec3Fx, up: Vec3Fx)
    requires
        axis_ortho_frame(dir, up),
    ensures
        axis_ortho_frame(spec_v3_cross(up, dir), up),
        axis_ortho_frame(spec_v3_neg(spec_v3_cross(up, dir)), up),
        axis_ortho_frame(dir, spec_v3_cross(dir, up)),
        axis_ortho_frame(dir, spec_v3_neg(spec_v3_cross(dir, up))),
        axis_ortho_frame(
            spec_v3_cross(spec_v3_cross(dir, up), dir),
            spec_v3_cross(spec_v3_cross(dir, up), up),
        ),
        axis_ortho_frame(
            spec_v3_neg(spec_v3_cross(spec_v3_cross(dir, up), dir)),
            spec_v3_neg(spec_v3_cross(spec_v3_cross(dir, up), up)),
        ),
        axis_ortho_frame(spec_v3_neg(dir), up),
        spec_v3_dot(up, dir) == 0,
        spec_v3_dot(spec_v3_cross(dir, up), dir) == 0,
        spec_v3_dot(spec_v3_cross(dir, up), up) == 0,
{
    lemma_axis_ground_facts();
    if dir == (Vec3Fx { x: 65536i64, y: 0i64, z: 0i64 }) {
        if up == (Vec3Fx { x: 0i64, y: 65536i64, z: 0i64 }) {
            assert(spec_v3_cross(up, dir) == (Vec3Fx { x: 0i64, y: 0i64, z: (-65536) as i64 }));
            assert(spec_v3_cross(dir, up) == (Vec3Fx { x: 0i64, y: 0i64, z: 65536i64 }));
            assert(spec_v3_cross(spec_v3_cross(dir, up), dir) == (Vec3Fx { x: 0i64, y: 65536i64, z: 0i64 }));
            assert(spec_v3_cross(spec_v3_cross(dir, up), up) == (Vec3Fx { x: (-65536) as i64, y: 0i64, z: 0i64 }));
            assert(spec_v3_dot(spec_v3_cross(up, dir), up) == 0);
            assert(spec_v3_dot(dir, spec_v3_cross(dir, up)) == 0);
            assert(spec_v3_dot(spec_v3_cross(dir, up), dir) == 0);
            assert(spec_v3_dot(spec_v3_cross(dir, up), up) == 0);
            assert(spec_v3_dot(up, dir) == 0);
        } else if up == (Vec3Fx { x: 0i64, y: (-65536) as i64, z: 0i64 }) {
            assert(spec_v3_cross(up, dir) == (Vec3Fx { x: 0i64, y: 0i64, z: 65536i64 }));
            assert(spec_v3_cross(dir, up) == (Vec3Fx { x: 0i64, y: 0i64, z: (-65536) as i64 }));
            assert(spec_v3_cross(spec_v3_cross(dir, up), dir) == (Vec3Fx { x: 0i64, y: (-65536) as i64, z: 0i64 }));
            assert(spec_v3_cross(spec_v3_cross(dir, up), up) == (Vec3Fx { x: (-65536) as i64, y: 0i64, z: 0i64 }));
            assert(spec_v3_dot(spec_v3_cross(up, dir), up) == 0);
            assert(spec_v3_dot(dir, spec_v3_cross(dir, up)) == 0);
            assert(spec_v3_dot(spec_v3_cross(dir, up), dir) == 0);
            assert(spec_v3_dot(spec_v3_cross(dir, up), up) == 0);
            assert(spec_v3_dot(up, dir) == 0);
        } else if up == (Vec3Fx { x: 0i64, y: 0i64, z: 65536i64 }) {
            assert(spec_v3_cross(up, dir) == (Vec3Fx { x: 0i64, y: 65536i64, z: 0i64 }));
            assert(spec_v3_cross(dir, up) == (Vec3Fx { x: 0i64, y: (-65536) as i64, z: 0i64 }));
            assert(spec_v3_cross(spec_v3_cross(dir, up), dir) == (Vec3Fx { x: 0i64, y: 0i64, z: 65536i64 }));
            assert(spec_v3_cross(spec_v3_cross(dir, up), up) == (Vec3Fx { x: (-65536) as i64, y: 0i64, z: 0i64 }));
            assert(spec_v3_dot(spec_v3_cross(up, dir), up) == 0);
            assert(spec_v3_dot(dir, spec_v3_cross(dir, up)) == 0);
            assert(spec_v3_dot(spec_v3_cross(dir, up), dir) == 0);
            assert(spec_v3_dot(spec_v3_cross(dir, up), up) == 0);
            assert(spec_v3_dot(up, dir) == 0);
        } else if up == (Vec3Fx { x: 0i64, y: 0i64, z: (-65536) as i64 }) {
            assert(spec_v3_cross(up, dir) == (Vec3Fx { x: 0i64, y: (-65536) as i64, z: 0i64 }));
            assert(spec_v3_cross(dir, up) == (Vec3Fx { x: 0i64, y: 65536i64, z: 0i64 }));
            assert(spec_v3_cross(spec_v3_cross(dir, up), dir) == (Vec3Fx { x: 0i64, y: 0i64, z: (-65536) as i64 }));
            assert(spec_v3_cross(spec_v3_cross(dir, up), up) == (Vec3Fx { x: (-65536) as i64, y: 0i64, z: 0i64 }));
            assert(spec_v3_dot(spec_v3_cross(up, dir), up) == 0);
            assert(spec_v3_dot(dir, spec_v3_cross(dir, up)) == 0);
            assert(spec_v3_dot(spec_v3_cross(dir, up), dir) == 0);
            assert(spec_v3_dot(spec_v3_cross(dir, up), up) == 0);
            assert(spec_v3_dot(up, dir) == 0);
        } else {
            assert(false);
        }
    } else if dir == (Vec3Fx { x: (-65536) as i64, y: 0i64, z: 0i64 }) {
        if up == (Vec3Fx { x: 0i64, y: 65536i64, z: 0i64 }) {
            assert(spec_v3_cross(up, dir) == (Vec3Fx { x: 0i64, y: 0i64, z: 65536i64 }));
            assert(spec_v3_cross(dir, up) == (Vec3Fx { x: 0i64, y: 0i64, z: (-65536) as i64 }));
            assert(spec_v3_cross(spec_v3_cross(dir, up), dir) == (Vec3Fx { x: 0i64, y: 65536i64, z: 0i64 }));
            assert(spec_v3_cross(spec_v3_cross(dir, up), up) == (Vec3Fx { x: 65536i64, y: 0i64, z: 0i64 }));
            assert(spec_v3_dot(spec_v3_cross(up, dir), up) == 0);
            assert(spec_v3_dot(dir, spec_v3_cross(dir, up)) == 0);
            assert(spec_v3_dot(spec_v3_cross(dir, up), dir) == 0);
            assert(spec_v3_dot(spec_v3_cross(dir, up), up) == 0);
            assert(spec_v3_dot(up, dir) == 0);
        } else if up == (Vec3Fx { x: 0i64, y: (-65536) as i64, z: 0i64 }) {
            assert(spec_v3_cross(up, dir) == (Vec3Fx { x: 0i64, y: 0i64, z: (-65536) as i64 }));
            assert(spec_v3_cross(dir, up) == (Vec3Fx { x: 0i64, y: 0i64, z: 65536i64 }));
            assert(spec_v3_cross(spec_v3_cross(dir, up), dir) == (Vec3Fx { x: 0i64, y: (-65536) as i64, z: 0i64 }));
            assert(spec_v3_cross(spec_v3_cross(dir, up), up) == (Vec3Fx { x: 65536i64, y: 0i64, z: 0i64 }));
            assert(spec_v3_dot(spec_v3_cross(up, dir), up) == 0);
            assert(spec_v3_dot(dir, spec_v3_cross(dir, up)) == 0);
            assert(spec_v3_dot(spec_v3_cross(dir, up), dir) == 0);
            assert(spec_v3_dot(spec_v3_cross(dir, up), up) == 0);
            assert(spec_v3_dot(up, dir) == 0);
        } else if up == (Vec3Fx { x: 0i64, y: 0i64, z: 65536i64 }) {
            assert(spec_v3_cross(up, dir) == (Vec3Fx { x: 0i64, y: (-65536) as i64, z: 0i64 }));
            assert(spec_v3_cross(dir, up) == (Vec3Fx { x: 0i64, y: 65536i64, z: 0i64 }));
            assert(spec_v3_cross(spec_v3_cross(dir, up), dir) == (Vec3Fx { x: 0i64, y: 0i64, z: 65536i64 }));
            assert(spec_v3_cross(spec_v3_cross(dir, up), up) == (Vec3Fx { x: 65536i64, y: 0i64, z: 0i64 }));
            assert(spec_v3_dot(spec_v3_cross(up, dir), up) == 0);
            assert(spec_v3_dot(dir, spec_v3_cross(dir, up)) == 0);
            assert(spec_v3_dot(spec_v3_cross(dir, up), dir) == 0);
            assert(spec_v3_dot(spec_v3_cross(dir, up), up) == 0);
            assert(spec_v3_dot(up, dir) == 0);
        } else if up == (Vec3Fx { x: 0i64, y: 0i64, z: (-65536) as i64 }) {
            assert(spec_v3_cross(up, dir) == (Vec3Fx { x: 0i64, y: 65536i64, z: 0i64 }));
            assert(spec_v3_cross(dir, up) == (Vec3Fx { x: 0i64, y: (-65536) as i64, z: 0i64 }));
            assert(spec_v3_cross(spec_v3_cross(dir, up), dir) == (Vec3Fx { x: 0i64, y: 0i64, z: (-65536) as i64 }));
            assert(spec_v3_cross(spec_v3_cross(dir, up), up) == (Vec3Fx { x: 65536i64, y: 0i64, z: 0i64 }));
            assert(spec_v3_dot(spec_v3_cross(up, dir), up) == 0);
            assert(spec_v3_dot(dir, spec_v3_cross(dir, up)) == 0);
            assert(spec_v3_dot(spec_v3_cross(dir, up), dir) == 0);
            assert(spec_v3_dot(spec_v3_cross(dir, up), up) == 0);
            assert(spec_v3_dot(up, dir) == 0);
        } else {
            assert(false);
        }
    } else if dir == (Vec3Fx { x: 0i64, y: 65536i64, z: 0i64 }) {
        if up == (Vec3Fx { x: 65536i64, y: 0i64, z: 0i64 }) {
            assert(spec_v3_cross(up, dir) == (Vec3Fx { x: 0i64, y: 0i64, z: 65536i64 }));
            assert(spec_v3_cross(dir, up) == (Vec3Fx { x: 0i64, y: 0i64, z: (-65536) as i64 }));
            assert(spec_v3_cross(spec_v3_cross(dir, up), dir) == (Vec3Fx { x: 65536i64, y: 0i64, z: 0i64 }));
            assert(spec_v3_cross(spec_v3_cross(dir, up), up) == (Vec3Fx { x: 0i64, y: (-65536) as i64, z: 0i64 }));
            assert(spec_v3_dot(spec_v3_cross(up, dir), up) == 0);
            assert(spec_v3_dot(dir, spec_v3_cross(dir, up)) == 0);
            assert(spec_v3_dot(spec_v3_cross(dir, up), dir) == 0);
            assert(spec_v3_dot(spec_v3_cross(dir, up), up) == 0);
            assert(spec_v3_dot(up, dir) == 0);
        } else if up == (Vec3Fx { x: (-65536) as i64, y: 0i64, z: 0i64 }) {
            assert(spec_v3_cross(up, dir) == (Vec3Fx { x: 0i64, y: 0i64, z: (-65536) as i64 }));
            assert(spec_v3_cross(dir, up) == (Vec3Fx { x: 0i64, y: 0i64, z: 65536i64 }));
            assert(spec_v3_cross(spec_v3_cross(dir, up), dir) == (Vec3Fx { x: (-65536) as i64, y: 0i64, z: 0i64 }));
            assert(spec_v3_cross(spec_v3_cross(dir, up), up) == (Vec3Fx { x: 0i64, y: (-65536) as i64, z: 0i64 }));
            assert(spec_v3_dot(spec_v3_cross(up, dir), up) == 0);
            assert(spec_v3_dot(dir, spec_v3_cross(dir, up)) == 0);
            assert(spec_v3_dot(spec_v3_cross(dir, up), dir) == 0);
            assert(spec_v3_dot(spec_v3_cross(dir, up), up) == 0);
            assert(spec_v3_dot(up, dir) == 0);
        } else if up == (Vec3Fx { x: 0i64, y: 0i64, z: 65536i64 }) {
            assert(spec_v3_cross(up, dir) == (Vec3Fx { x: (-65536) as i64, y: 0i64, z: 0i64 }));
            assert(spec_v3_cross(dir, up) == (Vec3Fx { x: 65536i64, y: 0i64, z: 0i64 }));
            assert(spec_v3_cross(spec_v3_cross(dir, up), dir) == (Vec3Fx { x: 0i64, y: 0i64, z: 65536i64 }));
            assert(spec_v3_cross(spec_v3_cross(dir, up), up) == (Vec3Fx { x: 0i64, y: (-65536) as i64, z: 0i64 }));
            assert(spec_v3_dot(spec_v3_cross(up, dir), up) == 0);
            assert(spec_v3_dot(dir, spec_v3_cross(dir, up)) == 0);
            assert(spec_v3_dot(spec_v3_cross(dir, up), dir) == 0);
            assert(spec_v3_dot(spec_v3_cross(dir, up), up) == 0);
            assert(spec_v3_dot(up, dir) == 0);
        } else if up == (Vec3Fx { x: 0i64, y: 0i64, z: (-65536) as i64 }) {
            assert(spec_v3_cross(up, dir) == (Vec3Fx { x: 65536i64, y: 0i64, z: 0i64 }));
            assert(spec_v3_cross(dir, up) == (Vec3Fx { x: (-65536) as i64, y: 0i64, z: 0i64 }));
            assert(spec_v3_cross(spec_v3_cross(dir, up), dir) == (Vec3Fx { x: 0i64, y: 0i64, z: (-65536) as i64 }));
            assert(spec_v3_cross(spec_v3_cross(dir, up), up) == (Vec3Fx { x: 0i64, y: (-65536) as i64, z: 0i64 }));
            assert(spec_v3_dot(spec_v3_cross(up, dir), up) == 0);
            assert(spec_v3_dot(dir, spec_v3_cross(dir, up)) == 0);
            assert(spec_v3_dot(spec_v3_cross(dir, up), dir) == 0);
            assert(spec_v3_dot(spec_v3_cross(dir, up), up) == 0);
            assert(spec_v3_dot(up, dir) == 0);
        } else {
            assert(false);
        }
    } else if dir == (Vec3Fx { x: 0i64, y: (-65536) as i64, z: 0i64 }) {
        if up == (Vec3Fx { x: 65536i64, y: 0i64, z: 0i64 }) {
            assert(spec_v3_cross(up, dir) == (Vec3Fx { x: 0i64, y: 0i64, z: (-65536) as i64 }));
            assert(spec_v3_cross(dir, up) == (Vec3Fx { x: 0i64, y: 0i64, z: 65536i64 }));
            assert(spec_v3_cross(spec_v3_cross(dir, up), dir) == (Vec3Fx { x: 65536i64, y: 0i64, z: 0i64 }));
            assert(spec_v3_cross(spec_v3_cross(dir, up), up) == (Vec3Fx { x: 0i64, y: 65536i64, z: 0i64 }));
            assert(spec_v3_dot(spec_v3_cross(up, dir), up) == 0);
            assert(spec_v3_dot(dir, spec_v3_cross(dir, up)) == 0);
            assert(spec_v3_dot(spec_v3_cross(dir, up), dir) == 0);
            assert(spec_v3_dot(spec_v3_cross(dir, up), up) == 0);
            assert(spec_v3_dot(up, dir) == 0);
        } else if up == (Vec3Fx { x: (-65536) as i64, y: 0i64, z: 0i64 }) {
            assert(spec_v3_cross(up, dir) == (Vec3Fx { x: 0i64, y: 0i64, z: 65536i64 }));
            assert(spec_v3_cross(dir, up) == (Vec3Fx { x: 0i64, y: 0i64, z: (-65536) as i64 }));
            assert(spec_v3_cross(spec_v3_cross(dir, up), dir) == (Vec3Fx { x: (-65536) as i64, y: 0i64, z: 0i64 }));
            assert(spec_v3_cross(spec_v3_cross(dir, up), up) == (Vec3Fx { x: 0i64, y: 65536i64, z: 0i64 }));
            assert(spec_v3_dot(spec_v3_cross(up, dir), up) == 0);
            assert(spec_v3_dot(dir, spec_v3_cross(dir, up)) == 0);
            assert(spec_v3_dot(spec_v3_cross(dir, up), dir) == 0);
            assert(spec_v3_dot(spec_v3_cross(dir, up), up) == 0);
            assert(spec_v3_dot(up, dir) == 0);
        } else if up == (Vec3Fx { x: 0i64, y: 0i64, z: 65536i64 }) {
            assert(spec_v3_cross(up, dir) == (Vec3Fx { x: 65536i64, y: 0i64, z: 0i64 }));
            assert(spec_v3_cross(dir, up) == (Vec3Fx { x: (-65536) as i64, y: 0i64, z: 0i64 }));
            assert(spec_v3_cross(spec_v3_cross(dir, up), dir) == (Vec3Fx { x: 0i64, y: 0i64, z: 65536i64 }));
            assert(spec_v3_cross(spec_v3_cross(dir, up), up) == (Vec3Fx { x: 0i64, y: 65536i64, z: 0i64 }));
            assert(spec_v3_dot(spec_v3_cross(up, dir), up) == 0);
            assert(spec_v3_dot(dir, spec_v3_cross(dir, up)) == 0);
            assert(spec_v3_dot(spec_v3_cross(dir, up), dir) == 0);
            assert(spec_v3_dot(spec_v3_cross(dir, up), up) == 0);
            assert(spec_v3_dot(up, dir) == 0);
        } else if up == (Vec3Fx { x: 0i64, y: 0i64, z: (-65536) as i64 }) {
            assert(spec_v3_cross(up, dir) == (Vec3Fx { x: (-65536) as i64, y: 0i64, z: 0i64 }));
            assert(spec_v3_cross(dir, up) == (Vec3Fx { x: 65536i64, y: 0i64, z: 0i64 }));
            assert(spec_v3_cross(spec_v3_cross(dir, up), dir) == (Vec3Fx { x: 0i64, y: 0i64, z: (-65536) as i64 }));
            assert(spec_v3_cross(spec_v3_cross(dir, up), up) == (Vec3Fx { x: 0i64, y: 65536i64, z: 0i64 }));
            assert(spec_v3_dot(spec_v3_cross(up, dir), up) == 0);
            assert(spec_v3_dot(dir, spec_v3_cross(dir, up)) == 0);
            assert(spec_v3_dot(spec_v3_cross(dir, up), dir) == 0);
            assert(spec_v3_dot(spec_v3_cross(dir, up), up) == 0);
            assert(spec_v3_dot(up, dir) == 0);
        } else {
            assert(false);
        }
    } else if dir == (Vec3Fx { x: 0i64, y: 0i64, z: 65536i64 }) {
        if up == (Vec3Fx { x: 65536i64, y: 0i64, z: 0i64 }) {
            assert(spec_v3_cross(up, dir) == (Vec3Fx { x: 0i64, y: (-65536) as i64, z: 0i64 }));
            assert(spec_v3_cross(dir, up) == (Vec3Fx { x: 0i64, y: 65536i64, z: 0i64 }));
            assert(spec_v3_cross(spec_v3_cross(dir, up), dir) == (Vec3Fx { x: 65536i64, y: 0i64, z: 0i64 }));
            assert(spec_v3_cross(spec_v3_cross(dir, up), up) == (Vec3Fx { x: 0i64, y: 0i64, z: (-65536) as i64 }));
            assert(spec_v3_dot(spec_v3_cross(up, dir), up) == 0);
            assert(spec_v3_dot(dir, spec_v3_cross(dir, up)) == 0);
            assert(spec_v3_dot(spec_v3_cross(dir, up), dir) == 0);
            assert(spec_v3_dot(spec_v3_cross(dir, up), up) == 0);
            assert(spec_v3_dot(up, dir) == 0);
        } else if up == (Vec3Fx { x: (-65536) as i64, y: 0i64, z: 0i64 }) {
            assert(spec_v3_cross(up, dir) == (Vec3Fx { x: 0i64, y: 65536i64, z: 0i64 }));
            assert(spec_v3_cross(dir, up) == (Vec3Fx { x: 0i64, y: (-65536) as i64, z: 0i64 }));
            assert(spec_v3_cross(spec_v3_cross(dir, up), dir) == (Vec3Fx { x: (-65536) as i64, y: 0i64, z: 0i64 }));
            assert(spec_v3_cross(spec_v3_cross(dir, up), up) == (Vec3Fx { x: 0i64, y: 0i64, z: (-65536) as i64 }));
            assert(spec_v3_dot(spec_v3_cross(up, dir), up) == 0);
            assert(spec_v3_dot(dir, spec_v3_cross(dir, up)) == 0);
            assert(spec_v3_dot(spec_v3_cross(dir, up), dir) == 0);
            assert(spec_v3_dot(spec_v3_cross(dir, up), up) == 0);
            assert(spec_v3_dot(up, dir) == 0);
        } else if up == (Vec3Fx { x: 0i64, y: 65536i64, z: 0i64 }) {
            assert(spec_v3_cross(up, dir) == (Vec3Fx { x: 65536i64, y: 0i64, z: 0i64 }));
            assert(spec_v3_cross(dir, up) == (Vec3Fx { x: (-65536) as i64, y: 0i64, z: 0i64 }));
            assert(spec_v3_cross(spec_v3_cross(dir, up), dir) == (Vec3Fx { x: 0i64, y: 65536i64, z: 0i64 }));
            assert(spec_v3_cross(spec_v3_cross(dir, up), up) == (Vec3Fx { x: 0i64, y: 0i64, z: (-65536) as i64 }));
            assert(spec_v3_dot(spec_v3_cross(up, dir), up) == 0);
            assert(spec_v3_dot(dir, spec_v3_cross(dir, up)) == 0);
            assert(spec_v3_dot(spec_v3_cross(dir, up), dir) == 0);
            assert(spec_v3_dot(spec_v3_cross(dir, up), up) == 0);
            assert(spec_v3_dot(up, dir) == 0);
        } else if up == (Vec3Fx { x: 0i64, y: (-65536) as i64, z: 0i64 }) {
            assert(spec_v3_cross(up, dir) == (Vec3Fx { x: (-65536) as i64, y: 0i64, z: 0i64 }));
            assert(spec_v3_cross(dir, up) == (Vec3Fx { x: 65536i64, y: 0i64, z: 0i64 }));
            assert(spec_v3_cross(spec_v3_cross(dir, up), dir) == (Vec3Fx { x: 0i64, y: (-65536) as i64, z: 0i64 }));
            assert(spec_v3_cross(spec_v3_cross(dir, up), up) == (Vec3Fx { x: 0i64, y: 0i64, z: (-65536) as i64 }));
            assert(spec_v3_dot(spec_v3_cross(up, dir), up) == 0);
            assert(spec_v3_dot(dir, spec_v3_cross(dir, up)) == 0);
            assert(spec_v3_dot(spec_v3_cross(dir, up), dir) == 0);
            assert(spec_v3_dot(spec_v3_cross(dir, up), up) == 0);
            assert(spec_v3_dot(up, dir) == 0);
        } else {
            assert(false);
        }
    } else if dir == (Vec3Fx { x: 0i64, y: 0i64, z: (-65536) as i64 }) {
        if up == (Vec3Fx { x: 65536i64, y: 0i64, z: 0i64 }) {
            assert(spec_v3_cross(up, dir) == (Vec3Fx { x: 0i64, y: 65536i64, z: 0i64 }));
            assert(spec_v3_cross(dir, up) == (Vec3Fx { x: 0i64, y: (-65536) as i64, z: 0i64 }));
            assert(spec_v3_cross(spec_v3_cross(dir, up), dir) == (Vec3Fx { x: 65536i64, y: 0i64, z: 0i64 }));
            assert(spec_v3_cross(spec_v3_cross(dir, up), up) == (Vec3Fx { x: 0i64, y: 0i64, z: 65536i64 }));
            assert(spec_v3_dot(spec_v3_cross(up, dir), up) == 0);
            assert(spec_v3_dot(dir, spec_v3_cross(dir, up)) == 0);
            assert(spec_v3_dot(spec_v3_cross(dir, up), dir) == 0);
            assert(spec_v3_dot(spec_v3_cross(dir, up), up) == 0);
            assert(spec_v3_dot(up, dir) == 0);
        } else if up == (Vec3Fx { x: (-65536) as i64, y: 0i64, z: 0i64 }) {
            assert(spec_v3_cross(up, dir) == (Vec3Fx { x: 0i64, y: (-65536) as i64, z: 0i64 }));
            assert(spec_v3_cross(dir, up) == (Vec3Fx { x: 0i64, y: 65536i64, z: 0i64 }));
            assert(spec_v3_cross(spec_v3_cross(dir, up), dir) == (Vec3Fx { x: (-65536) as i64, y: 0i64, z: 0i64 }));
            assert(spec_v3_cross(spec_v3_cross(dir, up), up) == (Vec3Fx { x: 0i64, y: 0i64, z: 65536i64 }));
            assert(spec_v3_dot(spec_v3_cross(up, dir), up) == 0);
            assert(spec_v3_dot(dir, spec_v3_cross(dir, up)) == 0);
            assert(spec_v3_dot(spec_v3_cross(dir, up), dir) == 0);
            assert(spec_v3_dot(spec_v3_cross(dir, up), up) == 0);
            assert(spec_v3_dot(up, dir) == 0);
        } else if up == (Vec3Fx { x: 0i64, y: 65536i64, z: 0i64 }) {
            assert(spec_v3_cross(up, dir) == (Vec3Fx { x: (-65536) as i64, y: 0i64, z: 0i64 }));
            assert(spec_v3_cross(dir, up) == (Vec3Fx { x: 65536i64, y: 0i64, z: 0i64 }));
            assert(spec_v3_cross(spec_v3_cross(dir, up), dir) == (Vec3Fx { x: 0i64, y: 65536i64, z: 0i64 }));
            assert(spec_v3_cross(spec_v3_cross(dir, up), up) == (Vec3Fx { x: 0i64, y: 0i64, z: 65536i64 }));
            assert(spec_v3_dot(spec_v3_cross(up, dir), up) == 0);
            assert(spec_v3_dot(dir, spec_v3_cross(dir, up)) == 0);
            assert(spec_v3_dot(spec_v3_cross(dir, up), dir) == 0);
            assert(spec_v3_dot(spec_v3_cross(dir, up), up) == 0);
            assert(spec_v3_dot(up, dir) == 0);
        } else if up == (Vec3Fx { x: 0i64, y: (-65536) as i64, z: 0i64 }) {
            assert(spec_v3_cross(up, dir) == (Vec3Fx { x: 65536i64, y: 0i64, z: 0i64 }));
            assert(spec_v3_cross(dir, up) == (Vec3Fx { x: (-65536) as i64, y: 0i64, z: 0i64 }));
            assert(spec_v3_cross(spec_v3_cross(dir, up), dir) == (Vec3Fx { x: 0i64, y: (-65536) as i64, z: 0i64 }));
            assert(spec_v3_cross(spec_v3_cross(dir, up), up) == (Vec3Fx { x: 0i64, y: 0i64, z: 65536i64 }));
            assert(spec_v3_dot(spec_v3_cross(up, dir), up) == 0);
            assert(spec_v3_dot(dir, spec_v3_cross(dir, up)) == 0);
            assert(spec_v3_dot(spec_v3_cross(dir, up), dir) == 0);
            assert(spec_v3_dot(spec_v3_cross(dir, up), up) == 0);
            assert(spec_v3_dot(up, dir) == 0);
        } else {
            assert(false);
        }
    } else {
        assert(false);
    }
}

/// The initial turtle frame (+Y heading, +Z up) is exactly orthonormal and
/// axis-aligned, so a right-angle interpretation can start from it.
pub proof fn lemma_initial_frame()
    ensures
        axis_ortho_frame(spec_initial_state().direction, spec_initial_state().up),
{
    lemma_axis_ground_facts();
}

/// An axis unit has an exact fixed-point squared length of one.
proof fn lemma_axis_unit_norm(v: Vec3Fx)
    requires
        is_axis_unit(v),
    ensures
        spec_v3_dot(v, v) == FX_ONE,
{
    lemma_axis_ground_facts();
}

/// One command of a right-angle turtle maps an exactly orthonormal frame to
/// an exactly orthonormal frame, on the current state and on every stack
/// entry.
#[verifier::rlimit(100)]
proof fn lemma_step_axis_frame(cfg: TurtleCfg, sim: TurtleSim, c: char)
    requires
        cfg.angle_cos == 0,
        cfg.angle_sin == FX_ONE || cfg.angle_sin as int == -(FX_ONE as int),
        axis_ortho_frame(sim.st.direction, sim.st.up),
        forall|i: int|
            0 <= i < sim.stack.len() ==> axis_ortho_frame(
                (#[trigger] sim.stack[i]).direction,
                sim.stack[i].up,
            ),
    ensures
        ({
            let r = spec_turtle_step(cfg, sim, c);
            &&& axis_ortho_frame(r.st.direction, r.st.up)
            &&& forall|i: int|
                0 <= i < r.stack.len() ==> axis_ortho_frame(
                    (#[trigger] r.stack[i]).direction,
                    r.stack[i].up,
                )
        }),
{
    reveal(spec_turtle_step);
    let dir = sim.st.direction;
    let up = sim.st.up;
    let s = cfg.angle_sin;
    let ns = sat64(-(cfg.angle_sin as int));
    assert(ns == FX_ONE || ns as int == -(FX_ONE as int));
    let right = spec_v3_cross(dir, up);
    if c == '+' {
        lemma_axis_frame_cases(dir, up);
        lemma_rotate_quarter(dir, up, s);
    } else if c == '-' {
        lemma_axis_frame_cases(dir, up);
        lemma_rotate_quarter(dir, up, ns);
    } else if c == '&' {
        lemma_axis_frame_cases(dir, up);
        lemma_rotate_quarter(dir, right, ns);
        lemma_rotate_quarter(up, right, ns);
    } else if c == '^' {
        lemma_axis_frame_cases(dir, up);
        lemma_rotate_quarter(dir, right, s);
        lemma_rotate_quarter(up, right, s);
    } else if c == '\\' {
        lemma_axis_frame_cases(dir, up);
        lemma_rotate_quarter(up, dir, s);
    } else if c == '/' {
        lemma_axis_frame_cases(dir, up);
        lemma_rotate_quarter(up, dir, ns);
    } else if c == '|' {
        lemma_axis_frame_cases(dir, up);
    }
}

/// Orthonormality at right angles: when the configured turn is an exact
/// quarter turn (cosine zero, sine plus or minus one), interpreting any
/// command sequence from an exactly orthonormal axis-aligned frame keeps the
/// heading and up vectors exactly unit length and exactly perpendicular. At
/// other angles the frame is orthonormal only to within the rounding of the
/// trigonometric polynomials, which the crate does not bound.
pub proof fn lemma_right_angle_orthonormal(cfg: TurtleCfg, sim: TurtleSim, w: Seq<char>)
    requires
        cfg.angle_cos == 0,
        cfg.angle_sin == FX_ONE || cfg.angle_sin as int == -(FX_ONE as int),
        axis_ortho_frame(sim.st.direction, sim.st.up),
        forall|i: int|
            0 <= i < sim.stack.len() ==> axis_ortho_frame(
                (#[trigger] sim.stack[i]).direction,
                sim.stack[i].up,
            ),
    ensures
        ({
            let r = spec_turtle_run(cfg, sim, w);
            &&& axis_ortho_frame(r.st.direction, r.st.up)
            &&& spec_v3_dot(r.st.direction, r.st.direction) == FX_ONE
            &&& spec_v3_dot(r.st.up, r.st.up) == FX_ONE
            &&& spec_v3_dot(r.st.direction, r.st.up) == 0
        }),
    decreases w.len(),
{
    if w.len() == 0 {
        lemma_axis_unit_norm(sim.st.direction);
        lemma_axis_unit_norm(sim.st.up);
    } else {
        lemma_step_axis_frame(cfg, sim, w[0]);
        lemma_right_angle_orthonormal(
            cfg,
            spec_turtle_step(cfg, sim, w[0]),
            w.subrange(1, w.len() as int),
        );
    }
}

/// How many occurrences of `c` a sequence holds.
pub open spec fn spec_count(s: Seq<char>, c: char) -> int
    decreases s.len(),
{
    if s.len() == 0 {
        0
    } else {
        spec_count(s.drop_last(), c) + if s.last() == c {
            1int
        } else {
            0int
        }
    }
}

/// Counting distributes over concatenation.
pub proof fn lemma_count_append(a: Seq<char>, b: Seq<char>, c: char)
    ensures
        spec_count(a + b, c) == spec_count(a, c) + spec_count(b, c),
    decreases b.len(),
{
    if b.len() == 0 {
        assert(a + b =~= a);
    } else {
        assert((a + b).drop_last() =~= a + b.drop_last());
        lemma_count_append(a, b.drop_last(), c);
        assert((a + b).last() == b.last());
    }
}

/// A singleton holds one occurrence of its element and none of anything else.
pub proof fn lemma_count_singleton(c0: char, c: char)
    ensures
        spec_count(seq![c0], c) == if c0 == c {
            1int
        } else {
            0int
        },
{
    assert(seq![c0].drop_last() =~= Seq::<char>::empty());
    assert(spec_count(seq![c0].drop_last(), c) == 0);
}

/// Running a command sequence that never pops below the `base` lowest stack
/// entries leaves those entries untouched and changes the stack height by
/// the bracket surplus.
/// How one command changes the stack: only the two bracket commands touch it.
proof fn lemma_step_stack(cfg: TurtleCfg, sim: TurtleSim, c: char)
    ensures
        c != '[' && c != ']' ==> spec_turtle_step(cfg, sim, c).stack == sim.stack,
        c == '[' ==> spec_turtle_step(cfg, sim, c).stack == sim.stack.push(sim.st),
        c == ']' && sim.stack.len() > 0 ==> spec_turtle_step(cfg, sim, c).stack
            == sim.stack.drop_last(),
        c == ']' && sim.stack.len() == 0 ==> spec_turtle_step(cfg, sim, c).stack == sim.stack,
{
    reveal(spec_turtle_step);
}

#[verifier::rlimit(100)]
proof fn lemma_run_stack(cfg: TurtleCfg, sim: TurtleSim, w: Seq<char>, base: int)
    requires
        0 <= base <= sim.stack.len(),
        forall|i: int|
            0 <= i <= w.len() ==> #[trigger] spec_count(w.take(i), ']') - spec_count(
                w.take(i),
                '[',
            ) <= sim.stack.len() - base,
    ensures
        spec_turtle_run(cfg, sim, w).stack.len() == sim.stack.len() + spec_count(w, '[')
            - spec_count(w, ']'),
        spec_turtle_run(cfg, sim, w).stack.take(base) =~= sim.stack.take(base),
    decreases w.len(),
{
    if w.len() == 0 {
        assert(w.take(0) =~= w);
        assert(spec_count(w, '[') == 0);
        assert(spec_count(w, ']') == 0);
    } else {
        let c0 = w[0];
        let sim1 = spec_turtle_step(cfg, sim, c0);
        let w1 = w.subrange(1, w.len() as int);
        assert(w.take(1) =~= seq![c0]);
        lemma_count_singleton(c0, '[');
        lemma_count_singleton(c0, ']');
        assert(spec_count(w.take(1), ']') - spec_count(w.take(1), '[') <= sim.stack.len()
            - base);
        lemma_step_stack(cfg, sim, c0);
        if c0 == ']' {
            assert(sim.stack.len() >= base + 1);
            assert(sim1.stack =~= sim.stack.drop_last());
            assert(sim1.stack.take(base) =~= sim.stack.take(base));
        } else if c0 == '[' {
            assert(sim1.stack =~= sim.stack.push(sim.st));
            assert(sim1.stack.take(base) =~= sim.stack.take(base));
        } else {
            assert(sim1.stack == sim.stack);
        }
        assert forall|i: int| 0 <= i <= w1.len() implies #[trigger] spec_count(w1.take(i), ']')
            - spec_count(w1.take(i), '[') <= sim1.stack.len() - base by {
            assert(w.take(i + 1) =~= seq![c0] + w1.take(i));
            lemma_count_append(seq![c0], w1.take(i), ']');
            lemma_count_append(seq![c0], w1.take(i), '[');
            assert(spec_count(w.take(i + 1), ']') - spec_count(w.take(i + 1), '[')
                <= sim.stack.len() - base);
        }
        lemma_run_stack(cfg, sim1, w1, base);
        assert(w =~= seq![c0] + w1);
        lemma_count_append(seq![c0], w1, ']');
        lemma_count_append(seq![c0], w1, '[');
        assert(spec_turtle_run(cfg, sim, w) == spec_turtle_run(cfg, sim1, w1));
    }
}

/// Bracket save and restore: around any balanced command sequence `w` (one
/// whose prefixes never close more brackets than they open and whose bracket
/// counts agree), the state directly after `[` `w` `]` is the state directly
/// before it, and the stack returns unchanged.
pub proof fn lemma_bracket_balance(cfg: TurtleCfg, sim: TurtleSim, w: Seq<char>)
    requires
        forall|i: int|
            0 <= i <= w.len() ==> #[trigger] spec_count(w.take(i), ']') <= spec_count(
                w.take(i),
                '[',
            ),
        spec_count(w, '[') == spec_count(w, ']'),
    ensures
        spec_turtle_run(cfg, sim, seq!['['] + w + seq![']']).st == sim.st,
        spec_turtle_run(cfg, sim, seq!['['] + w + seq![']']).stack =~= sim.stack,
{
    reveal(spec_turtle_step);
    let sim1 = spec_turtle_step(cfg, sim, '[');
    assert(sim1.stack =~= sim.stack.push(sim.st));
    assert((seq!['['] + w) + seq![']'] =~= seq!['['] + (w + seq![']']));
    lemma_turtle_run_append(cfg, sim, seq!['['], w + seq![']']);
    assert(seq!['['].subrange(1, 1) =~= Seq::<char>::empty());
    assert(seq!['['][0] == '[');
    assert(spec_turtle_run(cfg, sim1, seq!['['].subrange(1, 1)) == sim1);
    assert(spec_turtle_run(cfg, sim, seq!['[']) == sim1);
    lemma_turtle_run_append(cfg, sim1, w, seq![']']);
    let sim2 = spec_turtle_run(cfg, sim1, w);
    lemma_run_stack(cfg, sim1, w, sim1.stack.len() as int);
    assert(sim2.stack.len() == sim1.stack.len());
    assert(sim2.stack.take(sim1.stack.len() as int) =~= sim1.stack.take(
        sim1.stack.len() as int,
    ));
    assert(sim1.stack.take(sim1.stack.len() as int) =~= sim1.stack);
    assert(sim2.stack =~= sim1.stack);
    assert(sim2.stack.len() > 0);
    assert(sim2.stack.last() == sim.st);
    let sim3 = spec_turtle_step(cfg, sim2, ']');
    assert(sim3.st == sim.st);
    assert(sim3.stack =~= sim.stack);
    assert(seq![']'].subrange(1, 1) =~= Seq::<char>::empty());
    assert(seq![']'][0] == ']');
    assert(spec_turtle_run(cfg, sim3, seq![']'].subrange(1, 1)) == sim3);
    assert(spec_turtle_run(cfg, sim2, seq![']']) == sim3);
}

/// A step started with some emitted segments appends the same segments as a
/// step started with none.
pub proof fn lemma_step_shifts_segs(cfg: TurtleCfg, sim: TurtleSim, c: char)
    ensures
        ({
            let fresh = spec_turtle_step(
                cfg,
                TurtleSim { st: sim.st, stack: sim.stack, color_idx: sim.color_idx, segs: Seq::empty() },
                c,
            );
            let full = spec_turtle_step(cfg, sim, c);
            full.st == fresh.st && full.stack == fresh.stack && full.color_idx == fresh.color_idx
                && full.segs == sim.segs + fresh.segs
        }),
{
    reveal(spec_turtle_step);
    let fresh = spec_turtle_step(
        cfg,
        TurtleSim { st: sim.st, stack: sim.stack, color_idx: sim.color_idx, segs: Seq::empty() },
        c,
    );
    let full = spec_turtle_step(cfg, sim, c);
    if c == 'F' || c == 'G' {
        assert(full.segs =~= sim.segs + fresh.segs);
    } else {
        assert(full.segs =~= sim.segs + fresh.segs);
    }
}

} // verus!
