//! The L-system rewriter: a context-free replacement grammar applied to a
//! string of symbols for a fixed number of passes.

use vstd::prelude::*;
use vstd::string::StrSliceExecFns;
use crate::vec3::Vec3Fx;
use crate::fixed::{FX_ONE, spec_cos_sin, spec_deg_to_rad};
use crate::renderer::Renderer;
use crate::turtle3d::{
    Turtle3D, TurtleCfg, TurtleSim, spec_cfg, spec_initial_state, spec_turtle_run,
};
use crate::LsysError;

verus! {

/// Hard cap on the length of an expanded string; a pass whose output would be
/// longer reports `LsysError::BoundExceeded` instead of growing without bound.
pub const MAX_EXPANDED_LEN: usize = 10000000;

/// One production: a single symbol and its replacement string.
#[derive(Clone, Debug)]
pub struct Production {
    pub symbol: char,
    pub replacement: String,
}

/// A complete rule set: seed, productions, and interpretation parameters.
/// Angles are fixed-point degrees; lengths are fixed-point world units.
#[derive(Clone, Debug)]
pub struct LSystemRule {
    pub name: String,
    pub seed: String,
    pub angle: i64,
    pub iterations: u32,
    pub rules: Vec<Production>,
    pub step_length: Option<i64>,
    pub depth_based: Option<bool>,
    pub palette: Vec<Vec3Fx>,
    pub description: String,
}

/// The replacement for `c`, if some production rewrites it; productions are
/// consulted in order and the first match wins.
pub open spec fn spec_lookup(rules: Seq<Production>, c: char) -> Option<Seq<char>>
    decreases rules.len(),
{
    if rules.len() == 0 {
        None
    } else if rules[0].symbol == c {
        Some(rules[0].replacement@)
    } else {
        spec_lookup(rules.drop_first(), c)
    }
}

/// What one pass turns a single symbol into: its replacement if a production
/// matches, the symbol itself otherwise.
pub open spec fn spec_rewrite_sym(rules: Seq<Production>, c: char) -> Seq<char> {
    match spec_lookup(rules, c) {
        Some(r) => r,
        None => seq![c],
    }
}

/// One full rewriting pass over a string, left to right.
pub open spec fn spec_rewrite(rules: Seq<Production>, s: Seq<char>) -> Seq<char>
    decreases s.len(),
{
    if s.len() == 0 {
        Seq::empty()
    } else {
        spec_rewrite(rules, s.drop_last()) + spec_rewrite_sym(rules, s.last())
    }
}

/// `n` rewriting passes applied to `s`.
pub open spec fn spec_expand(rules: Seq<Production>, s: Seq<char>, n: nat) -> Seq<char>
    decreases n,
{
    if n == 0 {
        s
    } else {
        spec_rewrite(rules, spec_expand(rules, s, (n - 1) as nat))
    }
}

/// With no productions at all, a pass is the identity.
pub proof fn lemma_rewrite_empty_rules(rules: Seq<Production>, s: Seq<char>)
    requires
        rules.len() == 0,
    ensures
        spec_rewrite(rules, s) == s,
    decreases s.len(),
{
    if s.len() > 0 {
        lemma_rewrite_empty_rules(rules, s.drop_last());
        assert(spec_rewrite(rules, s) =~= s.drop_last() + seq![s.last()]);
        assert(s.drop_last() + seq![s.last()] =~= s);
    } else {
        assert(spec_rewrite(rules, s) =~= s);
    }
}

/// Rewriter identity: with an empty production set, any number of passes
/// returns the input unchanged.
pub proof fn lemma_rewriter_identity(rules: Seq<Production>, s: Seq<char>, k: nat)
    requires
        rules.len() == 0,
    ensures
        spec_expand(rules, s, k) == s,
    decreases k,
{
    if k > 0 {
        lemma_rewriter_identity(rules, s, (k - 1) as nat);
        lemma_rewrite_empty_rules(rules, s);
    }
}

/// Rewriter composition: expanding `k + 1` passes is one further pass applied
/// to the `k`-pass result.
pub proof fn lemma_rewriter_composition(rules: Seq<Production>, s: Seq<char>, k: nat)
    ensures
        spec_expand(rules, s, k + 1) == spec_rewrite(rules, spec_expand(rules, s, k)),
{
}

/// Rewriting a prefix never yields more symbols than rewriting the whole.
proof fn lemma_rewrite_prefix_len(rules: Seq<Production>, s: Seq<char>, k: int)
    requires
        0 <= k <= s.len(),
    ensures
        spec_rewrite(rules, s.take(k)).len() <= spec_rewrite(rules, s).len(),
    decreases s.len() - k,
{
    if k == s.len() {
        assert(s.take(k) =~= s);
    } else {
        lemma_rewrite_prefix_len(rules, s, k + 1);
        assert(s.take(k + 1).drop_last() =~= s.take(k));
        assert(spec_rewrite(rules, s.take(k + 1)) == spec_rewrite(rules, s.take(k))
            + spec_rewrite_sym(rules, s.take(k + 1).last()));
    }
}

/// Collect the characters of a string slice into a vector.
pub fn to_chars(s: &str) -> (v: Vec<char>)
    ensures
        v@ == s@,
{
    let n: usize = s.unicode_len();
    let mut v: Vec<char> = Vec::new();
    let mut i: usize = 0;
    while i < n
        invariant
            i <= n,
            n == s@.len(),
            v@ == s@.take(i as int),
        decreases n - i,
    {
        v.push(s.get_char(i));
        proof {
            assert(v@ =~= s@.take(i + 1));
        }
        i = i + 1;
    }
    proof {
        assert(v@ =~= s@);
    }
    v
}

/// Find the production for `c`, if any.
fn lookup<'a>(rules: &'a Vec<Production>, c: char) -> (r: Option<&'a String>)
    ensures
        match r {
            Some(rep) => spec_lookup(rules@, c) == Some(rep@),
            None => spec_lookup(rules@, c) is None,
        },
{
    let n: usize = rules.len();
    let mut k: usize = 0;
    proof {
        assert(rules@.skip(0) =~= rules@);
    }
    while k < n
        invariant
            k <= n,
            n == rules@.len(),
            spec_lookup(rules@, c) == spec_lookup(rules@.skip(k as int), c),
        decreases n - k,
    {
        if rules[k].symbol == c {
            proof {
                assert(rules@.skip(k as int)[0] == rules@[k as int]);
            }
            return Some(&rules[k].replacement);
        }
        proof {
            assert(rules@.skip(k as int).drop_first() =~= rules@.skip(k as int + 1));
        }
        k = k + 1;
    }
    proof {
        assert(rules@.skip(n as int).len() == 0);
    }
    None
}

/// Apply one rewriting pass to `s`, reporting an error if the output would
/// exceed `MAX_EXPANDED_LEN` symbols.
pub fn apply_pass(rules: &Vec<Production>, s: &Vec<char>) -> (r: Result<Vec<char>, LsysError>)
    ensures
        match r {
            Ok(v) => v@ == spec_rewrite(rules@, s@) && v@.len() <= MAX_EXPANDED_LEN,
            Err(e) => e == LsysError::BoundExceeded && spec_rewrite(rules@, s@).len()
                > MAX_EXPANDED_LEN,
        },
{
    let n: usize = s.len();
    let mut out: Vec<char> = Vec::new();
    let mut i: usize = 0;
    while i < n
        invariant
            i <= n,
            n == s@.len(),
            out@ == spec_rewrite(rules@, s@.take(i as int)),
            out@.len() <= MAX_EXPANDED_LEN,
        decreases n - i,
    {
        let c: char = s[i];
        proof {
            assert(s@.take(i + 1).drop_last() =~= s@.take(i as int));
            assert(s@.take(i + 1).last() == c);
        }
        match lookup(rules, c) {
            Some(rep) => {
                let m: usize = rep.unicode_len();
                let mut j: usize = 0;
                while j < m
                    invariant
                        j <= m,
                        m == rep@.len(),
                        spec_lookup(rules@, c) == Some(rep@),
                        out@ == spec_rewrite(rules@, s@.take(i as int)) + rep@.take(j as int),
                    decreases m - j,
                {
                    out.push(rep.get_char(j));
                    proof {
                        assert(out@ =~= spec_rewrite(rules@, s@.take(i as int)) + rep@.take(
                            j + 1,
                        ));
                    }
                    j = j + 1;
                }
                proof {
                    assert(rep@.take(m as int) =~= rep@);
                }
            },
            None => {
                out.push(c);
                proof {
                    assert(out@ =~= spec_rewrite(rules@, s@.take(i as int)) + seq![c]);
                }
            },
        }
        if out.len() > MAX_EXPANDED_LEN {
            proof {
                lemma_rewrite_prefix_len(rules@, s@, i + 1);
            }
            return Err(LsysError::BoundExceeded);
        }
        i = i + 1;
    }
    proof {
        assert(s@.take(n as int) =~= s@);
    }
    Ok(out)
}

/// A rule set together with its current (possibly expanded) string.
#[derive(Debug)]
pub struct LSystem {
    pub rule: LSystemRule,
    pub current_string: Vec<char>,
}

impl LSystem {
    /// Start a session: the current string is the rule's seed.
    pub fn new(rule: LSystemRule) -> (r: LSystem)
        ensures
            r.rule == rule,
            r.current_string@ == rule.seed@,
    {
        let current: Vec<char> = to_chars(rule.seed.as_str());
        LSystem { rule, current_string: current }
    }

    /// Apply one rewriting pass to the current string. On error the system is
    /// left unchanged.
    pub fn iterate(&mut self) -> (r: Result<(), LsysError>)
        ensures
            final(self).rule == old(self).rule,
            match r {
                Ok(()) => final(self).current_string@ == spec_rewrite(
                    old(self).rule.rules@,
                    old(self).current_string@,
                ) && final(self).current_string@.len() <= MAX_EXPANDED_LEN,
                Err(e) => e == LsysError::BoundExceeded && *final(self) == *old(self)
                    && spec_rewrite(old(self).rule.rules@, old(self).current_string@).len()
                    > MAX_EXPANDED_LEN,
            },
    {
        match apply_pass(&self.rule.rules, &self.current_string) {
            Ok(v) => {
                self.current_string = v;
                Ok(())
            },
            Err(e) => Err(e),
        }
    }

    /// Apply the configured number of passes to the current string. Succeeds
    /// exactly when every intermediate expansion fits the length cap; on
    /// error the system is left unchanged.
    #[verifier::loop_isolation(false)]
    pub fn generate(&mut self) -> (r: Result<(), LsysError>)
        ensures
            final(self).rule == old(self).rule,
            match r {
                Ok(()) => {
                    &&& final(self).current_string@ == spec_expand(
                        old(self).rule.rules@,
                        old(self).current_string@,
                        old(self).rule.iterations as nat,
                    )
                    &&& forall|j: nat|
                        1 <= j <= old(self).rule.iterations ==> #[trigger] spec_expand(
                            old(self).rule.rules@,
                            old(self).current_string@,
                            j,
                        ).len() <= MAX_EXPANDED_LEN
                },
                Err(e) => {
                    &&& e == LsysError::BoundExceeded
                    &&& *final(self) == *old(self)
                    &&& exists|j: nat|
                        1 <= j <= old(self).rule.iterations && #[trigger] spec_expand(
                            old(self).rule.rules@,
                            old(self).current_string@,
                            j,
                        ).len() > MAX_EXPANDED_LEN
                },
            },
    {
        let ghost rules0 = self.rule.rules@;
        let ghost start = self.current_string@;
        let iterations: u32 = self.rule.iterations;
        let mut cur: Vec<char> = Vec::new();
        let n0: usize = self.current_string.len();
        let mut p: usize = 0;
        while p < n0
        invariant
            p <= n0,
            n0 == self.current_string@.len(),
            cur@ == self.current_string@.take(p as int),
        decreases n0 - p,
        {
            cur.push(self.current_string[p]);
            proof {
                assert(cur@ =~= self.current_string@.take(p + 1));
            }
            p = p + 1;
        }
        proof {
            assert(cur@ =~= start);
        }
        let mut k: u32 = 0;
        while k < iterations
            invariant
                k <= iterations,
                self.rule.rules@ == rules0,
                cur@ == spec_expand(rules0, start, k as nat),
                forall|j: nat|
                    1 <= j <= k ==> #[trigger] spec_expand(rules0, start, j).len()
                        <= MAX_EXPANDED_LEN,
            decreases iterations - k,
        {
            match apply_pass(&self.rule.rules, &cur) {
                Ok(v) => {
                    cur = v;
                },
                Err(e) => {
                    proof {
                        let jw: nat = (k + 1) as nat;
                        assert(spec_expand(rules0, start, jw) == spec_rewrite(
                            rules0,
                            spec_expand(rules0, start, k as nat),
                        ));
                        assert(1 <= jw <= iterations && spec_expand(rules0, start, jw).len()
                            > MAX_EXPANDED_LEN);
                    }
                    return Err(e);
                },
            }
            k = k + 1;
        }
        self.current_string = cur;
        Ok(())
    }
}

/// The configuration a rule imposes on a turtle: its own step length and
/// height-coloring choice where the rule sets them, the turtle's otherwise,
/// and the rule's angle.
pub open spec fn spec_draw_cfg(t: Turtle3D, rule: LSystemRule) -> TurtleCfg {
    TurtleCfg {
        step_length: if rule.step_length is Some {
            rule.step_length->0
        } else {
            t.step_length
        },
        angle_cos: spec_cos_sin(spec_deg_to_rad(rule.angle as int)).0 as i64,
        angle_sin: spec_cos_sin(spec_deg_to_rad(rule.angle as int)).1 as i64,
        palette: t.color_palette@,
        depth_colors: if rule.depth_based is Some {
            rule.depth_based->0
        } else {
            t.depth_colors
        },
    }
}

impl LSystem {
    /// Reset the turtle, apply this rule's parameters, and interpret the
    /// current string into the renderer.
    pub fn draw_3d(&self, turtle: &mut Turtle3D, renderer: &mut Renderer)
        ensures
            ({
                let cfg = spec_draw_cfg(*old(turtle), self.rule);
                let r = spec_turtle_run(
                    cfg,
                    TurtleSim {
                        st: spec_initial_state(),
                        stack: Seq::empty(),
                        color_idx: 0,
                        segs: Seq::empty(),
                    },
                    self.current_string@,
                );
                &&& final(turtle).current_state == r.st
                &&& final(turtle).state_stack@ == r.stack
                &&& final(turtle).current_color_index as int == r.color_idx
                &&& spec_cfg(*final(turtle)) =~= cfg
                &&& final(renderer).spec_lines() == old(renderer).spec_lines() + r.segs
            }),
            final(renderer).spec_pixels() == old(renderer).spec_pixels(),
            final(renderer).spec_depths() == old(renderer).spec_depths(),
            final(renderer).spec_width() == old(renderer).spec_width(),
            final(renderer).spec_height() == old(renderer).spec_height(),
            old(renderer).wf() ==> final(renderer).wf(),
    {
        turtle.reset();
        match self.rule.step_length {
            Some(s) => turtle.set_step_length(s),
            None => {},
        }
        turtle.set_angle(self.rule.angle);
        match self.rule.depth_based {
            Some(d) => turtle.set_depth_colors(d),
            None => {},
        }
        let ghost pre = *turtle;
        proof {
            assert(pre.state_stack@ =~= Seq::<crate::turtle3d::TurtleState>::empty());
            assert(spec_cfg(pre) =~= spec_draw_cfg(*old(turtle), self.rule));
        }
        turtle.interpret(&self.current_string, renderer);
        proof {
            assert(TurtleSim {
                st: pre.current_state,
                stack: pre.state_stack@,
                color_idx: pre.current_color_index as int,
                segs: Seq::empty(),
            } == TurtleSim {
                st: spec_initial_state(),
                stack: Seq::empty(),
                color_idx: 0,
                segs: Seq::empty(),
            });
        }
    }
}

/// Whether every palette entry has all components inside `[0, FX_ONE]`.
pub open spec fn spec_palette_ok(p: Seq<Vec3Fx>) -> bool {
    forall|i: int|
        0 <= i < p.len() ==> {
            &&& 0 <= (#[trigger] p[i]).x <= FX_ONE
            &&& 0 <= p[i].y <= FX_ONE
            &&& 0 <= p[i].z <= FX_ONE
        }
}

/// The validation verdict for a rule set, checks in order: an seed that is
/// empty although passes are requested, a nonpositive step length, then a
/// palette entry outside `[0, 1]`.
pub open spec fn spec_validate(rule: LSystemRule) -> Result<(), LsysError> {
    if rule.seed@.len() == 0 && rule.iterations > 0 {
        Err(LsysError::EmptySeed)
    } else if rule.step_length is Some && rule.step_length->0 <= 0 {
        Err(LsysError::NonPositiveStep)
    } else if !spec_palette_ok(rule.palette@) {
        Err(LsysError::PaletteOutOfRange)
    } else {
        Ok(())
    }
}

/// Check a rule set against the input schema's range rules.
#[verifier::loop_isolation(false)]
pub fn validate(rule: &LSystemRule) -> (r: Result<(), LsysError>)
    ensures
        r == spec_validate(*rule),
{
    if rule.seed.as_str().unicode_len() == 0 && rule.iterations > 0 {
        return Err(LsysError::EmptySeed);
    }
    match rule.step_length {
        Some(s) => {
            if s <= 0 {
                return Err(LsysError::NonPositiveStep);
            }
        },
        None => {},
    }
    let n: usize = rule.palette.len();
    let mut i: usize = 0;
    while i < n
        invariant
            i <= n,
            n == rule.palette@.len(),
            forall|j: int|
                0 <= j < i ==> {
                    &&& 0 <= (#[trigger] rule.palette@[j]).x <= FX_ONE
                    &&& 0 <= rule.palette@[j].y <= FX_ONE
                    &&& 0 <= rule.palette@[j].z <= FX_ONE
                },
        decreases n - i,
    {
        let e: Vec3Fx = rule.palette[i];
        if e.x < 0 || e.x > FX_ONE || e.y < 0 || e.y > FX_ONE || e.z < 0 || e.z > FX_ONE {
            proof {
                assert(rule.palette@[i as int] == e);
                assert(!spec_palette_ok(rule.palette@));
            }
            return Err(LsysError::PaletteOutOfRange);
        }
        i = i + 1;
    }
    proof {
        assert(spec_palette_ok(rule.palette@));
    }
    Ok(())
}

} // verus!
