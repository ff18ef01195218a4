//! The flocking engine: the per-tick pipeline of accumulator reset,
//! all-pairs neighbor scan, force synthesis and boundary-damped
//! integration.

use vstd::prelude::*;
use crate::field::{Field, DIM_LIMIT};
use crate::num::{clamp_spec, clamp_velocity, div_floor, lemma_div_floor_bounds};
use crate::sheep::{
    accumulators_zero, Sheep, BIAS_LIMIT, MAX_AGENTS, POS_LIMIT, VEL_LIMIT,
};
use crate::sheep::random_centered;
use crate::vec2::Vec2;

verus! {

/// Denominator of the fractional tuning factors: they are given in
/// micro-units (millionths).
pub const FACTOR_SCALE: i64 = 1_000_000;

/// Machine limit on the interaction distance thresholds.
pub const DIST_LIMIT: i64 = 10_000_000;

/// Machine limit on the per-tick time step, in milliseconds.
pub const DT_LIMIT: i64 = 100_000;

/// Most pair interactions one scan can apply: `MAX_AGENTS` squared.
pub const SCAN_PAIR_LIMIT: i64 = 2048 * 2048;

/// Largest separation accumulator one scan can build up:
/// `SCAN_PAIR_LIMIT` contributions of at most twice `POS_LIMIT` each.
pub const CLOSE_LIMIT: i64 = 2048 * 2048 * 2 * 1_000_000;

/// Largest velocity or position accumulator one scan can build up:
/// `SCAN_PAIR_LIMIT` contributions of at most `VEL_LIMIT` (or
/// `POS_LIMIT`) each.
pub const AVG_LIMIT: i64 = 2048 * 2048 * 1_000_000;

/// The tunable constants of the simulation. Fractional factors are in
/// micro-units, the boundary margin in milli-units, all else in plain
/// world units.
#[derive(Clone, Copy, Debug, PartialEq, Eq, Structural)]
pub struct FlockConfig {
    /// Per-axis velocity clamp.
    pub max_speed: i64,
    /// Velocity correction applied per tick while headed out of bounds.
    pub boundary_damping: i64,
    /// Position-integration speed multiplier.
    pub speed: i64,
    /// Pairs at most this far apart push each other away.
    pub protected_distance: i64,
    /// Pairs at most this far apart (but not protected) align and cohere.
    pub visible_distance: i64,
    /// Separation strength, micro-units.
    pub avoid_factor_micro: i64,
    /// Alignment strength, micro-units.
    pub align_factor_micro: i64,
    /// Cohesion strength, micro-units.
    pub centering_factor_micro: i64,
    /// Largest wander impulse per axis.
    pub wander_force: i64,
    /// Fraction of the field kept inside the boundaries, milli-units.
    pub margin_milli: i64,
}

/// The machine limits every configuration must respect.
pub open spec fn config_valid(c: FlockConfig) -> bool {
    &&& 0 <= c.max_speed <= VEL_LIMIT
    &&& 0 <= c.boundary_damping <= VEL_LIMIT
    &&& 0 <= c.speed <= 1_000_000
    &&& 0 <= c.protected_distance <= c.visible_distance <= DIST_LIMIT
    &&& 0 <= c.avoid_factor_micro <= FACTOR_SCALE
    &&& 0 <= c.align_factor_micro <= FACTOR_SCALE
    &&& 0 <= c.centering_factor_micro <= FACTOR_SCALE
    &&& 0 <= c.wander_force <= VEL_LIMIT
    &&& 0 <= c.margin_milli <= 1000
}

impl Default for FlockConfig {
    /// The stock tuning of the simulation.
    fn default() -> (c: FlockConfig)
        ensures
            c == (FlockConfig {
                max_speed: 50,
                boundary_damping: 2,
                speed: 150,
                protected_distance: 40,
                visible_distance: 200,
                avoid_factor_micro: 8_000,
                align_factor_micro: 180_000,
                centering_factor_micro: 1,
                wander_force: 1,
                margin_milli: 900,
            }),
            config_valid(c),
    {
        FlockConfig {
            max_speed: 50,
            boundary_damping: 2,
            speed: 150,
            protected_distance: 40,
            visible_distance: 200,
            avoid_factor_micro: 8_000,
            align_factor_micro: 180_000,
            centering_factor_micro: 1,
            wander_force: 1,
            margin_milli: 900,
        }
    }
}

/// The active boundaries of one tick, derived fresh from the field.
#[derive(Clone, Copy, Debug, PartialEq, Eq, Structural)]
pub struct Bounds {
    pub max_x: i64,
    pub min_x: i64,
    pub max_y: i64,
    pub min_y: i64,
}

/// The boundaries a field yields under a margin: the margin scales each
/// half-extent, and each minimum is the exact negative of its maximum.
pub open spec fn bounds_spec(f: Field, margin_milli: int) -> Bounds {
    Bounds {
        max_x: (f.width * margin_milli / 2000) as i64,
        min_x: (-(f.width * margin_milli / 2000)) as i64,
        max_y: (f.height * margin_milli / 2000) as i64,
        min_y: (-(f.height * margin_milli / 2000)) as i64,
    }
}

/// Derive the tick's boundaries from the current field size. Never
/// cached: the field may resize between ticks.
pub fn field_bounds(field: &Field, margin_milli: i64) -> (b: Bounds)
    requires
        -DIM_LIMIT <= field.width <= DIM_LIMIT,
        -DIM_LIMIT <= field.height <= DIM_LIMIT,
        0 <= margin_milli <= 1000,
    ensures
        b == bounds_spec(*field, margin_milli as int),
        -POS_LIMIT <= b.max_x <= POS_LIMIT,
        -POS_LIMIT <= b.max_y <= POS_LIMIT,
        b.min_x == -b.max_x,
        b.min_y == -b.max_y,
{
    proof {
        assert(-1_000_000_000 <= field.width * margin_milli <= 1_000_000_000) by (nonlinear_arith)
            requires
                -1_000_000 <= field.width <= 1_000_000,
                0 <= margin_milli <= 1000,
        ;
        assert(-1_000_000_000 <= field.height * margin_milli <= 1_000_000_000) by (nonlinear_arith)
            requires
                -1_000_000 <= field.height <= 1_000_000,
                0 <= margin_milli <= 1000,
        ;
        lemma_div_floor_bounds(field.width as int * margin_milli as int, 2000);
        lemma_div_floor_bounds(field.height as int * margin_milli as int, 2000);
    }
    let mx = div_floor(field.width * margin_milli, 2000);
    let my = div_floor(field.height * margin_milli, 2000);
    Bounds { max_x: mx, min_x: -mx, max_y: my, min_y: -my }
}

/// What resetting leaves of an agent: identity, kinematics, bias and
/// bounce state kept, every per-tick accumulator zeroed.
pub open spec fn reset_spec(s: Sheep) -> Sheep {
    Sheep {
        close_dx: 0,
        close_dy: 0,
        xvel_avg: 0,
        yvel_avg: 0,
        num_neighbors: 0,
        xpos_avg: 0,
        ypos_avg: 0,
        ..s
    }
}

/// Zero every agent's per-tick accumulators, the first step of a tick.
pub fn reset_accumulators(flock: &mut Vec<Sheep>)
    ensures
        final(flock).len() == old(flock).len(),
        forall|k: int|
            0 <= k < old(flock).len() ==> final(flock)[k] == reset_spec(old(flock)[k]),
{
    let n = flock.len();
    let mut k: usize = 0;
    while k < n
        invariant
            flock.len() == n == old(flock).len(),
            k <= n,
            forall|m: int| 0 <= m < k ==> flock[m] == reset_spec(old(flock)[m]),
            forall|m: int| k <= m < n ==> flock[m] == old(flock)[m],
        decreases n - k,
    {
        let s = flock[k];
        flock[k] = Sheep {
            close_dx: 0,
            close_dy: 0,
            xvel_avg: 0,
            yvel_avg: 0,
            num_neighbors: 0,
            xpos_avg: 0,
            ypos_avg: 0,
            ..s
        };
        k = k + 1;
    }
}

/// A position within the machine limit on each axis.
pub open spec fn pos_bounded(p: Vec2) -> bool {
    -POS_LIMIT <= p.x <= POS_LIMIT && -POS_LIMIT <= p.y <= POS_LIMIT
}

/// A velocity within the machine limit on each axis.
pub open spec fn vel_bounded(s: Sheep) -> bool {
    -VEL_LIMIT <= s.vx <= VEL_LIMIT && -VEL_LIMIT <= s.vy <= VEL_LIMIT
}

/// A bias within the machine limit on each axis.
pub open spec fn bias_bounded(s: Sheep) -> bool {
    -BIAS_LIMIT <= s.bias_x <= BIAS_LIMIT && -BIAS_LIMIT <= s.bias_y <= BIAS_LIMIT
}

/// The squared distance between two positions.
pub open spec fn dist2_spec(a: Vec2, b: Vec2) -> int {
    (a.x - b.x) * (a.x - b.x) + (a.y - b.y) * (a.y - b.y)
}

/// Too close: within the protected distance. Thresholds are compared on
/// squared distances, which for non-negative thresholds orders pairs
/// exactly as the Euclidean distance does.
pub open spec fn in_protected(a: Vec2, b: Vec2, cfg: FlockConfig) -> bool {
    dist2_spec(a, b) <= cfg.protected_distance * cfg.protected_distance
}

/// In the visible band: beyond the protected distance but within the
/// visible distance.
pub open spec fn in_visible(a: Vec2, b: Vec2, cfg: FlockConfig) -> bool {
    !in_protected(a, b, cfg) && dist2_spec(a, b) <= cfg.visible_distance * cfg.visible_distance
}

/// One unordered pair's interaction applied to the flock. A protected
/// pair pushes apart: the displacement from the second agent to the
/// first is added to the first agent's separation accumulator and
/// subtracted from the second's. A visible pair cross-accumulates: each
/// agent counts the other as a neighbor and records the other's velocity
/// and position. Any farther pair changes nothing.
pub open spec fn pair_apply(s: Seq<Sheep>, ps: Seq<Vec2>, cfg: FlockConfig, i: int, j: int) -> Seq<
    Sheep,
> {
    let a = s[i];
    let b = s[j];
    let dx = ps[i].x - ps[j].x;
    let dy = ps[i].y - ps[j].y;
    if in_protected(ps[i], ps[j], cfg) {
        s.update(
            i,
            Sheep { close_dx: (a.close_dx + dx) as i64, close_dy: (a.close_dy + dy) as i64, ..a },
        ).update(
            j,
            Sheep { close_dx: (b.close_dx - dx) as i64, close_dy: (b.close_dy - dy) as i64, ..b },
        )
    } else if in_visible(ps[i], ps[j], cfg) {
        s.update(
            i,
            Sheep {
                num_neighbors: (a.num_neighbors + 1) as i64,
                xvel_avg: (a.xvel_avg + b.vx) as i64,
                yvel_avg: (a.yvel_avg + b.vy) as i64,
                xpos_avg: (a.xpos_avg + ps[j].x) as i64,
                ypos_avg: (a.ypos_avg + ps[j].y) as i64,
                ..a
            },
        ).update(
            j,
            Sheep {
                num_neighbors: (b.num_neighbors + 1) as i64,
                xvel_avg: (b.xvel_avg + a.vx) as i64,
                yvel_avg: (b.yvel_avg + a.vy) as i64,
                xpos_avg: (b.xpos_avg + ps[i].x) as i64,
                ypos_avg: (b.ypos_avg + ps[i].y) as i64,
                ..b
            },
        )
    } else {
        s
    }
}

/// The scan of row `i` from pair `(i, j)` to the end of the row.
pub open spec fn scan_row(s: Seq<Sheep>, ps: Seq<Vec2>, cfg: FlockConfig, i: int, j: int) -> Seq<
    Sheep,
>
    decreases ps.len() - j,
{
    if j < 0 || j >= ps.len() {
        s
    } else {
        scan_row(pair_apply(s, ps, cfg, i, j), ps, cfg, i, j + 1)
    }
}

/// The scan from row `i` on: every unordered pair of distinct agents
/// visited exactly once, in row order.
pub open spec fn scan_rows(s: Seq<Sheep>, ps: Seq<Vec2>, cfg: FlockConfig, i: int) -> Seq<Sheep>
    decreases ps.len() - i,
{
    if i < 0 || i >= ps.len() {
        s
    } else {
        scan_rows(scan_row(s, ps, cfg, i, i + 1), ps, cfg, i + 1)
    }
}

/// Accumulator magnitudes after at most `cnt` pair applications: each
/// application adds at most twice `POS_LIMIT` to a separation
/// accumulator, at most `VEL_LIMIT` or `POS_LIMIT` to an average
/// accumulator, and one to the neighbor count.
pub open spec fn acc_bounded(s: Sheep, cnt: int) -> bool {
    &&& -2_000_000 * cnt <= s.close_dx <= 2_000_000 * cnt
    &&& -2_000_000 * cnt <= s.close_dy <= 2_000_000 * cnt
    &&& -1_000_000 * cnt <= s.xvel_avg <= 1_000_000 * cnt
    &&& -1_000_000 * cnt <= s.yvel_avg <= 1_000_000 * cnt
    &&& -1_000_000 * cnt <= s.xpos_avg <= 1_000_000 * cnt
    &&& -1_000_000 * cnt <= s.ypos_avg <= 1_000_000 * cnt
    &&& 0 <= s.num_neighbors <= cnt
}

/// The fields the neighbor scan never touches.
pub open spec fn same_kinematics(a: Sheep, b: Sheep) -> bool {
    &&& a.id == b.id
    &&& a.vx == b.vx
    &&& a.vy == b.vy
    &&& a.bias_x == b.bias_x
    &&& a.bias_y == b.bias_y
    &&& a.bounced_x == b.bounced_x
    &&& a.bounced_y == b.bounced_y
}

/// The all-pairs neighbor scan, the second step of a tick: apply every
/// unordered pair's interaction once, filling the accumulators that were
/// zeroed at the start of the tick. Velocities, positions, identities
/// and biases are untouched.
pub fn neighbor_scan(flock: &mut Vec<Sheep>, positions: &Vec<Vec2>, cfg: &FlockConfig)
    requires
        old(flock).len() == positions.len(),
        old(flock).len() <= MAX_AGENTS,
        config_valid(*cfg),
        forall|k: int| 0 <= k < positions.len() ==> pos_bounded(#[trigger] positions[k]),
        forall|k: int| 0 <= k < old(flock).len() ==> vel_bounded(#[trigger] old(flock)[k]),
        forall|k: int| 0 <= k < old(flock).len() ==> accumulators_zero(#[trigger] old(flock)[k]),
    ensures
        final(flock)@ == scan_rows(old(flock)@, positions@, *cfg, 0),
        final(flock).len() == old(flock).len(),
        forall|k: int|
            0 <= k < old(flock).len() ==> same_kinematics(#[trigger] final(flock)[k], old(flock)[k]),
        forall|k: int|
            0 <= k < old(flock).len() ==> acc_bounded(#[trigger] final(flock)[k], SCAN_PAIR_LIMIT as int),
{
    let n = flock.len();
    let ghost s0 = flock@;
    let ghost ps = positions@;
    let ghost c = *cfg;
    proof {
        assert(0int * (n as int) == 0) by (nonlinear_arith);
        assert(0 <= n as int * n as int <= 2048 * 2048) by (nonlinear_arith)
            requires
                0 <= n as int <= 2048,
        ;
    }
    let mut i: usize = 0;
    while i < n
        invariant
            flock.len() == n,
            positions@ == ps,
            ps.len() == n,
            n <= MAX_AGENTS,
            c == *cfg,
            config_valid(c),
            s0.len() == n,
            forall|k: int| 0 <= k < n ==> pos_bounded(#[trigger] ps[k]),
            forall|k: int| 0 <= k < n ==> vel_bounded(#[trigger] s0[k]),
            i <= n,
            scan_rows(flock@, ps, c, i as int) == scan_rows(s0, ps, c, 0),
            forall|k: int| 0 <= k < n ==> same_kinematics(#[trigger] flock@[k], s0[k]),
            forall|k: int| 0 <= k < n ==> acc_bounded(#[trigger] flock@[k], i as int * n as int),
            0 <= i as int * n as int <= n as int * n as int <= 2048 * 2048,
        decreases n - i,
    {
        let mut j: usize = i + 1;
        proof {
            assert(i as int * n as int + j as int <= n as int * n as int) by (nonlinear_arith)
                requires
                    0 <= i as int,
                    (i as int) < n as int,
                    j as int == i as int + 1,
            ;
        }
        while j < n
            invariant
                flock.len() == n,
                positions@ == ps,
                ps.len() == n,
                n <= MAX_AGENTS,
                c == *cfg,
                config_valid(c),
                s0.len() == n,
                forall|k: int| 0 <= k < n ==> pos_bounded(#[trigger] ps[k]),
                forall|k: int| 0 <= k < n ==> vel_bounded(#[trigger] s0[k]),
                i < n,
                i + 1 <= j <= n,
                scan_rows(scan_row(flock@, ps, c, i as int, j as int), ps, c, i as int + 1)
                    == scan_rows(s0, ps, c, 0),
                forall|k: int| 0 <= k < n ==> same_kinematics(#[trigger] flock@[k], s0[k]),
                forall|k: int|
                    0 <= k < n ==> acc_bounded(
                        #[trigger] flock@[k],
                        i as int * n as int + j as int,
                    ),
                0 <= i as int * n as int + j as int <= n as int * n as int <= 2048 * 2048,
            decreases n - j,
        {
            let pi = positions[i];
            let pj = positions[j];
            let dx = pi.x - pj.x;
            let dy = pi.y - pj.y;
            proof {
                assert(0 <= dx * dx <= 4_000_000_000_000 && 0 <= dy * dy <= 4_000_000_000_000)
                    by (nonlinear_arith)
                    requires
                        -2_000_000 <= dx <= 2_000_000,
                        -2_000_000 <= dy <= 2_000_000,
                ;
                assert(0 <= c.protected_distance * c.protected_distance
                    <= 100_000_000_000_000) by (nonlinear_arith)
                    requires
                        0 <= c.protected_distance <= 10_000_000,
                ;
                assert(0 <= c.visible_distance * c.visible_distance
                    <= 100_000_000_000_000) by (nonlinear_arith)
                    requires
                        0 <= c.visible_distance <= 10_000_000,
                ;
            }
            let dist2 = dx * dx + dy * dy;
            let pd2 = cfg.protected_distance * cfg.protected_distance;
            let vd2 = cfg.visible_distance * cfg.visible_distance;
            let a = flock[i];
            let b = flock[j];
            let ghost pre = flock@;
            if dist2 <= pd2 {
                flock[i] = Sheep {
                    close_dx: a.close_dx + dx,
                    close_dy: a.close_dy + dy,
                    ..a
                };
                flock[j] = Sheep {
                    close_dx: b.close_dx - dx,
                    close_dy: b.close_dy - dy,
                    ..b
                };
            } else if dist2 <= vd2 {
                flock[i] = Sheep {
                    num_neighbors: a.num_neighbors + 1,
                    xvel_avg: a.xvel_avg + b.vx,
                    yvel_avg: a.yvel_avg + b.vy,
                    xpos_avg: a.xpos_avg + pj.x,
                    ypos_avg: a.ypos_avg + pj.y,
                    ..a
                };
                flock[j] = Sheep {
                    num_neighbors: b.num_neighbors + 1,
                    xvel_avg: b.xvel_avg + a.vx,
                    yvel_avg: b.yvel_avg + a.vy,
                    xpos_avg: b.xpos_avg + pi.x,
                    ypos_avg: b.ypos_avg + pi.y,
                    ..b
                };
            }
            proof {
                assert(flock@ =~= pair_apply(pre, ps, c, i as int, j as int));
                assert(scan_row(pre, ps, c, i as int, j as int) == scan_row(
                    flock@,
                    ps,
                    c,
                    i as int,
                    j as int + 1,
                ));
                assert(i as int * n as int + j as int + 1 <= n as int * n as int)
                    by (nonlinear_arith)
                    requires
                        0 <= i as int,
                        0 <= j as int,
                        (i as int) < n as int,
                        (j as int) < n as int,
                ;
            }
            j = j + 1;
        }
        proof {
            assert(scan_row(flock@, ps, c, i as int, j as int) == flock@);
            assert((i as int + 1) * (n as int) == i as int * n as int + n as int)
                by (nonlinear_arith);
            assert((i as int + 1) * (n as int) <= n as int * n as int) by (nonlinear_arith)
                requires
                    i as int + 1 <= n as int,
                    0 <= n as int,
            ;
        }
        i = i + 1;
    }
}

/// The steering adjustment of one agent after the scan. With neighbors,
/// alignment steers toward the neighborhood's average velocity and
/// cohesion toward its average position, each average being the
/// accumulator floor-divided by the neighbor count; separation and the
/// agent's fixed bias always contribute. Without neighbors only the
/// latter two do, and no division happens.
pub open spec fn adjustment_spec(s: Sheep, p: Vec2, cfg: FlockConfig) -> (int, int) {
    let avoid_x = s.close_dx * cfg.avoid_factor_micro / (FACTOR_SCALE as int) + s.bias_x;
    let avoid_y = s.close_dy * cfg.avoid_factor_micro / (FACTOR_SCALE as int) + s.bias_y;
    if s.num_neighbors > 0 {
        let xvel = s.xvel_avg / s.num_neighbors;
        let yvel = s.yvel_avg / s.num_neighbors;
        let xpos = s.xpos_avg / s.num_neighbors;
        let ypos = s.ypos_avg / s.num_neighbors;
        let align_x = (xvel - s.vx) * cfg.align_factor_micro / (FACTOR_SCALE as int);
        let align_y = (yvel - s.vy) * cfg.align_factor_micro / (FACTOR_SCALE as int);
        let center_x = (xpos - p.x) * cfg.centering_factor_micro / (FACTOR_SCALE as int);
        let center_y = (ypos - p.y) * cfg.centering_factor_micro / (FACTOR_SCALE as int);
        (align_x + center_x + avoid_x, align_y + center_y + avoid_y)
    } else {
        (avoid_x, avoid_y)
    }
}

/// An agent's velocity after force synthesis but before wander: the
/// adjustment applied, then each axis clamped to `max_speed`.
pub open spec fn clamped_vel_spec(s: Sheep, p: Vec2, cfg: FlockConfig) -> (int, int) {
    let adj = adjustment_spec(s, p, cfg);
    (
        clamp_spec(s.vx + adj.0, cfg.max_speed as int),
        clamp_spec(s.vy + adj.1, cfg.max_speed as int),
    )
}

/// The whole of force synthesis for one agent: adjust, clamp, then add
/// the wander impulse. The wander is deliberately unclamped, so the
/// final velocity may exceed `max_speed` by at most the wander force per
/// axis.
pub open spec fn synth_spec(s: Sheep, p: Vec2, cfg: FlockConfig, w: Vec2) -> Sheep {
    let cv = clamped_vel_spec(s, p, cfg);
    Sheep { vx: (cv.0 + w.x) as i64, vy: (cv.1 + w.y) as i64, ..s }
}

/// Force synthesis for one agent, the third step of a tick.
pub fn synthesize_one(s: Sheep, p: Vec2, cfg: &FlockConfig, w: Vec2) -> (r: Sheep)
    requires
        config_valid(*cfg),
        acc_bounded(s, SCAN_PAIR_LIMIT as int),
        vel_bounded(s),
        bias_bounded(s),
        pos_bounded(p),
        -cfg.wander_force <= w.x <= cfg.wander_force,
        -cfg.wander_force <= w.y <= cfg.wander_force,
    ensures
        r == synth_spec(s, p, *cfg, w),
        -cfg.max_speed - cfg.wander_force <= r.vx <= cfg.max_speed + cfg.wander_force,
        -cfg.max_speed - cfg.wander_force <= r.vy <= cfg.max_speed + cfg.wander_force,
{
    proof {
        assert(-CLOSE_LIMIT * FACTOR_SCALE <= s.close_dx * cfg.avoid_factor_micro
            <= CLOSE_LIMIT * FACTOR_SCALE) by (nonlinear_arith)
            requires
                -CLOSE_LIMIT <= s.close_dx <= CLOSE_LIMIT,
                0 <= cfg.avoid_factor_micro <= FACTOR_SCALE,
                0 < FACTOR_SCALE,
                0 < CLOSE_LIMIT,
        ;
        assert(-CLOSE_LIMIT * FACTOR_SCALE <= s.close_dy * cfg.avoid_factor_micro
            <= CLOSE_LIMIT * FACTOR_SCALE) by (nonlinear_arith)
            requires
                -CLOSE_LIMIT <= s.close_dy <= CLOSE_LIMIT,
                0 <= cfg.avoid_factor_micro <= FACTOR_SCALE,
                0 < FACTOR_SCALE,
                0 < CLOSE_LIMIT,
        ;
        crate::num::lemma_div_floor_symmetric_bound(
            s.close_dx as int * cfg.avoid_factor_micro as int,
            FACTOR_SCALE as int,
            CLOSE_LIMIT as int,
        );
        crate::num::lemma_div_floor_symmetric_bound(
            s.close_dy as int * cfg.avoid_factor_micro as int,
            FACTOR_SCALE as int,
            CLOSE_LIMIT as int,
        );
    }
    let avoid_x = div_floor(s.close_dx * cfg.avoid_factor_micro, FACTOR_SCALE) + s.bias_x;
    let avoid_y = div_floor(s.close_dy * cfg.avoid_factor_micro, FACTOR_SCALE) + s.bias_y;
    let adj_x: i64;
    let adj_y: i64;
    if s.num_neighbors > 0 {
        proof {
            assert(-AVG_LIMIT * s.num_neighbors <= s.xvel_avg <= AVG_LIMIT * s.num_neighbors
                && -AVG_LIMIT * s.num_neighbors <= s.yvel_avg <= AVG_LIMIT * s.num_neighbors
                && -AVG_LIMIT * s.num_neighbors <= s.xpos_avg <= AVG_LIMIT * s.num_neighbors
                && -AVG_LIMIT * s.num_neighbors <= s.ypos_avg <= AVG_LIMIT * s.num_neighbors)
                by (nonlinear_arith)
                requires
                    1 <= s.num_neighbors,
                    -AVG_LIMIT <= s.xvel_avg <= AVG_LIMIT,
                    -AVG_LIMIT <= s.yvel_avg <= AVG_LIMIT,
                    -AVG_LIMIT <= s.xpos_avg <= AVG_LIMIT,
                    -AVG_LIMIT <= s.ypos_avg <= AVG_LIMIT,
                    0 < AVG_LIMIT,
            ;
            crate::num::lemma_div_floor_symmetric_bound(
                s.xvel_avg as int,
                s.num_neighbors as int,
                AVG_LIMIT as int,
            );
            crate::num::lemma_div_floor_symmetric_bound(
                s.yvel_avg as int,
                s.num_neighbors as int,
                AVG_LIMIT as int,
            );
            crate::num::lemma_div_floor_symmetric_bound(
                s.xpos_avg as int,
                s.num_neighbors as int,
                AVG_LIMIT as int,
            );
            crate::num::lemma_div_floor_symmetric_bound(
                s.ypos_avg as int,
                s.num_neighbors as int,
                AVG_LIMIT as int,
            );
        }
        let xvel = div_floor(s.xvel_avg, s.num_neighbors);
        let yvel = div_floor(s.yvel_avg, s.num_neighbors);
        let xpos = div_floor(s.xpos_avg, s.num_neighbors);
        let ypos = div_floor(s.ypos_avg, s.num_neighbors);
        proof {
            assert(-(AVG_LIMIT + 1_000_000) * FACTOR_SCALE <= (xvel - s.vx)
                * cfg.align_factor_micro <= (AVG_LIMIT + 1_000_000) * FACTOR_SCALE
                && -(AVG_LIMIT + 1_000_000) * FACTOR_SCALE <= (yvel - s.vy)
                * cfg.align_factor_micro <= (AVG_LIMIT + 1_000_000) * FACTOR_SCALE)
                by (nonlinear_arith)
                requires
                    -AVG_LIMIT - 1_000_000 <= xvel - s.vx <= AVG_LIMIT + 1_000_000,
                    -AVG_LIMIT - 1_000_000 <= yvel - s.vy <= AVG_LIMIT + 1_000_000,
                    0 <= cfg.align_factor_micro <= FACTOR_SCALE,
                    0 < FACTOR_SCALE,
                    0 < AVG_LIMIT,
            ;
            assert(-(AVG_LIMIT + 1_000_000) * FACTOR_SCALE <= (xpos - p.x)
                * cfg.centering_factor_micro <= (AVG_LIMIT + 1_000_000) * FACTOR_SCALE
                && -(AVG_LIMIT + 1_000_000) * FACTOR_SCALE <= (ypos - p.y)
                * cfg.centering_factor_micro <= (AVG_LIMIT + 1_000_000) * FACTOR_SCALE)
                by (nonlinear_arith)
                requires
                    -AVG_LIMIT - 1_000_000 <= xpos - p.x <= AVG_LIMIT + 1_000_000,
                    -AVG_LIMIT - 1_000_000 <= ypos - p.y <= AVG_LIMIT + 1_000_000,
                    0 <= cfg.centering_factor_micro <= FACTOR_SCALE,
                    0 < FACTOR_SCALE,
                    0 < AVG_LIMIT,
            ;
            crate::num::lemma_div_floor_symmetric_bound(
                (xvel - s.vx) as int * cfg.align_factor_micro as int,
                FACTOR_SCALE as int,
                AVG_LIMIT as int + 1_000_000,
            );
            crate::num::lemma_div_floor_symmetric_bound(
                (yvel - s.vy) as int * cfg.align_factor_micro as int,
                FACTOR_SCALE as int,
                AVG_LIMIT as int + 1_000_000,
            );
            crate::num::lemma_div_floor_symmetric_bound(
                (xpos - p.x) as int * cfg.centering_factor_micro as int,
                FACTOR_SCALE as int,
                AVG_LIMIT as int + 1_000_000,
            );
            crate::num::lemma_div_floor_symmetric_bound(
                (ypos - p.y) as int * cfg.centering_factor_micro as int,
                FACTOR_SCALE as int,
                AVG_LIMIT as int + 1_000_000,
            );
        }
        let align_x = div_floor((xvel - s.vx) * cfg.align_factor_micro, FACTOR_SCALE);
        let align_y = div_floor((yvel - s.vy) * cfg.align_factor_micro, FACTOR_SCALE);
        let center_x = div_floor((xpos - p.x) * cfg.centering_factor_micro, FACTOR_SCALE);
        let center_y = div_floor((ypos - p.y) * cfg.centering_factor_micro, FACTOR_SCALE);
        adj_x = align_x + center_x + avoid_x;
        adj_y = align_y + center_y + avoid_y;
    } else {
        adj_x = avoid_x;
        adj_y = avoid_y;
    }
    let cvx = clamp_velocity(s.vx + adj_x, cfg.max_speed);
    let cvy = clamp_velocity(s.vy + adj_y, cfg.max_speed);
    Sheep { vx: cvx + w.x, vy: cvy + w.y, ..s }
}

/// Force synthesis over the whole flock, agent by agent.
pub fn synthesize_forces(
    flock: &mut Vec<Sheep>,
    positions: &Vec<Vec2>,
    cfg: &FlockConfig,
    wander: &Vec<Vec2>,
)
    requires
        old(flock).len() == positions.len(),
        old(flock).len() == wander.len(),
        config_valid(*cfg),
        forall|k: int| 0 <= k < positions.len() ==> pos_bounded(#[trigger] positions[k]),
        forall|k: int|
            0 <= k < old(flock).len() ==> acc_bounded(
                #[trigger] old(flock)[k],
                SCAN_PAIR_LIMIT as int,
            ),
        forall|k: int| 0 <= k < old(flock).len() ==> vel_bounded(#[trigger] old(flock)[k]),
        forall|k: int| 0 <= k < old(flock).len() ==> bias_bounded(#[trigger] old(flock)[k]),
        forall|k: int|
            0 <= k < wander.len() ==> -cfg.wander_force <= (#[trigger] wander[k]).x
                <= cfg.wander_force && -cfg.wander_force <= wander[k].y <= cfg.wander_force,
    ensures
        final(flock).len() == old(flock).len(),
        forall|k: int|
            0 <= k < old(flock).len() ==> final(flock)[k] == synth_spec(
                old(flock)[k],
                positions[k],
                *cfg,
                wander[k],
            ),
        forall|k: int|
            0 <= k < old(flock).len() ==> -cfg.max_speed - cfg.wander_force <= (
            #[trigger] final(flock)[k]).vx <= cfg.max_speed + cfg.wander_force
                && -cfg.max_speed - cfg.wander_force <= final(flock)[k].vy <= cfg.max_speed
                + cfg.wander_force,
{
    let n = flock.len();
    let ghost s0 = flock@;
    let mut k: usize = 0;
    while k < n
        invariant
            flock.len() == n,
            s0.len() == n,
            positions@.len() == n,
            wander@.len() == n,
            config_valid(*cfg),
            forall|m: int| 0 <= m < n ==> pos_bounded(#[trigger] positions@[m]),
            forall|m: int|
                0 <= m < n ==> acc_bounded(#[trigger] s0[m], SCAN_PAIR_LIMIT as int),
            forall|m: int| 0 <= m < n ==> vel_bounded(#[trigger] s0[m]),
            forall|m: int| 0 <= m < n ==> bias_bounded(#[trigger] s0[m]),
            forall|m: int|
                0 <= m < n ==> -cfg.wander_force <= (#[trigger] wander@[m]).x <= cfg.wander_force
                    && -cfg.wander_force <= wander@[m].y <= cfg.wander_force,
            k <= n,
            forall|m: int|
                0 <= m < k ==> #[trigger] flock@[m] == synth_spec(
                    s0[m],
                    positions@[m],
                    *cfg,
                    wander@[m],
                ),
            forall|m: int|
                0 <= m < k ==> -cfg.max_speed - cfg.wander_force <= (#[trigger] flock@[m]).vx
                    <= cfg.max_speed + cfg.wander_force && -cfg.max_speed - cfg.wander_force
                    <= flock@[m].vy <= cfg.max_speed + cfg.wander_force,
            forall|m: int| k <= m < n ==> #[trigger] flock@[m] == s0[m],
        decreases n - k,
    {
        let s = flock[k];
        let p = positions[k];
        let w = wander[k];
        flock[k] = synthesize_one(s, p, cfg, w);
        k = k + 1;
    }
}

/// Law: separation contributions are exactly antisymmetric. In a pair
/// interaction within the protected band, what the scan adds to the
/// first agent's separation accumulator is the exact negative of what it
/// adds to the second's, on both axes.
pub proof fn lemma_separation_antisymmetric(
    s: Seq<Sheep>,
    ps: Seq<Vec2>,
    cfg: FlockConfig,
    i: int,
    j: int,
)
    requires
        s.len() == ps.len(),
        0 <= i < j < s.len(),
        in_protected(ps[i], ps[j], cfg),
        pos_bounded(ps[i]),
        pos_bounded(ps[j]),
        acc_bounded(s[i], SCAN_PAIR_LIMIT as int),
        acc_bounded(s[j], SCAN_PAIR_LIMIT as int),
    ensures
        pair_apply(s, ps, cfg, i, j)[i].close_dx - s[i].close_dx == -(pair_apply(
            s,
            ps,
            cfg,
            i,
            j,
        )[j].close_dx - s[j].close_dx),
        pair_apply(s, ps, cfg, i, j)[i].close_dy - s[i].close_dy == -(pair_apply(
            s,
            ps,
            cfg,
            i,
            j,
        )[j].close_dy - s[j].close_dy),
{
}

/// Law: after one scan of a two-agent flock with clean accumulators,
/// the separation accumulators are exact negatives of each other on both
/// axes.
pub proof fn lemma_scan_pair_antisymmetric(s: Seq<Sheep>, ps: Seq<Vec2>, cfg: FlockConfig)
    requires
        s.len() == 2,
        ps.len() == 2,
        accumulators_zero(s[0]),
        accumulators_zero(s[1]),
        pos_bounded(ps[0]),
        pos_bounded(ps[1]),
    ensures
        scan_rows(s, ps, cfg, 0)[0].close_dx == -scan_rows(s, ps, cfg, 0)[1].close_dx,
        scan_rows(s, ps, cfg, 0)[0].close_dy == -scan_rows(s, ps, cfg, 0)[1].close_dy,
{
    let stepped = pair_apply(s, ps, cfg, 0, 1);
    assert(scan_row(s, ps, cfg, 0, 1) == scan_row(stepped, ps, cfg, 0, 2));
    assert(scan_rows(stepped, ps, cfg, 1) == scan_rows(scan_row(stepped, ps, cfg, 1, 2), ps, cfg, 2));
    assert(scan_rows(s, ps, cfg, 0) == stepped);
}

/// Law: a visible-band pair contributes nothing to separation and a
/// protected pair nothing to the averages: the two interaction rules are
/// mutually exclusive.
pub proof fn lemma_zones_exclusive(
    s: Seq<Sheep>,
    ps: Seq<Vec2>,
    cfg: FlockConfig,
    i: int,
    j: int,
)
    requires
        s.len() == ps.len(),
        0 <= i < j < s.len(),
        pos_bounded(ps[i]),
        pos_bounded(ps[j]),
        acc_bounded(s[i], SCAN_PAIR_LIMIT as int),
        acc_bounded(s[j], SCAN_PAIR_LIMIT as int),
    ensures
        in_protected(ps[i], ps[j], cfg) ==> pair_apply(s, ps, cfg, i, j)[i].num_neighbors
            == s[i].num_neighbors && pair_apply(s, ps, cfg, i, j)[i].xvel_avg == s[i].xvel_avg
            && pair_apply(s, ps, cfg, i, j)[i].xpos_avg == s[i].xpos_avg,
        in_visible(ps[i], ps[j], cfg) ==> pair_apply(s, ps, cfg, i, j)[i].close_dx == s[i].close_dx
            && pair_apply(s, ps, cfg, i, j)[j].close_dx == s[j].close_dx,
{
}

/// Law: the post-clamp velocity is within `max_speed` on each axis,
/// before the wander impulse is added.
pub proof fn lemma_speed_clamped(s: Sheep, p: Vec2, cfg: FlockConfig)
    requires
        config_valid(cfg),
    ensures
        -cfg.max_speed <= clamped_vel_spec(s, p, cfg).0 <= cfg.max_speed,
        -cfg.max_speed <= clamped_vel_spec(s, p, cfg).1 <= cfg.max_speed,
{
}

/// Law: the neighbor scan of an empty or one-agent flock is the
/// identity: with no pairs, nothing is accumulated and nothing is
/// divided.
pub proof fn lemma_scan_small(s: Seq<Sheep>, ps: Seq<Vec2>, cfg: FlockConfig)
    requires
        s.len() == ps.len(),
        s.len() <= 1,
    ensures
        scan_rows(s, ps, cfg, 0) == s,
{
    if ps.len() == 1 {
        assert(scan_row(s, ps, cfg, 0, 1) == s);
        assert(scan_rows(s, ps, cfg, 1) == s);
    }
}

/// The tentative next position on one axis: explicit Euler with the
/// speed multiplier, the time step brought back from milliseconds.
pub open spec fn step_pos_spec(pos: int, v: int, speed: int, dt_milli: int) -> int {
    pos + v * speed * dt_milli / 1000
}

/// A velocity axis after boundary damping: when the tentative step would
/// land at or past a boundary, the velocity is turned back by one fixed
/// decrement — once per tick, a gradual steering-back, not a bounce.
pub open spec fn damped_vel_spec(
    pos: int,
    v: int,
    speed: int,
    dt_milli: int,
    min_b: int,
    max_b: int,
    damping: int,
) -> int {
    let tentative = step_pos_spec(pos, v, speed, dt_milli);
    if tentative >= max_b {
        v - damping
    } else if tentative <= min_b {
        v + damping
    } else {
        v
    }
}

/// An agent after boundary handling: each velocity axis damped against
/// its tentative step.
pub open spec fn integrate_vel_spec(s: Sheep, p: Vec2, b: Bounds, cfg: FlockConfig, dt: int) -> Sheep {
    Sheep {
        vx: damped_vel_spec(
            p.x as int,
            s.vx as int,
            cfg.speed as int,
            dt,
            b.min_x as int,
            b.max_x as int,
            cfg.boundary_damping as int,
        ) as i64,
        vy: damped_vel_spec(
            p.y as int,
            s.vy as int,
            cfg.speed as int,
            dt,
            b.min_y as int,
            b.max_y as int,
            cfg.boundary_damping as int,
        ) as i64,
        ..s
    }
}

/// An agent's committed position: the step recomputed from the damped
/// velocity. The tentative step only probes the boundary; this second,
/// post-damping computation is the authoritative one.
pub open spec fn integrate_pos_spec(s: Sheep, p: Vec2, b: Bounds, cfg: FlockConfig, dt: int) -> Vec2 {
    let d = integrate_vel_spec(s, p, b, cfg, dt);
    Vec2 {
        x: step_pos_spec(p.x as int, d.vx as int, cfg.speed as int, dt) as i64,
        y: step_pos_spec(p.y as int, d.vy as int, cfg.speed as int, dt) as i64,
    }
}

/// Boundary handling and integration for one agent, the last step of a
/// tick.
pub fn integrate_one(s: Sheep, p: Vec2, b: &Bounds, cfg: &FlockConfig, dt_milli: i64) -> (r: (
    Sheep,
    Vec2,
))
    requires
        config_valid(*cfg),
        -2_000_000 <= s.vx <= 2_000_000,
        -2_000_000 <= s.vy <= 2_000_000,
        pos_bounded(p),
        0 <= dt_milli <= DT_LIMIT,
    ensures
        r.0 == integrate_vel_spec(s, p, *b, *cfg, dt_milli as int),
        r.1 == integrate_pos_spec(s, p, *b, *cfg, dt_milli as int),
        -3_000_000 <= r.0.vx <= 3_000_000,
        -3_000_000 <= r.0.vy <= 3_000_000,
{
    proof {
        assert(-2_000_000_000_000 <= s.vx * cfg.speed <= 2_000_000_000_000
            && -2_000_000_000_000 <= s.vy * cfg.speed <= 2_000_000_000_000) by (nonlinear_arith)
            requires
                -2_000_000 <= s.vx <= 2_000_000,
                -2_000_000 <= s.vy <= 2_000_000,
                0 <= cfg.speed <= 1_000_000,
        ;
        assert(-200_000_000_000_000_000 <= s.vx * cfg.speed * dt_milli <= 200_000_000_000_000_000
            && -200_000_000_000_000_000 <= s.vy * cfg.speed * dt_milli
            <= 200_000_000_000_000_000) by (nonlinear_arith)
            requires
                -2_000_000_000_000 <= s.vx * cfg.speed <= 2_000_000_000_000,
                -2_000_000_000_000 <= s.vy * cfg.speed <= 2_000_000_000_000,
                0 <= dt_milli <= 100_000,
        ;
    }
    let step_x = div_floor(s.vx * cfg.speed * dt_milli, 1000);
    let step_y = div_floor(s.vy * cfg.speed * dt_milli, 1000);
    proof {
        lemma_div_floor_bounds(s.vx as int * cfg.speed as int * dt_milli as int, 1000);
        lemma_div_floor_bounds(s.vy as int * cfg.speed as int * dt_milli as int, 1000);
    }
    let tentative_x = p.x + step_x;
    let tentative_y = p.y + step_y;
    let vx = if tentative_x >= b.max_x {
        s.vx - cfg.boundary_damping
    } else if tentative_x <= b.min_x {
        s.vx + cfg.boundary_damping
    } else {
        s.vx
    };
    let vy = if tentative_y >= b.max_y {
        s.vy - cfg.boundary_damping
    } else if tentative_y <= b.min_y {
        s.vy + cfg.boundary_damping
    } else {
        s.vy
    };
    proof {
        assert(-3_000_000_000_000 <= vx * cfg.speed <= 3_000_000_000_000
            && -3_000_000_000_000 <= vy * cfg.speed <= 3_000_000_000_000) by (nonlinear_arith)
            requires
                -3_000_000 <= vx <= 3_000_000,
                -3_000_000 <= vy <= 3_000_000,
                0 <= cfg.speed <= 1_000_000,
        ;
        assert(-300_000_000_000_000_000 <= vx * cfg.speed * dt_milli <= 300_000_000_000_000_000
            && -300_000_000_000_000_000 <= vy * cfg.speed * dt_milli
            <= 300_000_000_000_000_000) by (nonlinear_arith)
            requires
                -3_000_000_000_000 <= vx * cfg.speed <= 3_000_000_000_000,
                -3_000_000_000_000 <= vy * cfg.speed <= 3_000_000_000_000,
                0 <= dt_milli <= 100_000,
        ;
    }
    let adjusted_x = div_floor(vx * cfg.speed * dt_milli, 1000);
    let adjusted_y = div_floor(vy * cfg.speed * dt_milli, 1000);
    proof {
        lemma_div_floor_bounds(vx as int * cfg.speed as int * dt_milli as int, 1000);
        lemma_div_floor_bounds(vy as int * cfg.speed as int * dt_milli as int, 1000);
    }
    (Sheep { vx, vy, ..s }, Vec2 { x: p.x + adjusted_x, y: p.y + adjusted_y })
}

/// Boundary handling and integration over the whole flock: damp each
/// agent's velocity against the current boundaries and commit its new
/// position.
pub fn integrate_positions(
    flock: &mut Vec<Sheep>,
    positions: &mut Vec<Vec2>,
    b: &Bounds,
    cfg: &FlockConfig,
    dt_milli: i64,
)
    requires
        old(flock).len() == old(positions).len(),
        config_valid(*cfg),
        forall|k: int| 0 <= k < old(positions).len() ==> pos_bounded(#[trigger] old(positions)[k]),
        forall|k: int|
            0 <= k < old(flock).len() ==> -2_000_000 <= (#[trigger] old(flock)[k]).vx <= 2_000_000
                && -2_000_000 <= old(flock)[k].vy <= 2_000_000,
        0 <= dt_milli <= DT_LIMIT,
    ensures
        final(flock).len() == old(flock).len(),
        final(positions).len() == old(positions).len(),
        forall|k: int|
            0 <= k < old(flock).len() ==> #[trigger] final(flock)[k] == integrate_vel_spec(
                old(flock)[k],
                old(positions)[k],
                *b,
                *cfg,
                dt_milli as int,
            ),
        forall|k: int|
            0 <= k < old(positions).len() ==> #[trigger] final(positions)[k] == integrate_pos_spec(
                old(flock)[k],
                old(positions)[k],
                *b,
                *cfg,
                dt_milli as int,
            ),
{
    let n = flock.len();
    let ghost s0 = flock@;
    let ghost ps0 = positions@;
    let mut k: usize = 0;
    while k < n
        invariant
            flock.len() == n,
            positions.len() == n,
            s0.len() == n,
            ps0.len() == n,
            config_valid(*cfg),
            0 <= dt_milli <= DT_LIMIT,
            forall|m: int| 0 <= m < n ==> pos_bounded(#[trigger] ps0[m]),
            forall|m: int|
                0 <= m < n ==> -2_000_000 <= (#[trigger] s0[m]).vx <= 2_000_000 && -2_000_000
                    <= s0[m].vy <= 2_000_000,
            k <= n,
            forall|m: int|
                0 <= m < k ==> #[trigger] flock@[m] == integrate_vel_spec(
                    s0[m],
                    ps0[m],
                    *b,
                    *cfg,
                    dt_milli as int,
                ),
            forall|m: int|
                0 <= m < k ==> #[trigger] positions@[m] == integrate_pos_spec(
                    s0[m],
                    ps0[m],
                    *b,
                    *cfg,
                    dt_milli as int,
                ),
            forall|m: int| k <= m < n ==> #[trigger] flock@[m] == s0[m],
            forall|m: int| k <= m < n ==> #[trigger] positions@[m] == ps0[m],
        decreases n - k,
    {
        let s = flock[k];
        let p = positions[k];
        let (ns, np) = integrate_one(s, p, b, cfg, dt_milli);
        flock[k] = ns;
        positions[k] = np;
        k = k + 1;
    }
}

/// Draw one wander impulse per agent: each axis an arbitrary draw of at
/// most `wander_force` in magnitude.
pub fn draw_wander(count: usize, wander_force: i64) -> (w: Vec<Vec2>)
    requires
        0 <= wander_force <= VEL_LIMIT,
    ensures
        w.len() == count,
        forall|k: int|
            0 <= k < count ==> -wander_force <= (#[trigger] w[k]).x <= wander_force
                && -wander_force <= w[k].y <= wander_force,
{
    let mut w: Vec<Vec2> = Vec::new();
    let mut k: usize = 0;
    while k < count
        invariant
            0 <= wander_force <= VEL_LIMIT,
            k <= count,
            w.len() == k,
            forall|m: int|
                0 <= m < k ==> -wander_force <= (#[trigger] w[m]).x <= wander_force
                    && -wander_force <= w[m].y <= wander_force,
        decreases count - k,
    {
        let x = random_centered(wander_force);
        let y = random_centered(wander_force);
        w.push(Vec2 { x, y });
        k = k + 1;
    }
    w
}

/// The agents after one whole tick, as a function of the starting state:
/// accumulators reset, every pair scanned, forces synthesized with the
/// given wander impulses, then velocities damped at the boundaries.
pub open spec fn tick_flock_spec(
    s: Seq<Sheep>,
    ps: Seq<Vec2>,
    cfg: FlockConfig,
    b: Bounds,
    dt: int,
    w: Seq<Vec2>,
) -> Seq<Sheep> {
    let scanned = scan_rows(s.map_values(|a: Sheep| reset_spec(a)), ps, cfg, 0);
    Seq::new(
        s.len(),
        |k: int| integrate_vel_spec(synth_spec(scanned[k], ps[k], cfg, w[k]), ps[k], b, cfg, dt),
    )
}

/// The positions after one whole tick, committed from the damped
/// velocities.
pub open spec fn tick_positions_spec(
    s: Seq<Sheep>,
    ps: Seq<Vec2>,
    cfg: FlockConfig,
    b: Bounds,
    dt: int,
    w: Seq<Vec2>,
) -> Seq<Vec2> {
    let scanned = scan_rows(s.map_values(|a: Sheep| reset_spec(a)), ps, cfg, 0);
    Seq::new(
        ps.len(),
        |k: int| integrate_pos_spec(synth_spec(scanned[k], ps[k], cfg, w[k]), ps[k], b, cfg, dt),
    )
}

/// One full simulation tick over the flock, in order: reset the
/// accumulators, run the all-pairs neighbor scan, synthesize forces with
/// the given wander impulses, then damp velocities at the boundaries
/// (derived fresh from the field) and commit the integrated positions.
pub fn move_and_flock_sheep(
    flock: &mut Vec<Sheep>,
    positions: &mut Vec<Vec2>,
    field: &Field,
    cfg: &FlockConfig,
    dt_milli: i64,
    wander: &Vec<Vec2>,
)
    requires
        old(flock).len() == old(positions).len(),
        old(flock).len() == wander.len(),
        old(flock).len() <= MAX_AGENTS,
        config_valid(*cfg),
        -DIM_LIMIT <= field.width <= DIM_LIMIT,
        -DIM_LIMIT <= field.height <= DIM_LIMIT,
        0 <= dt_milli <= DT_LIMIT,
        forall|k: int| 0 <= k < old(positions).len() ==> pos_bounded(#[trigger] old(positions)[k]),
        forall|k: int| 0 <= k < old(flock).len() ==> vel_bounded(#[trigger] old(flock)[k]),
        forall|k: int| 0 <= k < old(flock).len() ==> bias_bounded(#[trigger] old(flock)[k]),
        forall|k: int|
            0 <= k < wander.len() ==> -cfg.wander_force <= (#[trigger] wander[k]).x
                <= cfg.wander_force && -cfg.wander_force <= wander[k].y <= cfg.wander_force,
    ensures
        final(flock).len() == old(flock).len(),
        final(positions).len() == old(positions).len(),
        final(flock)@ == tick_flock_spec(
            old(flock)@,
            old(positions)@,
            *cfg,
            bounds_spec(*field, cfg.margin_milli as int),
            dt_milli as int,
            wander@,
        ),
        final(positions)@ == tick_positions_spec(
            old(flock)@,
            old(positions)@,
            *cfg,
            bounds_spec(*field, cfg.margin_milli as int),
            dt_milli as int,
            wander@,
        ),
        forall|k: int|
            0 <= k < old(flock).len() ==> -cfg.max_speed - cfg.wander_force
                - cfg.boundary_damping <= (#[trigger] final(flock)[k]).vx <= cfg.max_speed
                + cfg.wander_force + cfg.boundary_damping && -cfg.max_speed - cfg.wander_force
                - cfg.boundary_damping <= final(flock)[k].vy <= cfg.max_speed + cfg.wander_force
                + cfg.boundary_damping,
{
    let ghost s_start = flock@;
    let ghost ps_start = positions@;
    let b = field_bounds(field, cfg.margin_milli);
    reset_accumulators(flock);
    proof {
        assert(flock@ =~= s_start.map_values(|a: Sheep| reset_spec(a)));
    }
    neighbor_scan(flock, positions, cfg);
    let ghost scanned = flock@;
    synthesize_forces(flock, positions, cfg, wander);
    integrate_positions(flock, positions, &b, cfg, dt_milli);
    proof {
        let gb = bounds_spec(*field, cfg.margin_milli as int);
        assert(flock@ =~= tick_flock_spec(
            s_start,
            ps_start,
            *cfg,
            gb,
            dt_milli as int,
            wander@,
        ));
        assert(positions@ =~= tick_positions_spec(
            s_start,
            ps_start,
            *cfg,
            gb,
            dt_milli as int,
            wander@,
        ));
    }
}

} // verus!
