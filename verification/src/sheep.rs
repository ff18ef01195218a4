//! The flocking agents and how a flock is spawned.

use vstd::prelude::*;
use crate::vec2::Vec2;

verus! {

/// Largest flock the engine accepts in one tick.
pub const MAX_AGENTS: usize = 2048;

/// Machine limit on agent positions per axis, in world units.
pub const POS_LIMIT: i64 = 1_000_000;

/// Machine limit on agent velocities per axis entering a tick.
pub const VEL_LIMIT: i64 = 1_000_000;

/// Machine limit on the fixed per-agent bias per axis.
pub const BIAS_LIMIT: i64 = 1_000_000;

/// Half-width of the random starting velocity of a lone new sheep.
pub const NEW_VEL_LIMIT: i64 = 50;

/// Half-width of the random starting velocity of a spawned flock member.
pub const SPAWN_VEL_LIMIT: i64 = 5;

/// Half-width of the random starting position of a spawned flock member.
pub const SPAWN_POS_LIMIT: i64 = 500;

/// One flocking agent. `vx`/`vy` are its velocity; `close_dx`/`close_dy`,
/// `xvel_avg`/`yvel_avg`, `xpos_avg`/`ypos_avg` and `num_neighbors` are
/// per-tick accumulators filled by the neighbor scan; `bias_x`/`bias_y`
/// is a fixed steering preference set at spawn; `bounced_x`/`bounced_y`
/// record boundary contact on each axis.
#[derive(Clone, Copy, Debug, PartialEq, Eq, Structural)]
pub struct Sheep {
    pub id: i64,
    pub vx: i64,
    pub vy: i64,
    pub close_dx: i64,
    pub close_dy: i64,
    pub xvel_avg: i64,
    pub yvel_avg: i64,
    pub num_neighbors: i64,
    pub xpos_avg: i64,
    pub ypos_avg: i64,
    pub bounced_x: bool,
    pub bounced_y: bool,
    pub bias_x: i64,
    pub bias_y: i64,
}

/// All per-tick accumulators of a sheep are zero.
pub open spec fn accumulators_zero(s: Sheep) -> bool {
    &&& s.close_dx == 0
    &&& s.close_dy == 0
    &&& s.xvel_avg == 0
    &&& s.yvel_avg == 0
    &&& s.num_neighbors == 0
    &&& s.xpos_avg == 0
    &&& s.ypos_avg == 0
}

/// Relies on `rand::random`: a draw from the thread-local generator.
/// Nothing is promised of the value.
pub assume_specification<T>[ rand::random::<T> ]() -> (r: T)
    where
        rand::distributions::Standard: rand::distributions::Distribution<T>,
;

/// A random value in `[-limit, limit]`, folded down from one raw 16-bit
/// draw. Only the band is promised: the draw itself is arbitrary.
pub fn random_centered(limit: i64) -> (r: i64)
    requires
        0 <= limit <= 1_000_000,
    ensures
        -limit <= r <= limit,
{
    let raw: u16 = rand::random::<u16>();
    let span: u64 = (2 * limit + 1) as u64;
    let m: u64 = (raw as u64) % span;
    (m as i64) - limit
}

/// The x-bias of the agent with index `i`: every eighth index shares the
/// first group's bias, the indices right after them the second group's,
/// and the rest get none. The grouping splits the flock into drifting
/// sub-flocks.
pub open spec fn bias_x_for_index(i: int, bias_a: Vec2, bias_b: Vec2) -> i64 {
    if i % 8 == 0 {
        bias_a.x
    } else if i % 8 == 1 {
        bias_b.x
    } else {
        0
    }
}

/// The y-bias of the agent with index `i`, grouped by residue modulo
/// three in the same way.
pub open spec fn bias_y_for_index(i: int, bias_a: Vec2, bias_b: Vec2) -> i64 {
    if i % 3 == 0 {
        bias_a.y
    } else if i % 3 == 1 {
        bias_b.y
    } else {
        0
    }
}

impl Sheep {
    /// A lone new sheep: no identity, no bias, clean accumulators, and a
    /// random starting velocity of at most `NEW_VEL_LIMIT` per axis.
    pub fn new() -> (s: Sheep)
        ensures
            s.id == 0,
            accumulators_zero(s),
            s.bias_x == 0 && s.bias_y == 0,
            !s.bounced_x && !s.bounced_y,
            -NEW_VEL_LIMIT <= s.vx <= NEW_VEL_LIMIT,
            -NEW_VEL_LIMIT <= s.vy <= NEW_VEL_LIMIT,
    {
        let vx = random_centered(NEW_VEL_LIMIT);
        let vy = random_centered(NEW_VEL_LIMIT);
        Sheep {
            id: 0,
            vx,
            vy,
            close_dx: 0,
            close_dy: 0,
            xvel_avg: 0,
            yvel_avg: 0,
            num_neighbors: 0,
            xpos_avg: 0,
            ypos_avg: 0,
            bounced_x: false,
            bounced_y: false,
            bias_x: 0,
            bias_y: 0,
        }
    }
}

/// The deterministic part of spawning: the member with index `i` gets
/// that identity, the given starting velocity, clean accumulators, and
/// the bias of its index group.
pub fn sheep_for_index(i: usize, bias_a: Vec2, bias_b: Vec2, vx: i64, vy: i64) -> (s: Sheep)
    requires
        i <= MAX_AGENTS,
    ensures
        s.id == i as int,
        s.vx == vx,
        s.vy == vy,
        accumulators_zero(s),
        !s.bounced_x && !s.bounced_y,
        s.bias_x == bias_x_for_index(i as int, bias_a, bias_b),
        s.bias_y == bias_y_for_index(i as int, bias_a, bias_b),
{
    let bias_x = if i % 8 == 0 {
        bias_a.x
    } else if i % 8 == 1 {
        bias_b.x
    } else {
        0
    };
    let bias_y = if i % 3 == 0 {
        bias_a.y
    } else if i % 3 == 1 {
        bias_b.y
    } else {
        0
    };
    Sheep {
        id: i as i64,
        vx,
        vy,
        close_dx: 0,
        close_dy: 0,
        xvel_avg: 0,
        yvel_avg: 0,
        num_neighbors: 0,
        xpos_avg: 0,
        ypos_avg: 0,
        bounced_x: false,
        bounced_y: false,
        bias_x,
        bias_y,
    }
}

/// Spawn a flock of `count` members with indices `1..=count`: each gets
/// a small random starting velocity, a random position near the middle
/// of the field, and the bias of its index group. Returns the agents and
/// their positions, index for index.
pub fn spawn_flock(count: usize, bias_a: Vec2, bias_b: Vec2) -> (r: (Vec<Sheep>, Vec<Vec2>))
    requires
        count < MAX_AGENTS,
    ensures
        r.0.len() == count,
        r.1.len() == count,
        forall|k: int|
            0 <= k < count ==> {
                &&& (#[trigger] r.0[k]).id == k + 1
                &&& accumulators_zero(r.0[k])
                &&& !r.0[k].bounced_x && !r.0[k].bounced_y
                &&& r.0[k].bias_x == bias_x_for_index(k + 1, bias_a, bias_b)
                &&& r.0[k].bias_y == bias_y_for_index(k + 1, bias_a, bias_b)
                &&& -SPAWN_VEL_LIMIT <= r.0[k].vx <= SPAWN_VEL_LIMIT
                &&& -SPAWN_VEL_LIMIT <= r.0[k].vy <= SPAWN_VEL_LIMIT
            },
        forall|k: int|
            0 <= k < count ==> {
                &&& -SPAWN_POS_LIMIT <= (#[trigger] r.1[k]).x <= SPAWN_POS_LIMIT
                &&& -SPAWN_POS_LIMIT <= r.1[k].y <= SPAWN_POS_LIMIT
            },
{
    let mut flock: Vec<Sheep> = Vec::new();
    let mut positions: Vec<Vec2> = Vec::new();
    let mut i: usize = 1;
    while i <= count
        invariant
            1 <= i <= count + 1,
            count < MAX_AGENTS,
            flock.len() == i - 1,
            positions.len() == i - 1,
            forall|k: int|
                0 <= k < i - 1 ==> {
                    &&& (#[trigger] flock[k]).id == k + 1
                    &&& accumulators_zero(flock[k])
                    &&& !flock[k].bounced_x && !flock[k].bounced_y
                    &&& flock[k].bias_x == bias_x_for_index(k + 1, bias_a, bias_b)
                    &&& flock[k].bias_y == bias_y_for_index(k + 1, bias_a, bias_b)
                    &&& -SPAWN_VEL_LIMIT <= flock[k].vx <= SPAWN_VEL_LIMIT
                    &&& -SPAWN_VEL_LIMIT <= flock[k].vy <= SPAWN_VEL_LIMIT
                },
            forall|k: int|
                0 <= k < i - 1 ==> {
                    &&& -SPAWN_POS_LIMIT <= (#[trigger] positions[k]).x <= SPAWN_POS_LIMIT
                    &&& -SPAWN_POS_LIMIT <= positions[k].y <= SPAWN_POS_LIMIT
                },
        decreases count + 1 - i,
    {
        let vx = random_centered(SPAWN_VEL_LIMIT);
        let vy = random_centered(SPAWN_VEL_LIMIT);
        let px = random_centered(SPAWN_POS_LIMIT);
        let py = random_centered(SPAWN_POS_LIMIT);
        let s = sheep_for_index(i, bias_a, bias_b, vx, vy);
        flock.push(s);
        positions.push(Vec2 { x: px, y: py });
        i = i + 1;
    }
    (flock, positions)
}

} // verus!
