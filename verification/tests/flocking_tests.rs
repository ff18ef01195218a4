use sheep_herd::flocking::{
    draw_wander, field_bounds, integrate_positions, move_and_flock_sheep, neighbor_scan,
    reset_accumulators, synthesize_one, FlockConfig,
};
use sheep_herd::field::Field;
use sheep_herd::sheep::Sheep;
use sheep_herd::vec2::Vec2;

fn test_config() -> FlockConfig {
    FlockConfig {
        max_speed: 50,
        boundary_damping: 2,
        speed: 150,
        protected_distance: 50,
        visible_distance: 100,
        avoid_factor_micro: 8_000,
        align_factor_micro: 180_000,
        centering_factor_micro: 1,
        wander_force: 1,
        margin_milli: 900,
    }
}

fn plain_sheep(id: i64, vx: i64, vy: i64) -> Sheep {
    Sheep {
        id,
        vx,
        vy,
        close_dx: 0,
        close_dy: 0,
        xvel_avg: 0,
        yvel_avg: 0,
        num_neighbors: 0,
        xpos_avg: 0,
        ypos_avg: 0,
        bounced_x: false,
        bounced_y: false,
        bias_x: 0,
        bias_y: 0,
    }
}

#[test]
fn scan_protected_pair_separates() {
    // Two agents at distance 30 with protected_distance 50: nonzero,
    // opposite-signed close_d on each; no neighbor data recorded.
    let cfg = test_config();
    let mut flock = vec![plain_sheep(1, 3, 4), plain_sheep(2, -7, 9)];
    let positions = vec![Vec2 { x: 0, y: 0 }, Vec2 { x: 30, y: 0 }];
    neighbor_scan(&mut flock, &positions, &cfg);
    assert_eq!(flock[0].close_dx, -30);
    assert_eq!(flock[1].close_dx, 30);
    assert_ne!(flock[0].close_dx, 0);
    assert_eq!(flock[0].close_dx, -flock[1].close_dx);
    assert_eq!(flock[0].close_dy, -flock[1].close_dy);
    assert_eq!(flock[0].num_neighbors, 0);
    assert_eq!(flock[1].num_neighbors, 0);
    assert_eq!(flock[0].xvel_avg, 0);
    assert_eq!(flock[1].xvel_avg, 0);
    assert_eq!(flock[0].xpos_avg, 0);
    assert_eq!(flock[1].xpos_avg, 0);
}

#[test]
fn scan_visible_pair_aligns_and_coheres() {
    // Two agents at distance 75 with protected 50 / visible 100: each
    // counts one neighbor and records the other's exact velocity and
    // position.
    let cfg = test_config();
    let mut flock = vec![plain_sheep(1, 3, 4), plain_sheep(2, -7, 9)];
    let positions = vec![Vec2 { x: 0, y: 0 }, Vec2 { x: 75, y: 0 }];
    neighbor_scan(&mut flock, &positions, &cfg);
    assert_eq!(flock[0].num_neighbors, 1);
    assert_eq!(flock[1].num_neighbors, 1);
    assert_eq!(flock[0].xvel_avg, -7);
    assert_eq!(flock[0].yvel_avg, 9);
    assert_eq!(flock[1].xvel_avg, 3);
    assert_eq!(flock[1].yvel_avg, 4);
    assert_eq!(flock[0].xpos_avg, 75);
    assert_eq!(flock[0].ypos_avg, 0);
    assert_eq!(flock[1].xpos_avg, 0);
    assert_eq!(flock[1].ypos_avg, 0);
    assert_eq!(flock[0].close_dx, 0);
    assert_eq!(flock[1].close_dx, 0);
}

#[test]
fn scan_far_pair_no_interaction() {
    let cfg = test_config();
    let mut flock = vec![plain_sheep(1, 3, 4), plain_sheep(2, -7, 9)];
    let positions = vec![Vec2 { x: 0, y: 0 }, Vec2 { x: 500, y: 0 }];
    neighbor_scan(&mut flock, &positions, &cfg);
    assert_eq!(flock[0], plain_sheep(1, 3, 4));
    assert_eq!(flock[1], plain_sheep(2, -7, 9));
}

#[test]
fn scan_empty_flock_is_identity() {
    let cfg = test_config();
    let mut flock: Vec<Sheep> = vec![];
    let positions: Vec<Vec2> = vec![];
    neighbor_scan(&mut flock, &positions, &cfg);
    assert!(flock.is_empty());
}

#[test]
fn scan_single_agent_is_identity() {
    let cfg = test_config();
    let mut flock = vec![plain_sheep(1, 3, 4)];
    let positions = vec![Vec2 { x: 12, y: -9 }];
    neighbor_scan(&mut flock, &positions, &cfg);
    assert_eq!(flock[0], plain_sheep(1, 3, 4));
    assert_eq!(flock[0].num_neighbors, 0);
    assert_eq!(flock[0].close_dx, 0);
    assert_eq!(flock[0].xvel_avg, 0);
}

#[test]
fn reset_zeroes_accumulators_and_keeps_kinematics() {
    let mut s = plain_sheep(7, 11, -13);
    s.close_dx = 5;
    s.xvel_avg = 9;
    s.num_neighbors = 3;
    s.ypos_avg = -2;
    s.bias_x = 4;
    let mut flock = vec![s];
    reset_accumulators(&mut flock);
    assert_eq!(flock[0].close_dx, 0);
    assert_eq!(flock[0].xvel_avg, 0);
    assert_eq!(flock[0].num_neighbors, 0);
    assert_eq!(flock[0].ypos_avg, 0);
    assert_eq!(flock[0].id, 7);
    assert_eq!(flock[0].vx, 11);
    assert_eq!(flock[0].vy, -13);
    assert_eq!(flock[0].bias_x, 4);
}

#[test]
fn synthesis_clamps_velocity_to_max_speed() {
    // An agent already over max_speed with no forces at all is pulled
    // back onto the band before the (zero) wander is added.
    let cfg = test_config();
    let s = plain_sheep(1, 100, -100);
    let r = synthesize_one(s, Vec2 { x: 0, y: 0 }, &cfg, Vec2 { x: 0, y: 0 });
    assert_eq!(r.vx, 50);
    assert_eq!(r.vy, -50);
}

#[test]
fn synthesis_wander_may_exceed_max_speed_by_its_force() {
    let mut cfg = test_config();
    cfg.wander_force = 3;
    let s = plain_sheep(1, 100, 0);
    let r = synthesize_one(s, Vec2 { x: 0, y: 0 }, &cfg, Vec2 { x: 3, y: -3 });
    assert_eq!(r.vx, 53);
    assert_eq!(r.vy, -3);
}

#[test]
fn synthesis_separation_and_bias_always_apply() {
    // close_d of 1000 at avoid factor 0.008 gives 8; bias adds 4.
    let cfg = test_config();
    let mut s = plain_sheep(1, 0, 0);
    s.close_dx = 1000;
    s.bias_x = 4;
    let r = synthesize_one(s, Vec2 { x: 0, y: 0 }, &cfg, Vec2 { x: 0, y: 0 });
    assert_eq!(r.vx, 12);
    assert_eq!(r.vy, 0);
}

#[test]
fn synthesis_alignment_follows_neighbor_average() {
    // One neighbor with velocity 100 against own velocity 0: alignment
    // pulls by 0.18 of the difference, so 18.
    let cfg = test_config();
    let mut s = plain_sheep(1, 0, 0);
    s.num_neighbors = 1;
    s.xvel_avg = 100;
    let r = synthesize_one(s, Vec2 { x: 0, y: 0 }, &cfg, Vec2 { x: 0, y: 0 });
    assert_eq!(r.vx, 18);
    assert_eq!(r.vy, 0);
}

#[test]
fn synthesis_cohesion_pulls_toward_neighbor_position() {
    // One neighbor whose recorded position is a million units to the
    // right, at a centering factor of one millionth: cohesion pulls by
    // exactly one unit.
    let cfg = test_config();
    let mut s = plain_sheep(1, 0, 0);
    s.num_neighbors = 1;
    s.xpos_avg = 1_000_000;
    let r = synthesize_one(s, Vec2 { x: 0, y: 0 }, &cfg, Vec2 { x: 0, y: 0 });
    assert_eq!(r.vx, 1);
    assert_eq!(r.vy, 0);
}

#[test]
fn synthesis_divisions_round_toward_negative_infinity() {
    // Average of -7 over two neighbors floors to -4; alignment then
    // floors -4 * 0.18 to -1.
    let cfg = test_config();
    let mut s = plain_sheep(1, 0, 0);
    s.num_neighbors = 2;
    s.xvel_avg = -7;
    let r = synthesize_one(s, Vec2 { x: 0, y: 0 }, &cfg, Vec2 { x: 0, y: 0 });
    assert_eq!(r.vx, -1);
    assert_eq!(r.vy, 0);
}

#[test]
fn boundary_overshoot_damps_velocity_exactly_once() {
    // Field width 2000 at margin 0.9 puts max_x at 900. An agent at
    // (901, 0) with positive x-velocity gets exactly one damping
    // decrement this tick, not more.
    let cfg = test_config();
    let field = Field::new(2000, 2000);
    let b = field_bounds(&field, cfg.margin_milli);
    assert_eq!(b.max_x, 900);
    assert_eq!(b.min_x, -900);
    let mut flock = vec![plain_sheep(1, 10, 0)];
    let mut positions = vec![Vec2 { x: 901, y: 0 }];
    integrate_positions(&mut flock, &mut positions, &b, &cfg, 16);
    assert_eq!(flock[0].vx, 8);
    assert_eq!(flock[0].vy, 0);
    // committed position uses the damped velocity: 901 + 8*150*16/1000
    assert_eq!(positions[0].x, 901 + 19);
    assert_eq!(positions[0].y, 0);
}

#[test]
fn interior_agent_integrates_without_damping() {
    let cfg = test_config();
    let field = Field::new(2000, 2000);
    let b = field_bounds(&field, cfg.margin_milli);
    let mut flock = vec![plain_sheep(1, 10, -10)];
    let mut positions = vec![Vec2 { x: 0, y: 0 }];
    integrate_positions(&mut flock, &mut positions, &b, &cfg, 16);
    assert_eq!(flock[0].vx, 10);
    assert_eq!(flock[0].vy, -10);
    // 10 * 150 * 16 / 1000 = 24; floor division pulls -24 to -24 exactly
    assert_eq!(positions[0].x, 24);
    assert_eq!(positions[0].y, -24);
}

#[test]
fn full_tick_on_two_far_agents_is_plain_integration() {
    // Two agents beyond visible range, no bias, zero wander: the tick
    // reduces to clamping and integrating each alone.
    let cfg = test_config();
    let field = Field::new(2000, 2000);
    let mut flock = vec![plain_sheep(1, 10, 0), plain_sheep(2, -10, 0)];
    let mut positions = vec![Vec2 { x: -300, y: 0 }, Vec2 { x: 300, y: 0 }];
    let wander = vec![Vec2 { x: 0, y: 0 }, Vec2 { x: 0, y: 0 }];
    move_and_flock_sheep(&mut flock, &mut positions, &field, &cfg, 16, &wander);
    assert_eq!(flock[0].vx, 10);
    assert_eq!(flock[1].vx, -10);
    assert_eq!(positions[0].x, -300 + 24);
    assert_eq!(positions[1].x, 300 - 24);
    assert_eq!(positions[0].y, 0);
    assert_eq!(positions[1].y, 0);
}

#[test]
fn full_tick_respects_speed_band_plus_wander() {
    let cfg = test_config();
    let field = Field::new(2000, 2000);
    let mut flock = vec![plain_sheep(1, 400, -400)];
    let mut positions = vec![Vec2 { x: 0, y: 0 }];
    let wander = vec![Vec2 { x: 1, y: 1 }];
    move_and_flock_sheep(&mut flock, &mut positions, &field, &cfg, 16, &wander);
    assert!(flock[0].vx.abs() <= cfg.max_speed + cfg.wander_force + cfg.boundary_damping);
    assert_eq!(flock[0].vx, 51);
    assert_eq!(flock[0].vy, -49);
}

#[test]
fn consecutive_ticks_keep_the_flock_in_the_speed_band() {
    let cfg = test_config();
    let field = Field::new(2000, 2000);
    let mut flock = vec![plain_sheep(1, 40, -40), plain_sheep(2, -40, 40)];
    let mut positions = vec![Vec2 { x: -20, y: 0 }, Vec2 { x: 20, y: 0 }];
    let wander = vec![Vec2 { x: 1, y: -1 }, Vec2 { x: -1, y: 1 }];
    for _ in 0..10 {
        move_and_flock_sheep(&mut flock, &mut positions, &field, &cfg, 16, &wander);
        for s in &flock {
            let band = cfg.max_speed + cfg.wander_force + cfg.boundary_damping;
            assert!(s.vx.abs() <= band);
            assert!(s.vy.abs() <= band);
        }
    }
    assert_eq!(flock.len(), 2);
    assert_eq!(positions.len(), 2);
}

#[test]
fn wander_draw_stays_in_band() {
    let w = draw_wander(32, 5);
    assert_eq!(w.len(), 32);
    for v in &w {
        assert!(v.x >= -5 && v.x <= 5);
        assert!(v.y >= -5 && v.y <= 5);
    }
    let none = draw_wander(8, 0);
    for v in &none {
        assert_eq!(v.x, 0);
        assert_eq!(v.y, 0);
    }
}

#[test]
fn default_config_matches_stock_tuning() {
    let cfg = FlockConfig::default();
    assert_eq!(cfg.max_speed, 50);
    assert_eq!(cfg.boundary_damping, 2);
    assert_eq!(cfg.speed, 150);
    assert_eq!(cfg.protected_distance, 40);
    assert_eq!(cfg.visible_distance, 200);
    assert_eq!(cfg.avoid_factor_micro, 8_000);
    assert_eq!(cfg.align_factor_micro, 180_000);
    assert_eq!(cfg.centering_factor_micro, 1);
    assert_eq!(cfg.margin_milli, 900);
}
