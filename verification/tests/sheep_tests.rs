use sheep_herd::sheep::{sheep_for_index, spawn_flock, Sheep};
use sheep_herd::vec2::Vec2;

#[test]
fn new_sheep_is_clean_with_bounded_velocity() {
    let s = Sheep::new();
    assert_eq!(s.id, 0);
    assert_eq!(s.close_dx, 0);
    assert_eq!(s.close_dy, 0);
    assert_eq!(s.xvel_avg, 0);
    assert_eq!(s.yvel_avg, 0);
    assert_eq!(s.num_neighbors, 0);
    assert_eq!(s.xpos_avg, 0);
    assert_eq!(s.ypos_avg, 0);
    assert_eq!(s.bias_x, 0);
    assert_eq!(s.bias_y, 0);
    assert!(!s.bounced_x && !s.bounced_y);
    assert!(s.vx >= -50 && s.vx <= 50);
    assert!(s.vy >= -50 && s.vy <= 50);
}

#[test]
fn bias_assignment_follows_index_groups() {
    let bias_a = Vec2 { x: 11, y: 13 };
    let bias_b = Vec2 { x: -17, y: -19 };
    // x-bias groups by index modulo 8, y-bias by index modulo 3.
    let s8 = sheep_for_index(8, bias_a, bias_b, 1, 2);
    assert_eq!(s8.id, 8);
    assert_eq!(s8.vx, 1);
    assert_eq!(s8.vy, 2);
    assert_eq!(s8.bias_x, 11);
    assert_eq!(s8.bias_y, 0);
    let s1 = sheep_for_index(1, bias_a, bias_b, 0, 0);
    assert_eq!(s1.bias_x, -17);
    assert_eq!(s1.bias_y, -19);
    let s3 = sheep_for_index(3, bias_a, bias_b, 0, 0);
    assert_eq!(s3.bias_x, 0);
    assert_eq!(s3.bias_y, 13);
    let s4 = sheep_for_index(4, bias_a, bias_b, 0, 0);
    assert_eq!(s4.bias_x, 0);
    assert_eq!(s4.bias_y, -19);
    let s5 = sheep_for_index(5, bias_a, bias_b, 0, 0);
    assert_eq!(s5.bias_x, 0);
    assert_eq!(s5.bias_y, 0);
}

#[test]
fn spawned_flock_has_ids_biases_and_bounded_state() {
    let bias_a = Vec2 { x: 11, y: 13 };
    let bias_b = Vec2 { x: -17, y: -19 };
    let (flock, positions) = spawn_flock(44, bias_a, bias_b);
    assert_eq!(flock.len(), 44);
    assert_eq!(positions.len(), 44);
    for (k, s) in flock.iter().enumerate() {
        let id = (k + 1) as i64;
        assert_eq!(s.id, id);
        assert_eq!(s.close_dx, 0);
        assert_eq!(s.num_neighbors, 0);
        assert!(!s.bounced_x && !s.bounced_y);
        assert!(s.vx >= -5 && s.vx <= 5);
        assert!(s.vy >= -5 && s.vy <= 5);
        let expected_bx = match id % 8 {
            0 => 11,
            1 => -17,
            _ => 0,
        };
        let expected_by = match id % 3 {
            0 => 13,
            1 => -19,
            _ => 0,
        };
        assert_eq!(s.bias_x, expected_bx);
        assert_eq!(s.bias_y, expected_by);
    }
    for p in &positions {
        assert!(p.x >= -500 && p.x <= 500);
        assert!(p.y >= -500 && p.y <= 500);
    }
}

#[test]
fn empty_spawn_is_empty() {
    let (flock, positions) = spawn_flock(0, Vec2 { x: 0, y: 0 }, Vec2 { x: 0, y: 0 });
    assert!(flock.is_empty());
    assert!(positions.is_empty());
}
