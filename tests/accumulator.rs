use magiaboost::effects::{CastEffects, MAX_HOMING, MAX_SPEED_BUFF, MIN_SPEED_BUFF};

#[test]
fn five_large_speed_deltas_saturate_at_upper_bound() {
    let mut e = CastEffects::new();
    for _ in 0..5 {
        e.add_speed_buff(10000);
    }
    assert_eq!(e.bullet_speed_buff_factor, 3000);
    assert_ne!(e.bullet_speed_buff_factor, 50000);
    assert_eq!(e.homing, 0);
}

#[test]
fn speed_delta_within_range_adds_exactly() {
    let mut e = CastEffects::new();
    e.add_speed_buff(500);
    e.add_speed_buff(-200);
    assert_eq!(e.bullet_speed_buff_factor, 300);
    e.add_speed_buff(-5000);
    assert_eq!(e.bullet_speed_buff_factor, MIN_SPEED_BUFF);
}

#[test]
fn extreme_deltas_do_not_overflow() {
    let mut e = CastEffects::new();
    e.add_speed_buff(i32::MAX);
    assert_eq!(e.bullet_speed_buff_factor, MAX_SPEED_BUFF);
    e.add_speed_buff(i32::MIN);
    assert_eq!(e.bullet_speed_buff_factor, MIN_SPEED_BUFF);
    e.add_homing(i32::MIN);
    assert_eq!(e.homing, -MAX_HOMING);
    e.add_homing(i32::MAX);
    assert_eq!(e.homing, MAX_HOMING);
    assert!(e.is_valid());
}

#[test]
fn homing_clamps_and_keeps_speed() {
    let mut e = CastEffects { bullet_speed_buff_factor: 700, homing: 0 };
    for _ in 0..15 {
        e.add_homing(10);
    }
    assert_eq!(e.homing, 100);
    assert_eq!(e.bullet_speed_buff_factor, 700);
    e.clear();
    assert_eq!(e, CastEffects::new());
}

