use magiaboost::bullet::{
    bullet_hurts, despawn_on_contact, life_after_contact, spawn_bullet, tick_bullets, Bullet,
};
use magiaboost::cast::Shot;
use magiaboost::firing::{build_firing, draw_scatter, scatter_angle, spawn_firing, Vec2i};
use magiaboost::spell::{spell_to_props, SpellCast, SpellType};

fn magic_bolt_shot(speed_buff: i32, homing: i32) -> Shot {
    match spell_to_props(SpellType::MagicBolt).cast {
        SpellCast::Bullet { props } => Shot { props, owner: 77, speed_buff, homing },
        _ => panic!("magic bolt is a projectile spell"),
    }
}

#[test]
fn velocity_along_aim_is_speed_times_buffed_factor() {
    let mut shot = magic_bolt_shot(500, 0);
    shot.props.scattering = 0;
    assert_eq!(shot.props.speed, 100);
    let aim = Vec2i { x: 1000, y: 0 };
    let f = build_firing(&shot, 9, Vec2i { x: 0, y: 0 }, aim, aim);
    // millionths of a unit per second: 150 units per second along +x
    assert_eq!(f.velocity, Vec2i { x: 150_000_000, y: 0 });
    assert_eq!(f.velocity.x as f64 / 1_000_000.0, 150.0);
}

#[test]
fn zero_scattering_draws_no_offset() {
    let mut shot = magic_bolt_shot(0, 0);
    shot.props.scattering = 0;
    for _ in 0..20 {
        assert_eq!(draw_scatter(&shot), 0);
    }
}

#[test]
fn scatter_offset_stays_within_half_scattering() {
    let shot = magic_bolt_shot(0, 0);
    for _ in 0..50 {
        let r = draw_scatter(&shot);
        assert!(-150 <= r && r <= 150);
    }
}

#[test]
fn scatter_angle_exact_values() {
    assert_eq!(scatter_angle(0, 300), -150);
    assert_eq!(scatter_angle(0x8000_0000, 300), 0);
    assert_eq!(scatter_angle(u32::MAX, 300), 149);
    assert_eq!(scatter_angle(0x4000_0000, 600), -150);
    assert_eq!(scatter_angle(12345, 0), 0);
}

#[test]
fn descriptor_fields_come_from_shot() {
    let shot = magic_bolt_shot(-900, 40);
    let origin = Vec2i { x: 10_000, y: -2_000 };
    let aim = Vec2i { x: 0, y: -1000 };
    let dir = Vec2i { x: 600, y: -800 };
    let f = build_firing(&shot, 0xabc, origin, aim, dir);
    assert_eq!(f.uuid, 0xabc);
    assert_eq!(f.position, Vec2i { x: 10_000, y: -11_000 });
    assert_eq!(f.velocity, Vec2i { x: 600 * 100 * 100, y: -800 * 100 * 100 });
    assert_eq!(f.sender, Some(77));
    assert_eq!(f.homing, 40);
    assert_eq!(f.damage, shot.props.damage);
    assert_eq!(f.bullet_lifetime, shot.props.lifetime);
    assert_eq!(f.slice, "bullet_magic_bolt");
    assert_eq!(f.collier_radius, shot.props.collier_radius);
    assert_eq!(f.light_color_hlsa, shot.props.light_color_hlsa);
}

#[test]
fn spawned_descriptors_get_fresh_version_four_ids() {
    let shot = magic_bolt_shot(0, 0);
    let o = Vec2i { x: 0, y: 0 };
    let a = Vec2i { x: 1000, y: 0 };
    let f1 = spawn_firing(&shot, o, a, a);
    let f2 = spawn_firing(&shot, o, a, a);
    assert_ne!(f1.uuid, f2.uuid);
    assert_eq!((f1.uuid >> 76) & 0xf, 4);
    assert_eq!(f1.position, Vec2i { x: 9000, y: 0 });
}

#[test]
fn spawned_bullet_copies_descriptor() {
    let shot = magic_bolt_shot(0, 0);
    let a = Vec2i { x: 1000, y: 0 };
    let f = build_firing(&shot, 5, Vec2i { x: 0, y: 0 }, a, a);
    let mut bullets = Vec::new();
    spawn_bullet(&mut bullets, &f);
    assert_eq!(bullets.len(), 1);
    let b = bullets[0];
    assert_eq!(b.id, 5);
    assert_eq!(b.owner, Some(77));
    assert_eq!(b.life, f.bullet_lifetime);
    assert_eq!(b.velocity, f.velocity);
    assert_eq!(b.position, f.position);
}

fn bullet(id: u128, life: u32, owner: Option<u128>) -> Bullet {
    Bullet {
        id,
        life,
        damage: 8,
        impulse: 0,
        owner,
        position: Vec2i { x: 0, y: 0 },
        velocity: Vec2i { x: 0, y: 0 },
        collier_radius: 5000,
        homing: 0,
    }
}

#[test]
fn tick_removes_expired_and_ages_others() {
    let bs = vec![bullet(1, 1, None), bullet(2, 5, None), bullet(3, 0, None), bullet(4, 2, None)];
    let t = tick_bullets(&bs);
    assert_eq!(t.len(), 2);
    assert_eq!((t[0].id, t[0].life), (2, 4));
    assert_eq!((t[1].id, t[1].life), (4, 1));
}

#[test]
fn projectile_never_hurts_its_owner() {
    let own = bullet(1, 10, Some(42));
    let env = bullet(2, 10, None);
    assert!(!bullet_hurts(&own, 42));
    assert!(bullet_hurts(&own, 43));
    assert!(bullet_hurts(&env, 42));
    assert_eq!(life_after_contact(&own, 42, 10), 10);
    assert_eq!(life_after_contact(&own, 43, 10), 2);
    assert_eq!(life_after_contact(&own, 43, 5), 0);
    assert_eq!(life_after_contact(&env, 42, 20), 12);
}

#[test]
fn contact_despawns_a_projectile_once() {
    let mut bs = vec![bullet(1, 5, None), bullet(2, 5, Some(9)), bullet(3, 5, None)];
    let hit = despawn_on_contact(&mut bs, 2);
    assert_eq!(hit.map(|b| b.owner), Some(Some(9)));
    assert_eq!(bs.iter().map(|b| b.id).collect::<Vec<_>>(), vec![1, 3]);
    assert!(despawn_on_contact(&mut bs, 2).is_none());
    assert_eq!(bs.len(), 2);
}
