use magiaboost::actor::Actor;
use magiaboost::cast::{cast_spell, CastEvent};
use magiaboost::constant::MAX_SPELLS_IN_WAND;
use magiaboost::effects::CastEffects;
use magiaboost::spell::{spell_to_props, SpellType};
use magiaboost::wand::{Wand, WandSpell, WandType};

const CASTER: u128 = 0x1234_5678_9abc_def0_1234_5678_9abc_def0;

fn wand_of(spells: &[Option<SpellType>]) -> Wand {
    let mut slots: [Option<WandSpell>; MAX_SPELLS_IN_WAND] = [None; MAX_SPELLS_IN_WAND];
    for (i, s) in spells.iter().enumerate() {
        slots[i] = s.map(|spell_type| WandSpell { spell_type, price: 0 });
    }
    Wand { wand_type: WandType::CypressWand, price: 0, slots, index: 0 }
}

fn caster(spells: &[Option<SpellType>], mana: i32) -> Actor {
    let mut a = Actor::new(CASTER, 10, 20, mana, 1000);
    a.wands[0] = Some(wand_of(spells));
    a
}

fn active_index(a: &Actor) -> usize {
    a.wands[a.current_wand].unwrap().index
}

#[test]
fn no_wand_is_a_no_op() {
    let mut a = Actor::new(CASTER, 10, 20, 100, 100);
    let mut events = Vec::new();
    assert_eq!(cast_spell(&mut a, &mut events), 0);
    assert_eq!(a.mana, 100);
    assert!(events.is_empty());
}

#[test]
fn running_delay_is_a_no_op() {
    let mut a = caster(&[Some(SpellType::MagicBolt), Some(SpellType::Heal)], 100);
    a.spell_delay = 3;
    let mut events = Vec::new();
    assert_eq!(cast_spell(&mut a, &mut events), 0);
    assert_eq!(active_index(&a), 0);
    assert_eq!(a.mana, 100);
    assert!(events.is_empty());
}

#[test]
fn empty_slot_advances_for_free() {
    let mut a = caster(&[None, None, Some(SpellType::MagicBolt)], 100);
    let mut events = Vec::new();
    assert_eq!(cast_spell(&mut a, &mut events), 0);
    assert_eq!(active_index(&a), 2);
    assert_eq!(a.mana, 100);
    assert!(events.is_empty());
}

#[test]
fn insufficient_mana_clears_effects_and_still_costs_delay() {
    let mut a = caster(&[Some(SpellType::MagicBolt), Some(SpellType::Heal)], 49);
    a.effects = CastEffects { bullet_speed_buff_factor: 500, homing: 20 };
    let mut events = Vec::new();
    assert_eq!(cast_spell(&mut a, &mut events), 10);
    assert_eq!(a.mana, 49);
    assert_eq!(a.effects, CastEffects { bullet_speed_buff_factor: 0, homing: 0 });
    assert_eq!(active_index(&a), 1);
    assert_eq!(events.len(), 1);
    assert!(matches!(events[0], CastEvent::InsufficientMana));
}

#[test]
fn damaging_cast_consumes_accumulator() {
    let mut a = caster(&[Some(SpellType::MagicBolt), Some(SpellType::Heal)], 100);
    a.effects = CastEffects { bullet_speed_buff_factor: 500, homing: -30 };
    let mut events = Vec::new();
    assert_eq!(cast_spell(&mut a, &mut events), 10);
    assert_eq!(a.mana, 50);
    assert_eq!(a.effects, CastEffects { bullet_speed_buff_factor: 0, homing: 0 });
    assert_eq!(active_index(&a), 1);
    assert_eq!(events.len(), 1);
    match events[0] {
        CastEvent::Fire(shot) => {
            assert_eq!(shot.owner, CASTER);
            assert_eq!(shot.speed_buff, 500);
            assert_eq!(shot.homing, -30);
            assert_eq!(shot.props.speed, 100);
            assert_eq!(shot.props.slice, "bullet_magic_bolt");
        }
        _ => panic!("expected a projectile"),
    }
}

#[test]
fn modifier_casts_accumulate_and_clamp() {
    let mut a = caster(&[Some(SpellType::BulletSpeedUp), Some(SpellType::Homing)], 1000);
    let mut events = Vec::new();
    for _ in 0..10 {
        assert_eq!(cast_spell(&mut a, &mut events), 1);
    }
    assert!(events.is_empty());
    assert_eq!(a.effects.bullet_speed_buff_factor, 2500);
    assert_eq!(a.effects.homing, 50);
    assert_eq!(a.mana, 800);
    for _ in 0..20 {
        cast_spell(&mut a, &mut events);
    }
    assert_eq!(a.effects.bullet_speed_buff_factor, 3000);
    assert_eq!(a.effects.homing, 100);
}

#[test]
fn speed_down_clamps_at_lower_bound() {
    let mut a = caster(&[Some(SpellType::BulletSpeedDown)], 1000);
    let mut events = Vec::new();
    for _ in 0..5 {
        cast_spell(&mut a, &mut events);
    }
    assert_eq!(a.effects.bullet_speed_buff_factor, -900);
}

#[test]
fn heal_restores_bounded_life() {
    let mut a = caster(&[Some(SpellType::Heal)], 100);
    a.life = 19;
    let mut events = Vec::new();
    assert_eq!(cast_spell(&mut a, &mut events), 120);
    assert_eq!(a.life, 20);
    assert_eq!(a.mana, 80);
    assert_eq!(events.len(), 1);
    assert!(matches!(events[0], CastEvent::HealApplied));

    let mut b = caster(&[Some(SpellType::Heal)], 100);
    b.life = 5;
    assert_eq!(cast_spell(&mut b, &mut events), 120);
    assert_eq!(b.life, 7);
}

#[test]
fn heal_at_full_life_is_free_of_delay_but_spends_mana() {
    let mut a = caster(&[Some(SpellType::Heal), Some(SpellType::MagicBolt)], 100);
    a.life = 20;
    a.effects = CastEffects { bullet_speed_buff_factor: 500, homing: 10 };
    let mut events = Vec::new();
    assert_eq!(cast_spell(&mut a, &mut events), 0);
    assert_eq!(a.life, 20);
    assert_eq!(a.mana, 100 - spell_to_props(SpellType::Heal).mana_drain);
    assert_eq!(a.mana, 80);
    assert_eq!(a.effects, CastEffects { bullet_speed_buff_factor: 500, homing: 10 });
    assert_eq!(active_index(&a), 1);
    assert!(events.is_empty());
}

#[test]
fn composite_cast_returns_max_of_sub_delays() {
    let mut a = caster(
        &[
            Some(SpellType::TripleCast),
            Some(SpellType::MagicBolt),
            Some(SpellType::PurpleBolt),
            Some(SpellType::WaterBall),
        ],
        1000,
    );
    assert_eq!(spell_to_props(SpellType::MagicBolt).cast_delay, 10);
    assert_eq!(spell_to_props(SpellType::PurpleBolt).cast_delay, 25);
    assert_eq!(spell_to_props(SpellType::WaterBall).cast_delay, 15);
    let mut events = Vec::new();
    let delay = cast_spell(&mut a, &mut events);
    assert_eq!(delay, 25);
    assert_ne!(delay, 50);
    assert_eq!(a.mana, 1000 - 1 - 50 - 80 - 60);
    assert_eq!(events.len(), 3);
    assert!(events.iter().all(|e| matches!(e, CastEvent::Fire(_))));
    assert_eq!(active_index(&a), 0);
}

#[test]
fn composite_applies_modifier_to_following_projectile() {
    let mut a = caster(
        &[Some(SpellType::DualCast), Some(SpellType::BulletSpeedUp), Some(SpellType::MagicBolt)],
        1000,
    );
    let mut events = Vec::new();
    assert_eq!(cast_spell(&mut a, &mut events), 10);
    assert_eq!(events.len(), 1);
    match events[0] {
        CastEvent::Fire(shot) => assert_eq!(shot.speed_buff, 500),
        _ => panic!("expected a projectile"),
    }
    assert_eq!(a.effects.bullet_speed_buff_factor, 0);
}

#[test]
fn nested_composites_stop_when_mana_runs_out() {
    let mut a = caster(&[Some(SpellType::DualCast)], 5);
    let mut events = Vec::new();
    assert_eq!(cast_spell(&mut a, &mut events), 1);
    assert_eq!(a.mana, 0);
    assert!(!events.is_empty());
    assert!(events.iter().all(|e| matches!(e, CastEvent::InsufficientMana)));
}

#[test]
fn mana_never_negative_and_never_grows() {
    let spells = [
        Some(SpellType::TripleCast),
        Some(SpellType::MagicBolt),
        None,
        Some(SpellType::Heal),
        Some(SpellType::DualCast),
        Some(SpellType::PurpleBolt),
        Some(SpellType::Homing),
        Some(SpellType::WaterBall),
    ];
    for start in [0, 1, 19, 50, 51, 137, 400] {
        let mut a = caster(&spells, start);
        let mut events = Vec::new();
        for _ in 0..40 {
            let before = a.mana;
            let d = cast_spell(&mut a, &mut events);
            assert!(d >= 0);
            assert!(a.mana >= 0);
            assert!(a.mana <= before);
            assert!(a.is_valid());
        }
    }
}
