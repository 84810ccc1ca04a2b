use vstd::prelude::*;

use crate::actor::{Actor, HEAL_AMOUNT};
use crate::effects::CastEffects;
use crate::spell::{
    lemma_catalog_within_bounds, spell_props, spell_to_props, BulletProps, SpellCast, SpellType,
    MAX_CAST_DELAY,
};
use crate::wand::Wand;

verus! {

/// A projectile that a cast decided to fire, before its direction is
/// perturbed and its spawn descriptor is built.
#[derive(Clone, Copy, Debug)]
pub struct Shot {
    pub props: BulletProps,
    /// Identifier of the caster that fired it.
    pub owner: u128,
    /// Speed factor offset taken from the caster's accumulator, in thousandths.
    pub speed_buff: i32,
    /// Homing strength taken from the caster's accumulator, in thousandths.
    pub homing: i32,
}

/// What a cast hands to its collaborators, in the order it happened.
#[derive(Clone, Copy, Debug)]
pub enum CastEvent {
    /// A projectile is to be spawned and replicated.
    Fire(Shot),
    /// A cast failed for want of mana.
    InsufficientMana,
    /// A heal cast restored life.
    HealApplied,
}

pub open spec fn max_delay(a: int, b: int) -> int {
    if a < b {
        b
    } else {
        a
    }
}

/// The caster with the active holder replaced by `w`.
pub open spec fn with_active_wand(a: Actor, w: Wand) -> Actor {
    Actor { wands: vstd::array::spec_array_update(a.wands, a.current_wand as int, Some(w)), ..a }
}

/// The projectile that a damaging spell of `a` fires.
pub open spec fn shot_of(a: Actor, props: BulletProps) -> Shot {
    Shot {
        props,
        owner: a.uuid,
        speed_buff: a.effects.bullet_speed_buff_factor,
        homing: a.effects.homing,
    }
}

/// Every projectile among the events from position `from` on has its
/// speed, speed offset and scattering in bounds.
pub open spec fn shots_in_bounds(events: Seq<CastEvent>, from: int) -> bool {
    forall|i: int|
        from <= i < events.len() ==> (#[trigger] events[i] matches CastEvent::Fire(s) ==> s.wf())
}

/// One cast attempt of `a`: the caster afterwards, the delay it costs and
/// the events it produced.
pub open spec fn cast_outcome(a: Actor) -> (Actor, int, Seq<CastEvent>)
    decreases a.mana, 0int, 0int,
{
    match a.wands[a.current_wand as int] {
        None => (a, 0, Seq::empty()),
        Some(w) => if 0 < a.spell_delay {
            (a, 0, Seq::empty())
        } else {
            let shifted = with_active_wand(a, w.shifted());
            match w.slots[w.index as int] {
                None => (shifted, 0, Seq::empty()),
                Some(ws) => {
                    let p = spell_props(ws.spell_type);
                    if a.mana < p.mana_drain {
                        (
                            Actor { effects: CastEffects::cleared(), ..shifted },
                            p.cast_delay as int,
                            seq![CastEvent::InsufficientMana],
                        )
                    } else {
                        let paid = Actor { mana: (a.mana - p.mana_drain) as i32, ..shifted };
                        match p.cast {
                            SpellCast::Bullet { props } => (
                                Actor { effects: CastEffects::cleared(), ..paid },
                                p.cast_delay as int,
                                seq![CastEvent::Fire(shot_of(a, props))],
                            ),
                            SpellCast::BulletSpeedUpDown { delta } => (
                                Actor { effects: a.effects.with_speed_delta(delta as int), ..paid },
                                p.cast_delay as int,
                                Seq::empty(),
                            ),
                            SpellCast::HomingUpDown { delta } => (
                                Actor {
                                    effects: a.effects.with_homing_delta(delta as int),
                                    ..paid
                                },
                                p.cast_delay as int,
                                Seq::empty(),
                            ),
                            SpellCast::Heal => if ws.spell_type == SpellType::Heal && a.life
                                == a.max_life {
                                (paid, 0, Seq::empty())
                            } else {
                                (
                                    Actor {
                                        life: if a.max_life - a.life < HEAL_AMOUNT {
                                            a.max_life
                                        } else {
                                            (a.life + HEAL_AMOUNT) as i32
                                        },
                                        ..paid
                                    },
                                    p.cast_delay as int,
                                    seq![CastEvent::HealApplied],
                                )
                            },
                            SpellCast::MultipleCast { amount } => if 0 <= paid.mana < a.mana {
                                multi_cast_outcome(paid, amount as nat)
                            } else {
                                (paid, 0, Seq::empty())
                            },
                        }
                    }
                },
            }
        },
    }
}

/// `n` cast attempts of `a` in a row: the caster afterwards, the largest of
/// their delays, and their events in order.
pub open spec fn multi_cast_outcome(a: Actor, n: nat) -> (Actor, int, Seq<CastEvent>)
    decreases a.mana, 1int, n,
{
    if n == 0 {
        (a, 0, Seq::empty())
    } else {
        let prev = multi_cast_outcome(a, (n - 1) as nat);
        if 0 <= prev.0.mana <= a.mana {
            let next = cast_outcome(prev.0);
            (next.0, max_delay(prev.1, next.1), prev.2 + next.2)
        } else {
            prev
        }
    }
}

/// Resolves one cast attempt of `actor` with its active wand.
///
/// Nothing happens while the caster has no active wand or its delay is
/// running. Otherwise the wand's cursor advances once; an empty slot costs
/// nothing; a spell the caster cannot pay for clears the accumulator,
/// reports the failure and still costs its delay; a paid spell fires a
/// projectile (consuming the accumulator), changes a modifier, heals, or
/// resolves the next casts at once and costs the largest of their delays.
/// The returned delay is to be added to the caster's delay.
pub fn cast_spell(actor: &mut Actor, events: &mut Vec<CastEvent>) -> (r: i32)
    requires
        old(actor).wf(),
    ensures
        final(actor).wf(),
        *final(actor) == cast_outcome(*old(actor)).0,
        r as int == cast_outcome(*old(actor)).1,
        final(events)@ == old(events)@ + cast_outcome(*old(actor)).2,
        0 <= r <= MAX_CAST_DELAY,
        0 <= final(actor).mana <= old(actor).mana,
        shots_in_bounds(final(events)@, old(events).len() as int),
    decreases old(actor).mana,
{
    let cw = actor.current_wand;
    let w = match actor.wands[cw] {
        None => {
            return 0;
        },
        Some(w) => w,
    };
    if 0 < actor.spell_delay {
        return 0;
    }
    let ghost a = *actor;
    let slot = w.slots[w.index];
    let mut wand = w;
    wand.shift();
    actor.wands[cw] = Some(wand);
    proof {
        assert(actor.wands =~= with_active_wand(a, w.shifted()).wands);
    }
    let ws = match slot {
        None => {
            return 0;
        },
        Some(ws) => ws,
    };
    let props = spell_to_props(ws.spell_type);
    proof {
        lemma_catalog_within_bounds(ws.spell_type);
    }
    if actor.mana < props.mana_drain {
        actor.effects = CastEffects::new();
        events.push(CastEvent::InsufficientMana);
        return props.cast_delay as i32;
    }
    actor.mana = actor.mana - props.mana_drain;
    match props.cast {
        SpellCast::Bullet { props: bullet } => {
            let shot = Shot {
                props: bullet,
                owner: actor.uuid,
                speed_buff: actor.effects.bullet_speed_buff_factor,
                homing: actor.effects.homing,
            };
            actor.effects = CastEffects::new();
            events.push(CastEvent::Fire(shot));
            props.cast_delay as i32
        },
        SpellCast::BulletSpeedUpDown { delta } => {
            actor.effects.add_speed_buff(delta);
            props.cast_delay as i32
        },
        SpellCast::HomingUpDown { delta } => {
            actor.effects.add_homing(delta);
            props.cast_delay as i32
        },
        SpellCast::Heal => {
            if ws.spell_type == SpellType::Heal && actor.life == actor.max_life {
                return 0;
            }
            actor.life = if actor.max_life - actor.life < HEAL_AMOUNT {
                actor.max_life
            } else {
                actor.life + HEAL_AMOUNT
            };
            events.push(CastEvent::HealApplied);
            props.cast_delay as i32
        },
        SpellCast::MultipleCast { amount } => {
            let ghost start = *actor;
            let ghost ev0 = events@;
            let mut delay: i32 = 0;
            let mut i: u32 = 0;
            while i < amount
                invariant
                    i <= amount,
                    start.mana < a.mana,
                    a.mana == old(actor).mana,
                    actor.wf(),
                    actor.mana <= start.mana,
                    *actor == multi_cast_outcome(start, i as nat).0,
                    delay as int == multi_cast_outcome(start, i as nat).1,
                    events@ == ev0 + multi_cast_outcome(start, i as nat).2,
                    0 <= delay <= MAX_CAST_DELAY,
                    shots_in_bounds(events@, old(events).len() as int),
                    ev0.len() == old(events).len(),
                decreases amount - i,
            {
                let ghost before = *actor;
                let ghost ev_before = events@;
                let d = cast_spell(actor, events);
                if d > delay {
                    delay = d;
                }
                i = i + 1;
                proof {
                    assert(ev0 + multi_cast_outcome(start, i as nat).2 =~= ev_before
                        + cast_outcome(before).2);
                }
            }
            delay
        },
    }
}

/// A cast of the heal spell by a caster already at full life costs no
/// delay and restores nothing, yet its mana is spent: the mana is paid
/// before the life check.
pub proof fn lemma_heal_at_full_life_spends_mana(a: Actor)
    requires
        a.wf(),
        a.spell_delay == 0,
        a.wands[a.current_wand as int] matches Some(w) && w.slots[w.index as int] matches Some(
            ws,
        ) && ws.spell_type == SpellType::Heal,
        a.life == a.max_life,
        a.mana >= spell_props(SpellType::Heal).mana_drain,
    ensures
        cast_outcome(a).1 == 0,
        cast_outcome(a).0.life == a.life,
        cast_outcome(a).0.mana == a.mana - spell_props(SpellType::Heal).mana_drain,
        cast_outcome(a).0.effects == a.effects,
        cast_outcome(a).2 == Seq::<CastEvent>::empty(),
{
}

} // verus!
