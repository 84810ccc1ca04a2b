use vstd::prelude::*;

use crate::firing::{Firing, Vec2i};

verus! {

/// A live projectile of the local simulation.
#[derive(Clone, Copy, Debug)]
pub struct Bullet {
    /// Identifier of the spawn descriptor it came from.
    pub id: u128,
    /// Ticks left before it disappears.
    pub life: u32,
    pub damage: i32,
    pub impulse: i64,
    /// The caster that fired it; contacts with that caster do nothing.
    pub owner: Option<u128>,
    pub position: Vec2i,
    pub velocity: Vec2i,
    pub collier_radius: i64,
    pub homing: i32,
}

/// The projectile that a spawn descriptor describes, field for field.
pub open spec fn bullet_of(f: Firing) -> Bullet {
    Bullet {
        id: f.uuid,
        life: f.bullet_lifetime,
        damage: f.damage,
        impulse: f.impulse,
        owner: f.sender,
        position: f.position,
        velocity: f.velocity,
        collier_radius: f.collier_radius,
        homing: f.homing,
    }
}

/// Instantiates the projectile of `firing` in the local simulation, with
/// the descriptor's fields taken verbatim.
pub fn spawn_bullet(bullets: &mut Vec<Bullet>, firing: &Firing)
    ensures
        final(bullets)@ == old(bullets)@.push(bullet_of(*firing)),
{
    bullets.push(
        Bullet {
            id: firing.uuid,
            life: firing.bullet_lifetime,
            damage: firing.damage,
            impulse: firing.impulse,
            owner: firing.sender,
            position: firing.position,
            velocity: firing.velocity,
            collier_radius: firing.collier_radius,
            homing: firing.homing,
        },
    );
}

/// The projectiles of `bs` that outlive one more tick, each one tick older.
pub open spec fn ticked(bs: Seq<Bullet>) -> Seq<Bullet>
    decreases bs.len(),
{
    if bs.len() == 0 {
        Seq::empty()
    } else {
        let rest = ticked(bs.drop_last());
        let b = bs.last();
        if b.life > 1 {
            rest.push(Bullet { life: (b.life - 1) as u32, ..b })
        } else {
            rest
        }
    }
}

/// Ages every projectile by one tick and removes those whose lifetime ran
/// out, keeping the order of the others.
pub fn tick_bullets(bullets: &Vec<Bullet>) -> (r: Vec<Bullet>)
    ensures
        r@ == ticked(bullets@),
{
    let mut r: Vec<Bullet> = Vec::new();
    let mut i: usize = 0;
    while i < bullets.len()
        invariant
            i <= bullets.len(),
            r@ == ticked(bullets@.subrange(0, i as int)),
        decreases bullets.len() - i,
    {
        let b = bullets[i];
        proof {
            assert(bullets@.subrange(0, i + 1).drop_last() =~= bullets@.subrange(0, i as int));
        }
        if b.life > 1 {
            r.push(Bullet { life: b.life - 1, ..b });
        }
        i = i + 1;
    }
    proof {
        assert(bullets@.subrange(0, bullets@.len() as int) =~= bullets@);
    }
    r
}

/// Whether a contact between `bullet` and the caster `target` hurts it:
/// a projectile never hurts the caster that fired it.
pub open spec fn hurts(bullet: Bullet, target: u128) -> bool {
    bullet.owner != Some(target)
}

/// Whether a contact between `bullet` and the caster `target` hurts it.
pub fn bullet_hurts(bullet: &Bullet, target: u128) -> (r: bool)
    ensures
        r == hurts(*bullet, target),
{
    match bullet.owner {
        None => true,
        Some(owner) => owner != target,
    }
}

/// The life of a caster with `life` after a contact with `bullet`: the
/// damage is taken unless the caster fired it, and life does not drop
/// below zero.
pub fn life_after_contact(bullet: &Bullet, target: u128, life: i32) -> (r: i32)
    ensures
        !hurts(*bullet, target) ==> r == life,
        hurts(*bullet, target) ==> r == if life - bullet.damage < 0 {
            0
        } else if life - bullet.damage > i32::MAX {
            i32::MAX as int
        } else {
            life - bullet.damage
        },
{
    if !bullet_hurts(bullet, target) {
        return life;
    }
    let left: i64 = life as i64 - bullet.damage as i64;
    if left < 0 {
        0
    } else if left > i32::MAX as i64 {
        i32::MAX
    } else {
        left as i32
    }
}

/// Removes the first projectile with identifier `id` and returns it; with
/// none, nothing changes. A projectile that touches several colliders in one
/// tick is therefore handled once: later contacts find it gone.
pub fn despawn_on_contact(bullets: &mut Vec<Bullet>, id: u128) -> (r: Option<Bullet>)
    ensures
        match r {
            Some(b) => exists|i: int|
                0 <= i < old(bullets).len() && old(bullets)@[i] == b && b.id == id
                    && final(bullets)@ == old(bullets)@.remove(i) && forall|j: int|
                    0 <= j < i ==> (#[trigger] old(bullets)@[j]).id != id,
            None => final(bullets)@ == old(bullets)@ && forall|j: int|
                0 <= j < old(bullets).len() ==> (#[trigger] old(bullets)@[j]).id != id,
        },
{
    let mut i: usize = 0;
    while i < bullets.len()
        invariant
            i <= bullets.len(),
            bullets@ == old(bullets)@,
            forall|j: int| 0 <= j < i ==> (#[trigger] old(bullets)@[j]).id != id,
        decreases bullets.len() - i,
    {
        if bullets[i].id == id {
            let b = bullets.remove(i);
            return Some(b);
        }
        i = i + 1;
    }
    None
}

} // verus!
