use vstd::prelude::*;

use crate::constant::MAX_WANDS;
use crate::effects::CastEffects;
use crate::wand::Wand;

verus! {

/// Life restored by one heal cast.
pub const HEAL_AMOUNT: i32 = 2;

/// Anything that can cast: a player's witch or an enemy.
#[derive(Clone, Copy, Debug)]
pub struct Actor {
    /// Identifier of the caster for the whole session; fired projectiles
    /// carry it as their owner.
    pub uuid: u128,
    pub life: i32,
    pub max_life: i32,
    pub mana: i32,
    pub max_mana: i32,
    pub wands: [Option<Wand>; MAX_WANDS],
    /// Which wand holder is active.
    pub current_wand: usize,
    /// Ticks until the next cast may begin.
    pub spell_delay: i32,
    pub effects: CastEffects,
}

impl Actor {
    /// Life, mana and delay are in range, the active holder exists, every
    /// wand's cursor is in range and the accumulator is clamped.
    pub open spec fn wf(self) -> bool {
        &&& 0 <= self.life <= self.max_life
        &&& 0 <= self.mana
        &&& 0 <= self.spell_delay
        &&& self.current_wand < MAX_WANDS
        &&& forall|i: int| 0 <= i < MAX_WANDS ==> (#[trigger] self.wands[i] matches Some(w) ==> w.wf())
        &&& self.effects.wf()
    }

    /// A caster with no wand, no delay and a cleared accumulator.
    pub fn new(uuid: u128, life: i32, max_life: i32, mana: i32, max_mana: i32) -> (r: Actor)
        requires
            0 <= life <= max_life,
            0 <= mana,
        ensures
            r.wf(),
            r.uuid == uuid,
            r.life == life,
            r.max_life == max_life,
            r.mana == mana,
            r.max_mana == max_mana,
            forall|i: int| 0 <= i < MAX_WANDS ==> #[trigger] r.wands[i] is None,
            r.current_wand == 0,
            r.spell_delay == 0,
            r.effects == CastEffects::cleared(),
    {
        Actor {
            uuid,
            life,
            max_life,
            mana,
            max_mana,
            wands: [None, None, None, None],
            current_wand: 0,
            spell_delay: 0,
            effects: CastEffects::new(),
        }
    }

    /// Whether the caster satisfies `wf`.
    pub fn is_valid(&self) -> (r: bool)
        ensures
            r == self.wf(),
    {
        if !(0 <= self.life && self.life <= self.max_life && 0 <= self.mana && 0
            <= self.spell_delay && self.current_wand < MAX_WANDS && self.effects.is_valid()) {
            return false;
        }
        let mut i: usize = 0;
        while i < MAX_WANDS
            invariant
                i <= MAX_WANDS,
                forall|j: int| 0 <= j < i ==> (#[trigger] self.wands[j] matches Some(w) ==> w.wf()),
            decreases MAX_WANDS - i,
        {
            if let Some(w) = &self.wands[i] {
                if !w.is_valid() {
                    return false;
                }
            }
            i = i + 1;
        }
        true
    }
}

} // verus!
