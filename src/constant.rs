use vstd::prelude::*;

verus! {

/// Number of spell slots that every wand value stores; a wand type uses the
/// first `capacity` of them.
pub const MAX_SPELLS_IN_WAND: usize = 8;

/// Number of wand holders of a caster.
pub const MAX_WANDS: usize = 4;

/// Collision radius of a caster, in whole units.
pub const WITCH_COLLIDER_RADIUS: i64 = 5;

/// Gap between a caster's collider and a freshly spawned projectile, in whole units.
pub const BULLET_SPAWNING_MARGIN: i64 = 4;

/// Fixed-point scale of the accumulator, positions and directions: a stored
/// value of `SCALE` stands for `1.0`.
pub const SCALE: i64 = 1000;

} // verus!
