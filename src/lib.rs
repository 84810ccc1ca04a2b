//! The spell-casting core of a small multiplayer wizard game: wand slot
//! cycling, the spell catalog, the effect accumulator, the cast resolver,
//! projectile spawn descriptors and their replication between peers.

pub mod actor;
pub mod bullet;
pub mod cast;
pub mod constant;
pub mod effects;
pub mod firing;
pub mod gateway;
pub mod random;
pub mod spell;
pub mod wand;
