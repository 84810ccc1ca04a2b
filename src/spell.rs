use vstd::prelude::*;

verus! {

/// Identifier of a spell in the catalog.
#[derive(Clone, Copy, Debug, PartialEq, Eq, Structural, Hash, PartialOrd, Ord)]
pub enum SpellType {
    MagicBolt,
    PurpleBolt,
    WaterBall,
    Heal,
    BulletSpeedUp,
    BulletSpeedDown,
    DualCast,
    TripleCast,
    Homing,
    AntiHoming,
}

/// Parameters of a damaging projectile.
///
/// Lengths, impulses and light parameters are fixed-point thousandths, the
/// scattering is in milliradians and the speed in whole units per second.
#[derive(Clone, Copy, Debug)]
pub struct BulletProps {
    pub slice: &'static str,
    pub collier_radius: i64,
    pub speed: i64,
    pub lifetime: u32,
    pub damage: i32,
    pub impulse: i64,
    pub scattering: i64,
    pub light_intensity: i64,
    pub light_radius: i64,
    pub light_color_hlsa: [i64; 4],
}

/// What a spell does once its mana is paid.
#[derive(Clone, Copy, Debug)]
pub enum SpellCast {
    /// Fires one projectile.
    Bullet { props: BulletProps },
    /// Adds `delta` thousandths to the projectile speed factor.
    BulletSpeedUpDown { delta: i32 },
    /// Adds `delta` thousandths to the homing strength.
    HomingUpDown { delta: i32 },
    /// Restores a fixed amount of life.
    Heal,
    /// Resolves the next `amount` casts of the same wand at once.
    MultipleCast { amount: u32 },
}

/// Immutable properties of a spell.
#[derive(Clone, Copy, Debug)]
pub struct SpellProps {
    pub mana_drain: i32,
    pub cast_delay: u32,
    pub cast: SpellCast,
}

/// Largest cast delay of any spell, in ticks.
pub const MAX_CAST_DELAY: u32 = 600;

/// Largest mana cost of any spell.
pub const MAX_MANA_DRAIN: i32 = 1000;

/// Largest speed of any projectile spell, in whole units per second.
pub const MAX_BULLET_SPEED: i64 = 1000;

/// Largest scattering of a projectile spell, in milliradians.
pub const MAX_SCATTERING: i64 = 1_000_000;

/// Largest accumulator change of any modifier spell, in thousandths.
pub const MAX_MODIFIER_DELTA: i32 = 10000;

/// Largest repeat count of a composite spell.
pub const MAX_MULTIPLE_CAST: u32 = 8;

pub open spec fn magic_bolt() -> BulletProps {
    BulletProps {
        slice: "bullet_magic_bolt",
        collier_radius: 5000,
        speed: 100,
        lifetime: 240,
        damage: 8,
        impulse: 20000000,
        scattering: 300,
        light_intensity: 1000,
        light_radius: 50000,
        light_color_hlsa: [245000, 1000, 600, 1000],
    }
}

pub open spec fn purple_bolt() -> BulletProps {
    BulletProps {
        slice: "bullet_purple",
        collier_radius: 5000,
        speed: 50,
        lifetime: 500,
        damage: 20,
        impulse: 40000000,
        scattering: 600,
        light_intensity: 1000,
        light_radius: 50000,
        light_color_hlsa: [270000, 1000, 500, 1000],
    }
}

pub open spec fn water_ball() -> BulletProps {
    BulletProps {
        slice: "bullet_water_ball",
        collier_radius: 8000,
        speed: 80,
        lifetime: 120,
        damage: 12,
        impulse: 60000000,
        scattering: 0,
        light_intensity: 500,
        light_radius: 30000,
        light_color_hlsa: [200000, 1000, 600, 1000],
    }
}

/// The spell catalog.
pub open spec fn spell_props(spell: SpellType) -> SpellProps {
    match spell {
        SpellType::MagicBolt => SpellProps {
            mana_drain: 50,
            cast_delay: 10,
            cast: SpellCast::Bullet { props: magic_bolt() },
        },
        SpellType::PurpleBolt => SpellProps {
            mana_drain: 80,
            cast_delay: 25,
            cast: SpellCast::Bullet { props: purple_bolt() },
        },
        SpellType::WaterBall => SpellProps {
            mana_drain: 60,
            cast_delay: 15,
            cast: SpellCast::Bullet { props: water_ball() },
        },
        SpellType::Heal => SpellProps { mana_drain: 20, cast_delay: 120, cast: SpellCast::Heal },
        SpellType::BulletSpeedUp => SpellProps {
            mana_drain: 20,
            cast_delay: 1,
            cast: SpellCast::BulletSpeedUpDown { delta: 500 },
        },
        SpellType::BulletSpeedDown => SpellProps {
            mana_drain: 20,
            cast_delay: 1,
            cast: SpellCast::BulletSpeedUpDown { delta: -500i32 },
        },
        SpellType::DualCast => SpellProps {
            mana_drain: 1,
            cast_delay: 1,
            cast: SpellCast::MultipleCast { amount: 2 },
        },
        SpellType::TripleCast => SpellProps {
            mana_drain: 1,
            cast_delay: 1,
            cast: SpellCast::MultipleCast { amount: 3 },
        },
        SpellType::Homing => SpellProps {
            mana_drain: 20,
            cast_delay: 1,
            cast: SpellCast::HomingUpDown { delta: 10 },
        },
        SpellType::AntiHoming => SpellProps {
            mana_drain: 20,
            cast_delay: 1,
            cast: SpellCast::HomingUpDown { delta: -10i32 },
        },
    }
}

/// The bounds that every entry of a catalog keeps: costs and delays are
/// non-negative and bounded, and a composite spell always costs mana, so
/// that nested composites run out of mana instead of recursing forever.
pub open spec fn props_within_bounds(p: SpellProps) -> bool {
    &&& 0 <= p.mana_drain <= MAX_MANA_DRAIN
    &&& p.cast_delay <= MAX_CAST_DELAY
    &&& match p.cast {
        SpellCast::Bullet { props } => 0 <= props.speed <= MAX_BULLET_SPEED && 0
            <= props.scattering <= MAX_SCATTERING,
        SpellCast::BulletSpeedUpDown { delta } => -MAX_MODIFIER_DELTA <= delta
            <= MAX_MODIFIER_DELTA,
        SpellCast::HomingUpDown { delta } => -MAX_MODIFIER_DELTA <= delta <= MAX_MODIFIER_DELTA,
        SpellCast::Heal => true,
        SpellCast::MultipleCast { amount } => 1 <= p.mana_drain && amount <= MAX_MULTIPLE_CAST,
    }
}

/// Every catalog entry keeps the bounds.
pub proof fn lemma_catalog_within_bounds(spell: SpellType)
    ensures
        props_within_bounds(spell_props(spell)),
{
}

/// Looks a spell up in the catalog.
pub fn spell_to_props(spell: SpellType) -> (r: SpellProps)
    ensures
        r == spell_props(spell),
{
    match spell {
        SpellType::MagicBolt => SpellProps {
            mana_drain: 50,
            cast_delay: 10,
            cast: SpellCast::Bullet {
                props: BulletProps {
                    slice: "bullet_magic_bolt",
                    collier_radius: 5000,
                    speed: 100,
                    lifetime: 240,
                    damage: 8,
                    impulse: 20000000,
                    scattering: 300,
                    light_intensity: 1000,
                    light_radius: 50000,
                    light_color_hlsa: [245000, 1000, 600, 1000],
                },
            },
        },
        SpellType::PurpleBolt => SpellProps {
            mana_drain: 80,
            cast_delay: 25,
            cast: SpellCast::Bullet {
                props: BulletProps {
                    slice: "bullet_purple",
                    collier_radius: 5000,
                    speed: 50,
                    lifetime: 500,
                    damage: 20,
                    impulse: 40000000,
                    scattering: 600,
                    light_intensity: 1000,
                    light_radius: 50000,
                    light_color_hlsa: [270000, 1000, 500, 1000],
                },
            },
        },
        SpellType::WaterBall => SpellProps {
            mana_drain: 60,
            cast_delay: 15,
            cast: SpellCast::Bullet {
                props: BulletProps {
                    slice: "bullet_water_ball",
                    collier_radius: 8000,
                    speed: 80,
                    lifetime: 120,
                    damage: 12,
                    impulse: 60000000,
                    scattering: 0,
                    light_intensity: 500,
                    light_radius: 30000,
                    light_color_hlsa: [200000, 1000, 600, 1000],
                },
            },
        },
        SpellType::Heal => SpellProps { mana_drain: 20, cast_delay: 120, cast: SpellCast::Heal },
        SpellType::BulletSpeedUp => SpellProps {
            mana_drain: 20,
            cast_delay: 1,
            cast: SpellCast::BulletSpeedUpDown { delta: 500 },
        },
        SpellType::BulletSpeedDown => SpellProps {
            mana_drain: 20,
            cast_delay: 1,
            cast: SpellCast::BulletSpeedUpDown { delta: -500i32 },
        },
        SpellType::DualCast => SpellProps {
            mana_drain: 1,
            cast_delay: 1,
            cast: SpellCast::MultipleCast { amount: 2 },
        },
        SpellType::TripleCast => SpellProps {
            mana_drain: 1,
            cast_delay: 1,
            cast: SpellCast::MultipleCast { amount: 3 },
        },
        SpellType::Homing => SpellProps {
            mana_drain: 20,
            cast_delay: 1,
            cast: SpellCast::HomingUpDown { delta: 10 },
        },
        SpellType::AntiHoming => SpellProps {
            mana_drain: 20,
            cast_delay: 1,
            cast: SpellCast::HomingUpDown { delta: -10i32 },
        },
    }
}

} // verus!
