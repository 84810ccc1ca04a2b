use vstd::prelude::*;

use crate::cast::Shot;
use crate::constant::{BULLET_SPAWNING_MARGIN, SCALE, WITCH_COLLIDER_RADIUS};
use crate::effects::{MAX_SPEED_BUFF, MIN_SPEED_BUFF};
use crate::spell::{MAX_BULLET_SPEED, MAX_SCATTERING};

verus! {

/// Largest coordinate magnitude of a spawn origin, in thousandths.
pub const MAX_COORDINATE: i64 = 1_000_000_000_000;

/// Distance from a caster's centre at which its projectiles appear, in
/// whole units.
pub const SPAWN_RANGE: i64 = WITCH_COLLIDER_RADIUS + BULLET_SPAWNING_MARGIN;

/// A point or vector of the plane, in fixed point.
#[derive(Clone, Copy, Debug, PartialEq, Eq, Structural)]
pub struct Vec2i {
    pub x: i64,
    pub y: i64,
}

impl Vec2i {
    /// Each coordinate lies in `[-SCALE, SCALE]`, as those of a unit
    /// vector in thousandths do.
    pub open spec fn is_direction(self) -> bool {
        -SCALE <= self.x <= SCALE && -SCALE <= self.y <= SCALE
    }

    pub open spec fn is_coordinate(self) -> bool {
        -MAX_COORDINATE <= self.x <= MAX_COORDINATE && -MAX_COORDINATE <= self.y <= MAX_COORDINATE
    }

    /// Whether `is_direction` holds.
    pub fn fits_direction(&self) -> (r: bool)
        ensures
            r == self.is_direction(),
    {
        -SCALE <= self.x && self.x <= SCALE && -SCALE <= self.y && self.y <= SCALE
    }

    /// Whether `is_coordinate` holds.
    pub fn fits_coordinate(&self) -> (r: bool)
        ensures
            r == self.is_coordinate(),
    {
        -MAX_COORDINATE <= self.x && self.x <= MAX_COORDINATE && -MAX_COORDINATE <= self.y
            && self.y <= MAX_COORDINATE
    }
}

/// A fully determined projectile: the unit of replication.
///
/// `position` is in thousandths of a unit, `velocity` in millionths of a
/// unit per second; lengths, impulse and light parameters are thousandths.
#[derive(Clone, Debug)]
pub struct Firing {
    pub uuid: u128,
    pub position: Vec2i,
    pub velocity: Vec2i,
    pub bullet_lifetime: u32,
    /// The caster that fired it; `None` for a projectile of the environment.
    pub sender: Option<u128>,
    pub damage: i32,
    pub impulse: i64,
    pub slice: String,
    pub collier_radius: i64,
    pub light_intensity: i64,
    pub light_radius: i64,
    pub light_color_hlsa: [i64; 4],
    pub homing: i32,
}

impl Shot {
    /// The shot's speed and speed offset are within the catalog's and the
    /// accumulator's bounds.
    pub open spec fn wf(self) -> bool {
        &&& 0 <= self.props.speed <= MAX_BULLET_SPEED
        &&& MIN_SPEED_BUFF <= self.speed_buff <= MAX_SPEED_BUFF
        &&& 0 <= self.props.scattering <= MAX_SCATTERING
    }

    /// Whether `wf` holds.
    pub fn is_valid(&self) -> (r: bool)
        ensures
            r == self.wf(),
    {
        0 <= self.props.speed && self.props.speed <= MAX_BULLET_SPEED && MIN_SPEED_BUFF
            <= self.speed_buff && self.speed_buff <= MAX_SPEED_BUFF && 0 <= self.props.scattering
            && self.props.scattering <= MAX_SCATTERING
    }
}

/// The spawn position: `origin` moved along `aim` by `SPAWN_RANGE`.
pub open spec fn spawn_position(origin: Vec2i, aim: Vec2i) -> Vec2i {
    Vec2i { x: (origin.x + aim.x * SPAWN_RANGE) as i64, y: (origin.y + aim.y * SPAWN_RANGE) as i64 }
}

/// The velocity: `direction * speed * (1 + speed_buff)`, in millionths.
pub open spec fn launch_velocity(direction: Vec2i, speed: int, speed_buff: int) -> Vec2i {
    Vec2i {
        x: (direction.x * speed * (SCALE + speed_buff)) as i64,
        y: (direction.y * speed * (SCALE + speed_buff)) as i64,
    }
}

/// Every field of the descriptor that `build_firing` makes.
pub open spec fn firing_matches(
    f: Firing,
    shot: Shot,
    uuid: u128,
    origin: Vec2i,
    aim: Vec2i,
    direction: Vec2i,
) -> bool {
    &&& f.uuid == uuid
    &&& f.position == spawn_position(origin, aim)
    &&& f.velocity == launch_velocity(direction, shot.props.speed as int, shot.speed_buff as int)
    &&& f.bullet_lifetime == shot.props.lifetime
    &&& f.sender == Some(shot.owner)
    &&& f.damage == shot.props.damage
    &&& f.impulse == shot.props.impulse
    &&& f.slice@ == shot.props.slice@
    &&& f.collier_radius == shot.props.collier_radius
    &&& f.light_intensity == shot.props.light_intensity
    &&& f.light_radius == shot.props.light_radius
    &&& f.light_color_hlsa == shot.props.light_color_hlsa
    &&& f.homing == shot.homing
}

/// The angle offset for a uniform sample `sample / 2^32` of `[0, 1)`:
/// `(sample / 2^32 - 1/2) * scattering`, rounded down in its first term.
pub open spec fn scatter_offset(sample: u32, scattering: int) -> int {
    (sample as int * scattering) / 0x1_0000_0000 - scattering / 2
}

/// Builds the spawn descriptor of `shot`, fired from `origin` (thousandths)
/// with the unit aim `aim` and the already perturbed unit direction
/// `direction` (both thousandths).
pub fn build_firing(shot: &Shot, uuid: u128, origin: Vec2i, aim: Vec2i, direction: Vec2i) -> (r:
    Firing)
    requires
        shot.wf(),
        origin.is_coordinate(),
        aim.is_direction(),
        direction.is_direction(),
    ensures
        firing_matches(r, *shot, uuid, origin, aim, direction),
{
    let factor: i64 = SCALE + shot.speed_buff as i64;
    let speed: i64 = shot.props.speed;
    proof {
        assert(0 <= speed * factor <= MAX_BULLET_SPEED * (SCALE + MAX_SPEED_BUFF)) by (nonlinear_arith)
            requires
                0 <= speed <= MAX_BULLET_SPEED,
                0 <= factor <= SCALE + MAX_SPEED_BUFF,
        ;
        assert(-SCALE * (speed * factor) <= direction.x * (speed * factor) <= SCALE * (speed
            * factor)) by (nonlinear_arith)
            requires
                -SCALE <= direction.x <= SCALE,
                0 <= speed * factor,
        ;
        assert(-SCALE * (speed * factor) <= direction.y * (speed * factor) <= SCALE * (speed
            * factor)) by (nonlinear_arith)
            requires
                -SCALE <= direction.y <= SCALE,
                0 <= speed * factor,
        ;
        assert(direction.x * speed * factor == direction.x * (speed * factor)) by (nonlinear_arith);
        assert(direction.y * speed * factor == direction.y * (speed * factor)) by (nonlinear_arith);
    }
    let sf: i64 = speed * factor;
    Firing {
        uuid,
        position: Vec2i {
            x: origin.x + aim.x * SPAWN_RANGE,
            y: origin.y + aim.y * SPAWN_RANGE,
        },
        velocity: Vec2i { x: direction.x * sf, y: direction.y * sf },
        bullet_lifetime: shot.props.lifetime,
        sender: Some(shot.owner),
        damage: shot.props.damage,
        impulse: shot.props.impulse,
        slice: shot.props.slice.to_owned(),
        collier_radius: shot.props.collier_radius,
        light_intensity: shot.props.light_intensity,
        light_radius: shot.props.light_radius,
        light_color_hlsa: shot.props.light_color_hlsa,
        homing: shot.homing,
    }
}

/// The angle offset, in milliradians, that a uniform `sample` gives to a
/// spell with the given `scattering` (milliradians).
pub fn scatter_angle(sample: u32, scattering: i64) -> (r: i64)
    requires
        0 <= scattering <= MAX_SCATTERING,
    ensures
        r == scatter_offset(sample, scattering as int),
        -(scattering / 2) <= r <= scattering - scattering / 2,
{
    proof {
        assert(0 <= sample as int * scattering <= 0x1_0000_0000 * scattering) by (nonlinear_arith)
            requires
                0 <= sample < 0x1_0000_0000,
                0 <= scattering,
        ;
        assert((sample as int * scattering) / 0x1_0000_0000 <= scattering) by (nonlinear_arith)
            requires
                0 <= sample as int * scattering <= 0x1_0000_0000 * scattering,
        ;
        assert(0 <= (sample as int * scattering) / 0x1_0000_0000) by (nonlinear_arith)
            requires
                0 <= sample as int * scattering,
        ;
    }
    let scaled: u64 = (sample as u64 * scattering as u64) / 0x1_0000_0000u64;
    scaled as i64 - scattering / 2
}

/// Relies on `rand::random::<u32>`: a uniformly drawn `u32`; nothing is
/// known of its value.
#[verifier::external_body]
fn random_u32() -> (r: u32) {
    rand::random::<u32>()
}

/// Relies on `uuid::Uuid::new_v4` and `Uuid::as_u128`: a random version 4
/// identifier, as a big-endian `u128`, whose version nibble is 4.
#[verifier::external_body]
fn new_uuid() -> (r: u128)
    ensures
        (r >> 76u128) & 0xfu128 == 4,
{
    uuid::Uuid::new_v4().as_u128()
}

/// Draws the random angle offset, in milliradians, for `shot`; a shot
/// without scattering gets none.
pub fn draw_scatter(shot: &Shot) -> (r: i64)
    requires
        shot.wf(),
    ensures
        exists|sample: u32| r == scatter_offset(sample, shot.props.scattering as int),
        -(shot.props.scattering / 2) <= r <= shot.props.scattering - shot.props.scattering / 2,
        shot.props.scattering == 0 ==> r == 0,
{
    let sample = random_u32();
    scatter_angle(sample, shot.props.scattering)
}

/// Builds the spawn descriptor of `shot` under a freshly drawn identifier.
pub fn spawn_firing(shot: &Shot, origin: Vec2i, aim: Vec2i, direction: Vec2i) -> (r: Firing)
    requires
        shot.wf(),
        origin.is_coordinate(),
        aim.is_direction(),
        direction.is_direction(),
    ensures
        firing_matches(r, *shot, r.uuid, origin, aim, direction),
        (r.uuid >> 76u128) & 0xfu128 == 4,
{
    let uuid = new_uuid();
    build_firing(shot, uuid, origin, aim, direction)
}

} // verus!
