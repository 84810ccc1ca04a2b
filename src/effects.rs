use vstd::prelude::*;

verus! {

/// Lower bound of the projectile speed factor offset, in thousandths.
pub const MIN_SPEED_BUFF: i32 = -900;

/// Upper bound of the projectile speed factor offset, in thousandths.
pub const MAX_SPEED_BUFF: i32 = 3000;

/// Bound of the homing strength on either side of zero, in thousandths.
pub const MAX_HOMING: i32 = 100;

/// `x` brought into `[lo, hi]`.
pub open spec fn clamp(x: int, lo: int, hi: int) -> int {
    if x < lo {
        lo
    } else if x > hi {
        hi
    } else {
        x
    }
}

/// Transient modifiers of a caster, carried across casts until a damaging
/// cast consumes them. Both are fixed-point thousandths.
#[derive(Clone, Copy, Debug, PartialEq, Eq, Structural)]
pub struct CastEffects {
    /// Offset of the projectile speed factor: a projectile flies at
    /// `1 + bullet_speed_buff_factor / 1000` times its base speed.
    pub bullet_speed_buff_factor: i32,
    /// Homing strength handed to the next projectile.
    pub homing: i32,
}

impl CastEffects {
    /// Both modifiers lie in their ranges.
    pub open spec fn wf(self) -> bool {
        &&& MIN_SPEED_BUFF <= self.bullet_speed_buff_factor <= MAX_SPEED_BUFF
        &&& -MAX_HOMING <= self.homing <= MAX_HOMING
    }

    pub open spec fn cleared() -> CastEffects {
        CastEffects { bullet_speed_buff_factor: 0, homing: 0 }
    }

    pub open spec fn with_speed_delta(self, delta: int) -> CastEffects {
        CastEffects {
            bullet_speed_buff_factor: clamp(
                self.bullet_speed_buff_factor + delta,
                MIN_SPEED_BUFF as int,
                MAX_SPEED_BUFF as int,
            ) as i32,
            ..self
        }
    }

    pub open spec fn with_homing_delta(self, delta: int) -> CastEffects {
        CastEffects {
            homing: clamp(self.homing + delta, -MAX_HOMING as int, MAX_HOMING as int) as i32,
            ..self
        }
    }

    /// Whether both modifiers lie in their ranges.
    pub fn is_valid(&self) -> (r: bool)
        ensures
            r == self.wf(),
    {
        MIN_SPEED_BUFF <= self.bullet_speed_buff_factor && self.bullet_speed_buff_factor
            <= MAX_SPEED_BUFF && -MAX_HOMING <= self.homing && self.homing <= MAX_HOMING
    }

    /// The accumulator with no modifier.
    pub fn new() -> (r: CastEffects)
        ensures
            r == CastEffects::cleared(),
            r.wf(),
    {
        CastEffects { bullet_speed_buff_factor: 0, homing: 0 }
    }

    /// Resets both modifiers to zero.
    pub fn clear(&mut self)
        ensures
            *final(self) == CastEffects::cleared(),
            final(self).wf(),
    {
        self.bullet_speed_buff_factor = 0;
        self.homing = 0;
    }

    /// Adds `delta` to the speed factor offset and clamps it into
    /// `[MIN_SPEED_BUFF, MAX_SPEED_BUFF]`; the homing strength is kept.
    pub fn add_speed_buff(&mut self, delta: i32)
        ensures
            *final(self) == old(self).with_speed_delta(delta as int),
            MIN_SPEED_BUFF <= final(self).bullet_speed_buff_factor <= MAX_SPEED_BUFF,
            old(self).wf() ==> final(self).wf(),
    {
        let sum: i64 = self.bullet_speed_buff_factor as i64 + delta as i64;
        self.bullet_speed_buff_factor = if sum < MIN_SPEED_BUFF as i64 {
            MIN_SPEED_BUFF
        } else if sum > MAX_SPEED_BUFF as i64 {
            MAX_SPEED_BUFF
        } else {
            sum as i32
        };
    }

    /// Adds `delta` to the homing strength and clamps it into
    /// `[-MAX_HOMING, MAX_HOMING]`; the speed factor offset is kept.
    pub fn add_homing(&mut self, delta: i32)
        ensures
            *final(self) == old(self).with_homing_delta(delta as int),
            -MAX_HOMING <= final(self).homing <= MAX_HOMING,
            old(self).wf() ==> final(self).wf(),
    {
        let sum: i64 = self.homing as i64 + delta as i64;
        self.homing = if sum < -MAX_HOMING as i64 {
            -MAX_HOMING
        } else if sum > MAX_HOMING as i64 {
            MAX_HOMING
        } else {
            sum as i32
        };
    }
}

/// The accumulator after applying the speed deltas of `deltas` in order.
pub open spec fn after_speed_deltas(e: CastEffects, deltas: Seq<int>) -> CastEffects
    decreases deltas.len(),
{
    if deltas.len() == 0 {
        e
    } else {
        after_speed_deltas(e, deltas.drop_last()).with_speed_delta(deltas.last())
    }
}

/// The accumulator after applying the homing deltas of `deltas` in order.
pub open spec fn after_homing_deltas(e: CastEffects, deltas: Seq<int>) -> CastEffects
    decreases deltas.len(),
{
    if deltas.len() == 0 {
        e
    } else {
        after_homing_deltas(e, deltas.drop_last()).with_homing_delta(deltas.last())
    }
}

/// However many modifier deltas are applied in a row, and however large,
/// both accumulator fields stay in their clamp ranges.
pub proof fn lemma_modifiers_stay_clamped(e: CastEffects, speed: Seq<int>, homing: Seq<int>)
    requires
        e.wf(),
    ensures
        after_speed_deltas(e, speed).wf(),
        after_homing_deltas(e, homing).wf(),
        after_homing_deltas(after_speed_deltas(e, speed), homing).wf(),
    decreases speed.len() + homing.len(),
{
    if speed.len() > 0 {
        lemma_modifiers_stay_clamped(e, speed.drop_last(), homing);
        lemma_modifiers_stay_clamped(e, speed.drop_last(), Seq::empty());
    }
    if homing.len() > 0 {
        lemma_modifiers_stay_clamped(e, speed, homing.drop_last());
    }
}

/// Speed deltas that push past a bound leave the offset exactly at it: once
/// the sum reaches the upper bound, further non-negative deltas keep it there.
pub proof fn lemma_speed_saturates(e: CastEffects, deltas: Seq<int>)
    requires
        e.wf(),
        deltas.len() > 0,
        deltas[0] + e.bullet_speed_buff_factor >= MAX_SPEED_BUFF,
        forall|i: int| 0 <= i < deltas.len() ==> deltas[i] >= 0,
    ensures
        after_speed_deltas(e, deltas).bullet_speed_buff_factor == MAX_SPEED_BUFF,
    decreases deltas.len(),
{
    let rest = deltas.drop_last();
    if deltas.len() > 1 {
        assert(rest[0] == deltas[0]);
        assert(forall|i: int| 0 <= i < rest.len() ==> rest[i] == deltas[i]);
        lemma_speed_saturates(e, rest);
    } else {
        assert(after_speed_deltas(e, rest) == e);
    }
}

} // verus!
