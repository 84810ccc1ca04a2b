use vstd::prelude::*;

use crate::constant::MAX_SPELLS_IN_WAND;
use crate::spell::SpellType;

verus! {

/// Kind of a wand; it decides how many of the slots are in use.
#[derive(Clone, Copy, Debug, PartialEq, Eq, Structural, PartialOrd, Ord)]
pub enum WandType {
    CypressWand,
    KeyWand,
}

/// A spell sitting in a wand slot, with the price it was bought at.
#[derive(Clone, Copy, Debug)]
pub struct WandSpell {
    pub spell_type: SpellType,
    pub price: u32,
}

/// Properties that a wand type fixes.
#[derive(Clone, Copy, Debug)]
pub struct WandProps {
    pub capacity: usize,
}

/// A wand: an ordered, fixed-size sequence of optional spells and a cursor
/// on the next slot to consider.
#[derive(Clone, Copy, Debug)]
pub struct Wand {
    pub wand_type: WandType,
    pub price: u32,
    pub slots: [Option<WandSpell>; MAX_SPELLS_IN_WAND],
    pub index: usize,
}

/// Number of slots in use for a wand type.
pub open spec fn wand_capacity(t: WandType) -> int {
    match t {
        WandType::CypressWand => 8,
        WandType::KeyWand => 4,
    }
}

/// Looks up the properties of a wand type.
pub fn wand_to_props(t: WandType) -> (r: WandProps)
    ensures
        r.capacity == wand_capacity(t),
        1 <= r.capacity <= MAX_SPELLS_IN_WAND,
{
    match t {
        WandType::CypressWand => WandProps { capacity: 8 },
        WandType::KeyWand => WandProps { capacity: 4 },
    }
}

/// The position `k` steps after `i` on a ring of `cap` slots.
pub open spec fn ring_step(i: int, k: int, cap: int) -> int {
    if i + k < cap {
        i + k
    } else {
        i + k - cap
    }
}

impl Wand {
    pub open spec fn capacity(self) -> int {
        wand_capacity(self.wand_type)
    }

    /// The cursor lies among the slots in use.
    pub open spec fn wf(self) -> bool {
        0 <= self.index < self.capacity()
    }

    /// Slot `i` is in use and holds a spell.
    pub open spec fn occupied(self, i: int) -> bool {
        0 <= i < self.capacity() && self.slots[i] is Some
    }

    pub open spec fn has_spell(self) -> bool {
        exists|i: int| #[trigger] self.occupied(i)
    }

    /// The first slot after the cursor to consider.
    pub open spec fn scan_start(self) -> int {
        ring_step(self.index as int, 1, self.capacity())
    }

    /// Scans at most `capacity - k` slots from `k` steps past the scan start
    /// and stops at the first occupied one; with none, ends at the start.
    pub open spec fn scan_from(self, k: int) -> int
        decreases self.capacity() - k,
    {
        if k >= self.capacity() || k < 0 {
            self.scan_start()
        } else if self.occupied(ring_step(self.scan_start(), k, self.capacity())) {
            ring_step(self.scan_start(), k, self.capacity())
        } else {
            self.scan_from(k + 1)
        }
    }

    /// The cursor after one shift.
    pub open spec fn shifted_index(self) -> int {
        self.scan_from(0)
    }

    /// The wand after one shift.
    pub open spec fn shifted(self) -> Wand {
        Wand { index: self.shifted_index() as usize, ..self }
    }

    /// The wand after `n` shifts.
    pub open spec fn shifted_n(self, n: nat) -> Wand
        decreases n,
    {
        if n == 0 {
            self
        } else {
            self.shifted().shifted_n((n - 1) as nat)
        }
    }

    /// Whether the cursor lies among the slots in use.
    pub fn is_valid(&self) -> (r: bool)
        ensures
            r == self.wf(),
    {
        self.index < wand_to_props(self.wand_type).capacity
    }

    /// Advances the cursor to the next occupied slot, with wraparound,
    /// scanning at most `capacity` slots past the next one; on a wand with
    /// no spell it stops one slot past where it was.
    pub fn shift(&mut self)
        requires
            old(self).wf(),
        ensures
            *final(self) == old(self).shifted(),
            final(self).wf(),
            old(self).has_spell() ==> exists|k: int|
                0 <= k < old(self).capacity() && final(self).index == ring_step(
                    old(self).scan_start(),
                    k,
                    old(self).capacity(),
                ) && old(self).occupied(final(self).index as int) && forall|m: int|
                    0 <= m < k ==> !old(self).occupied(
                        #[trigger] ring_step(old(self).scan_start(), m, old(self).capacity()),
                    ),
            !old(self).has_spell() ==> final(self).index == (old(self).index + 1) % old(
                self,
            ).capacity(),
    {
        let ghost w = *self;
        let props = wand_to_props(self.wand_type);
        let cap = props.capacity;
        self.index = if self.index + 1 < cap {
            self.index + 1
        } else {
            0
        };
        let mut k: usize = 0;
        while k < cap
            invariant
                w.wf(),
                cap == w.capacity(),
                1 <= cap <= MAX_SPELLS_IN_WAND,
                k <= cap,
                self.index == ring_step(w.scan_start(), k as int, cap as int),
                *self == (Wand { index: self.index, ..w }),
                w.scan_from(0) == w.scan_from(k as int),
                forall|m: int| 0 <= m < k ==> !w.occupied(#[trigger] ring_step(w.scan_start(), m, w.capacity())),
            ensures
                k == cap || w.occupied(self.index as int),
                k <= cap,
                self.index == ring_step(w.scan_start(), k as int, cap as int),
            decreases cap - k,
        {
            if self.slots[self.index].is_none() {
                self.index = if self.index + 1 < cap {
                    self.index + 1
                } else {
                    0
                };
                k = k + 1;
            } else {
                break;
            }
        }
        proof {
            if k < cap {
                assert(w.scan_from(k as int) == self.index);
            } else {
                assert(w.scan_from(k as int) == w.scan_start());
            }
            lemma_scan_characterization(w);
            lemma_scan_start_mod(w);
        }
    }
}

/// The scan starts one slot past the cursor, modulo the capacity.
pub proof fn lemma_scan_start_mod(w: Wand)
    requires
        w.wf(),
    ensures
        w.scan_start() == (w.index + 1) % w.capacity(),
{
    let cap = w.capacity();
    if w.index + 1 < cap {
        vstd::arithmetic::div_mod::lemma_small_mod((w.index + 1) as nat, cap as nat);
    } else {
        vstd::arithmetic::div_mod::lemma_mod_self_0(cap);
    }
}

/// What the scan returns, stated directly: the first occupied slot in ring
/// order from the scan start, or the scan start when no slot is occupied.
pub proof fn lemma_scan_characterization(w: Wand)
    requires
        w.wf(),
    ensures
        0 <= w.shifted_index() < w.capacity(),
        w.has_spell() ==> exists|k: int|
            0 <= k < w.capacity() && w.shifted_index() == ring_step(w.scan_start(), k, w.capacity())
                && w.occupied(w.shifted_index()) && forall|m: int|
                0 <= m < k ==> !w.occupied(#[trigger] ring_step(w.scan_start(), m, w.capacity())),
        !w.has_spell() ==> w.shifted_index() == w.scan_start(),
{
    lemma_scan_from(w, 0);
}

proof fn lemma_scan_from(w: Wand, k: int)
    requires
        w.wf(),
        0 <= k <= w.capacity(),
        forall|m: int| 0 <= m < k ==> !w.occupied(#[trigger] ring_step(w.scan_start(), m, w.capacity())),
    ensures
        0 <= w.scan_from(k) < w.capacity(),
        w.has_spell() ==> exists|j: int|
            k <= j < w.capacity() && w.scan_from(k) == ring_step(w.scan_start(), j, w.capacity())
                && w.occupied(w.scan_from(k)) && forall|m: int|
                0 <= m < j ==> !w.occupied(#[trigger] ring_step(w.scan_start(), m, w.capacity())),
        !w.has_spell() ==> w.scan_from(k) == w.scan_start(),
    decreases w.capacity() - k,
{
    let cap = w.capacity();
    let s = w.scan_start();
    if k >= cap {
        if w.has_spell() {
            let i = choose|i: int| #[trigger] w.occupied(i);
            let m = if i >= s { i - s } else { i - s + cap };
            assert(ring_step(s, m, cap) == i);
            assert(!w.occupied(ring_step(s, m, cap)));
        }
    } else if w.occupied(ring_step(s, k, cap)) {
    } else {
        lemma_scan_from(w, k + 1);
    }
}

/// One shift keeps the wand's type, price and slots and its cursor in range.
pub proof fn lemma_shift_keeps_wand(w: Wand)
    requires
        w.wf(),
    ensures
        w.shifted().wf(),
        w.shifted().slots == w.slots,
        w.shifted().wand_type == w.wand_type,
        w.shifted().price == w.price,
        w.has_spell() ==> w.occupied(w.shifted().index as int),
{
    lemma_scan_characterization(w);
}

/// On a wand that holds a spell, every shift, however many are repeated,
/// leaves the cursor on an occupied slot, and never changes the slots.
pub proof fn lemma_shift_never_lands_on_empty(w: Wand, n: nat)
    requires
        w.wf(),
        w.has_spell(),
        1 <= n,
    ensures
        w.shifted_n(n).wf(),
        w.shifted_n(n).slots == w.slots,
        w.shifted_n(n).wand_type == w.wand_type,
        w.occupied(w.shifted_n(n).index as int),
    decreases n,
{
    lemma_shift_keeps_wand(w);
    let v = w.shifted();
    assert(v.has_spell()) by {
        let i = choose|i: int| #[trigger] w.occupied(i);
        assert(v.occupied(i));
    }
    if n > 1 {
        lemma_shift_never_lands_on_empty(v, (n - 1) as nat);
        assert(v.occupied(v.shifted_n((n - 1) as nat).index as int));
    }
}

/// On a wand, repeated shifts reach every occupied slot within `capacity`
/// shifts.
pub proof fn lemma_shift_visits_every_spell(w: Wand, j: int)
    requires
        w.wf(),
        w.occupied(j),
    ensures
        exists|n: nat| 1 <= n <= w.capacity() && (#[trigger] w.shifted_n(n)).index == j,
{
    let cap = w.capacity();
    let s = w.scan_start();
    let d = if j >= s { j - s } else { j - s + cap };
    lemma_visit_within(w, j, d);
}

proof fn lemma_visit_within(w: Wand, j: int, d: int)
    requires
        w.wf(),
        w.occupied(j),
        0 <= d < w.capacity(),
        j == ring_step(w.scan_start(), d, w.capacity()),
    ensures
        exists|n: nat| 1 <= n <= d + 1 && (#[trigger] w.shifted_n(n)).index == j,
    decreases d,
{
    let cap = w.capacity();
    let s = w.scan_start();
    lemma_shift_keeps_wand(w);
    assert(w.has_spell());
    lemma_scan_characterization(w);
    let v = w.shifted();
    let k = choose|k: int|
        0 <= k < cap && w.shifted_index() == ring_step(s, k, cap) && w.occupied(w.shifted_index())
            && forall|m: int| 0 <= m < k ==> !w.occupied(#[trigger] ring_step(s, m, cap));
    if k > d {
        assert(!w.occupied(ring_step(s, d, cap)));
    }
    assert(w.shifted_n(1) == v.shifted_n(0));
    if k == d {
        assert(w.shifted_n(1).index == j);
    } else {
        let d2 = d - k - 1;
        assert(v.occupied(j));
        assert(j == ring_step(v.scan_start(), d2, cap));
        lemma_visit_within(v, j, d2);
        let n2 = choose|n: nat| 1 <= n <= d2 + 1 && (#[trigger] v.shifted_n(n)).index == j;
        assert(w.shifted_n(n2 + 1) == v.shifted_n(n2));
    }
}

} // verus!
