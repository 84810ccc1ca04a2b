use vstd::prelude::*;

use std::collections::HashSet;

use crate::bullet::{bullet_of, spawn_bullet, Bullet};
use crate::firing::Firing;

verus! {

broadcast use vstd::std_specs::hash::group_hash_axioms;

/// The replication side of a session: the identifiers of the descriptors
/// applied so far, and whether the session is networked.
pub struct ReplicationGateway {
    seen: HashSet<u128>,
    online: bool,
}

impl View for ReplicationGateway {
    type V = Set<u128>;

    closed spec fn view(&self) -> Set<u128> {
        self.seen@
    }
}

/// Number of projectiles of `bs` with identifier `id`.
pub open spec fn count_id(bs: Seq<Bullet>, id: u128) -> nat
    decreases bs.len(),
{
    if bs.len() == 0 {
        0
    } else {
        count_id(bs.drop_last(), id) + if bs.last().id == id {
            1nat
        } else {
            0nat
        }
    }
}

/// Every projectile of `bs` comes from a descriptor in `seen`.
pub open spec fn accounted(seen: Set<u128>, bs: Seq<Bullet>) -> bool {
    forall|i: int| 0 <= i < bs.len() ==> seen.contains(#[trigger] bs[i].id)
}

/// Applying an inbound descriptor: a new identifier is recorded and its
/// projectile spawned; a known one changes nothing.
pub open spec fn receive_model(seen: Set<u128>, bs: Seq<Bullet>, f: Firing) -> (Set<u128>, Seq<Bullet>) {
    if seen.contains(f.uuid) {
        (seen, bs)
    } else {
        (seen.insert(f.uuid), bs.push(bullet_of(f)))
    }
}

impl ReplicationGateway {
    /// Whether the session is networked.
    pub closed spec fn networked(&self) -> bool {
        self.online
    }

    /// Whether the session is networked.
    pub fn online(&self) -> (r: bool)
        ensures
            r == self.networked(),
    {
        self.online
    }

    /// A gateway that has seen nothing.
    pub fn new(online: bool) -> (r: ReplicationGateway)
        ensures
            r@ == Set::<u128>::empty(),
            r.networked() == online,
    {
        ReplicationGateway { seen: HashSet::new(), online }
    }

    /// Whether the descriptor with identifier `id` was applied already.
    pub fn has_seen(&self, id: u128) -> (r: bool)
        ensures
            r == self@.contains(id),
    {
        self.seen.contains(&id)
    }

    /// Applies a descriptor that a local caster produced: its projectile is
    /// spawned, its identifier recorded, and it is handed back for
    /// broadcasting exactly when the session is networked.
    pub fn fire(&mut self, bullets: &mut Vec<Bullet>, firing: Firing) -> (r: Option<Firing>)
        ensures
            final(self)@ == old(self)@.insert(firing.uuid),
            final(self).networked() == old(self).networked(),
            final(bullets)@ == old(bullets)@.push(bullet_of(firing)),
            r == if old(self).networked() {
                Some(firing)
            } else {
                None::<Firing>
            },
    {
        spawn_bullet(bullets, &firing);
        self.seen.insert(firing.uuid);
        if self.online {
            Some(firing)
        } else {
            None
        }
    }

    /// Applies a descriptor received from a peer: one whose identifier was
    /// already applied is dropped; any other is spawned verbatim and its
    /// identifier recorded. Returns whether it was spawned.
    pub fn receive(&mut self, bullets: &mut Vec<Bullet>, firing: &Firing) -> (r: bool)
        ensures
            r == !old(self)@.contains(firing.uuid),
            (final(self)@, final(bullets)@) == receive_model(old(self)@, old(bullets)@, *firing),
            final(self).networked() == old(self).networked(),
    {
        if self.seen.contains(&firing.uuid) {
            return false;
        }
        self.seen.insert(firing.uuid);
        spawn_bullet(bullets, firing);
        true
    }
}

/// The identifiers of a sequence with one more projectile.
proof fn lemma_count_push(bs: Seq<Bullet>, b: Bullet, id: u128)
    ensures
        count_id(bs.push(b), id) == count_id(bs, id) + if b.id == id {
            1nat
        } else {
            0nat
        },
{
    assert(bs.push(b).drop_last() =~= bs);
}

/// A sequence in which no projectile has identifier `id` counts none.
proof fn lemma_count_absent(bs: Seq<Bullet>, id: u128)
    requires
        forall|i: int| 0 <= i < bs.len() ==> (#[trigger] bs[i]).id != id,
    ensures
        count_id(bs, id) == 0,
    decreases bs.len(),
{
    if bs.len() > 0 {
        lemma_count_absent(bs.drop_last(), id);
    }
}

/// Receiving keeps every projectile accounted for.
pub proof fn lemma_receive_keeps_accounted(seen: Set<u128>, bs: Seq<Bullet>, f: Firing)
    requires
        accounted(seen, bs),
    ensures
        accounted(receive_model(seen, bs, f).0, receive_model(seen, bs, f).1),
{
}

/// Replaying a descriptor is a no-op: receiving the same descriptor twice
/// leaves the same state as receiving it once, and when its identifier was
/// new, exactly one projectile with that identifier exists afterwards.
pub proof fn lemma_replay_spawns_once(seen: Set<u128>, bs: Seq<Bullet>, f: Firing)
    requires
        accounted(seen, bs),
    ensures
        ({
            let once = receive_model(seen, bs, f);
            let twice = receive_model(once.0, once.1, f);
            &&& twice == once
            &&& !seen.contains(f.uuid) ==> count_id(twice.1, f.uuid) == 1
        }),
{
    if !seen.contains(f.uuid) {
        lemma_count_absent(bs, f.uuid);
        lemma_count_push(bs, bullet_of(f), f.uuid);
    }
}

} // verus!
