//! Contact resolver: contact-driven projectile despawn.
//!
//! Each tick drains the physics engine's contact events.  A projectile is
//! removed exactly when some event names its collider alongside the
//! collider of some live asteroid, in either order.  Asteroids persist
//! through contact in this design.  Removal is idempotent: despawning an
//! identifier that is already gone changes nothing.
use vstd::prelude::*;
use crate::entities::{Asteroid, Projectile};

verus! {

/// A contact event from the physics engine: the two collider identifiers
/// that touched this tick.
#[derive(Clone, Copy, PartialEq, Eq, Structural, Debug)]
pub struct ContactEvent {
    pub collider_a: u64,
    pub collider_b: u64,
}

/// The event pairs collider `p` with collider `a`, in either order.
pub open spec fn event_pairs(ev: ContactEvent, p: u64, a: u64) -> bool {
    ||| (ev.collider_a == p && ev.collider_b == a)
    ||| (ev.collider_a == a && ev.collider_b == p)
}

/// Some event pairs projectile collider `p` with some live asteroid.
pub open spec fn projectile_hit(p: u64, events: Seq<ContactEvent>, asteroids: Seq<Asteroid>) -> bool {
    exists|i: int, j: int|
        0 <= i < events.len() && 0 <= j < asteroids.len()
        && event_pairs(events[i], p, asteroids[j].id)
}

/// Some projectile in the list carries the given collider identifier.
pub open spec fn contains_projectile_id(s: Seq<Projectile>, id: u64) -> bool {
    exists|i: int| 0 <= i < s.len() && s[i].id == id
}

/// The projectiles that survive this tick's contacts.
pub open spec fn surviving(
    projectiles: Seq<Projectile>,
    events: Seq<ContactEvent>,
    asteroids: Seq<Asteroid>,
) -> Seq<Projectile> {
    projectiles.filter(|p: Projectile| !projectile_hit(p.id, events, asteroids))
}

/// Whether some event pairs `p` with some asteroid in the lists.
fn projectile_is_hit(p: u64, events: &Vec<ContactEvent>, asteroids: &Vec<Asteroid>) -> (b: bool)
    ensures
        b == projectile_hit(p, events@, asteroids@),
{
    let mut i: usize = 0;
    while i < events.len()
        invariant
            i <= events@.len(),
            forall|ii: int, j: int|
                0 <= ii < i && 0 <= j < asteroids@.len()
                ==> !event_pairs(events@[ii], p, asteroids@[j].id),
        decreases events@.len() - i,
    {
        let ev = events[i];
        let mut j: usize = 0;
        while j < asteroids.len()
            invariant
                i < events@.len(),
                j <= asteroids@.len(),
                ev == events@[i as int],
                forall|jj: int| 0 <= jj < j ==> !event_pairs(ev, p, asteroids@[jj].id),
            decreases asteroids@.len() - j,
        {
            let aid = asteroids[j].id;
            if (ev.collider_a == p && ev.collider_b == aid)
                || (ev.collider_a == aid && ev.collider_b == p) {
                proof {
                    assert(event_pairs(events@[i as int], p, asteroids@[j as int].id));
                }
                return true;
            }
            j = j + 1;
        }
        i = i + 1;
    }
    false
}

/// Drain this tick's contact events: keep exactly the projectiles that no
/// event pairs with a live asteroid.  The asteroid list is read, never
/// written, so no contact removes an asteroid.
pub fn resolve_contacts(
    events: &Vec<ContactEvent>,
    asteroids: &Vec<Asteroid>,
    projectiles: &mut Vec<Projectile>,
)
    ensures
        final(projectiles)@ == surviving(old(projectiles)@, events@, asteroids@),
{
    let ghost all = projectiles@;
    let ghost pred = |p: Projectile| !projectile_hit(p.id, events@, asteroids@);
    let mut kept: Vec<Projectile> = Vec::new();
    let mut i: usize = 0;
    proof {
        assert(all.take(0) =~= Seq::<Projectile>::empty());
        assert(all.take(0).filter(pred) =~= Seq::<Projectile>::empty()) by {
            reveal(Seq::filter);
        }
    }
    while i < projectiles.len()
        invariant
            i <= projectiles@.len(),
            projectiles@ == all,
            pred == (|p: Projectile| !projectile_hit(p.id, events@, asteroids@)),
            kept@ == all.take(i as int).filter(pred),
        decreases projectiles@.len() - i,
    {
        let p = projectiles[i];
        let hit = projectile_is_hit(p.id, events, asteroids);
        if !hit {
            kept.push(p);
        }
        proof {
            assert(all.take(i + 1).drop_last() =~= all.take(i as int));
            assert(all.take(i + 1).last() == all[i as int]);
            reveal(Seq::filter);
        }
        i = i + 1;
    }
    proof {
        assert(all.take(all.len() as int) =~= all);
    }
    *projectiles = kept;
}

/// Remove every projectile with the given collider identifier.  Removing
/// an identifier that is not present leaves the list unchanged, so a
/// second despawn of the same entity is a no-op.
pub fn despawn_projectile(projectiles: &mut Vec<Projectile>, id: u64)
    ensures
        final(projectiles)@ == old(projectiles)@.filter(|p: Projectile| p.id != id),
        !contains_projectile_id(old(projectiles)@, id) ==> final(projectiles)@ == old(projectiles)@,
{
    let ghost all = projectiles@;
    let ghost pred = |p: Projectile| p.id != id;
    let mut kept: Vec<Projectile> = Vec::new();
    let mut i: usize = 0;
    proof {
        assert(all.take(0) =~= Seq::<Projectile>::empty());
        assert(all.take(0).filter(pred) =~= Seq::<Projectile>::empty()) by {
            reveal(Seq::filter);
        }
    }
    while i < projectiles.len()
        invariant
            i <= projectiles@.len(),
            projectiles@ == all,
            pred == (|p: Projectile| p.id != id),
            kept@ == all.take(i as int).filter(pred),
        decreases projectiles@.len() - i,
    {
        let p = projectiles[i];
        if p.id != id {
            kept.push(p);
        }
        proof {
            assert(all.take(i + 1).drop_last() =~= all.take(i as int));
            assert(all.take(i + 1).last() == all[i as int]);
            reveal(Seq::filter);
        }
        i = i + 1;
    }
    proof {
        assert(all.take(all.len() as int) =~= all);
        if !contains_projectile_id(all, id) {
            lemma_filter_all_kept(all, pred);
        }
    }
    *projectiles = kept;
}

/// Filtering with a predicate every element satisfies keeps the sequence
/// as it is: the despawn of an absent identifier is a no-op.
pub proof fn lemma_filter_all_kept(s: Seq<Projectile>, pred: spec_fn(Projectile) -> bool)
    requires
        forall|i: int| 0 <= i < s.len() ==> pred(#[trigger] s[i]),
    ensures
        s.filter(pred) == s,
    decreases s.len(),
{
    reveal(Seq::filter);
    if s.len() > 0 {
        lemma_filter_all_kept(s.drop_last(), pred);
        assert(s.drop_last().push(s.last()) =~= s);
    }
}

} // verus!
