use vstd::prelude::*;
use crate::components::{Health, Lives};
use crate::constants::PLAYER_HEALTH;
use crate::seq_util::{flat_map, lemma_flat_map_prefix_step, lemma_full_prefix};

verus! {

/// Two entities that started touching.
#[derive(Clone, Copy, Debug, PartialEq, Eq, Structural)]
pub struct Contact {
    pub first: u64,
    pub second: u64,
}

/// Whether the contact is between `a` and `b`, in either order.
pub open spec fn touches(c: Contact, a: u64, b: u64) -> bool {
    (c.first == a && c.second == b) || (c.first == b && c.second == a)
}

/// A living being was hit and takes `damage`.
#[derive(Clone, Copy, Debug, PartialEq, Eq, Structural)]
pub struct LivingBeingHitEvent {
    pub entity: u64,
    pub damage: u32,
}

/// A living being loses a life.
#[derive(Clone, Copy, Debug, PartialEq, Eq, Structural)]
pub struct LivingBeingDeathEvent {
    pub entity: u64,
}

/// A being after a hit: the one hit loses the damage, down to zero.
pub open spec fn hit_being(b: (u64, Health), ev: LivingBeingHitEvent) -> (u64, Health) {
    if b.0 == ev.entity {
        (b.0, Health { health: b.1.health.saturating_sub(ev.damage) })
    } else {
        b
    }
}

/// All beings after one hit.
pub open spec fn after_hit(beings: Seq<(u64, Health)>, ev: LivingBeingHitEvent) -> Seq<(u64, Health)> {
    beings.map_values(|b: (u64, Health)| hit_being(b, ev))
}

/// The beings without health left, in order.
pub open spec fn out_of_health(beings: Seq<(u64, Health)>) -> Seq<u64> {
    flat_map(beings, |b: (u64, Health)| if b.1.health == 0 { seq![b.0] } else { Seq::empty() })
}

/// All beings after the hits of `events`, taken in order.
pub open spec fn after_hits(beings: Seq<(u64, Health)>, events: Seq<LivingBeingHitEvent>) -> Seq<(u64, Health)>
    decreases events.len(),
{
    if events.len() == 0 {
        beings
    } else {
        after_hit(after_hits(beings, events.drop_last()), events.last())
    }
}

/// The beings found without health after each hit, hit by hit.
pub open spec fn downed_by_hits(beings: Seq<(u64, Health)>, events: Seq<LivingBeingHitEvent>) -> Seq<u64>
    decreases events.len(),
{
    if events.len() == 0 {
        Seq::empty()
    } else {
        downed_by_hits(beings, events.drop_last()) + out_of_health(after_hits(beings, events))
    }
}

/// Applies one hit to the beings and returns, in order, those left without health.
fn apply_hit(beings: &mut Vec<(u64, Health)>, ev: LivingBeingHitEvent, downed: &mut Vec<u64>)
    ensures
        final(beings)@ == after_hit(old(beings)@, ev),
        final(downed)@ == old(downed)@ + out_of_health(after_hit(old(beings)@, ev)),
{
    let ghost before = beings@;
    let ghost downed_before = downed@;
    let mut j: usize = 0;
    while j < beings.len()
        invariant
            j <= beings.len(),
            beings@.len() == before.len(),
            forall|k: int| 0 <= k < j ==> beings@[k] == hit_being(before[k], ev),
            forall|k: int| j <= k < before.len() ==> beings@[k] == before[k],
            downed@ == downed_before + out_of_health(after_hit(before, ev).take(j as int)),
        decreases beings.len() - j,
    {
        let (entity, health) = beings[j];
        let mut h = health;
        if entity == ev.entity {
            h = Health { health: health.health.saturating_sub(ev.damage) };
            beings.set(j, (entity, h));
        }
        if h.health == 0 {
            downed.push(entity);
        }
        proof {
            lemma_flat_map_prefix_step(
                after_hit(before, ev),
                |b: (u64, Health)| if b.1.health == 0 { seq![b.0] } else { Seq::empty() },
                j as int,
            );
        }
        j += 1;
    }
    proof {
        assert(beings@ =~= after_hit(before, ev));
        lemma_full_prefix(after_hit(before, ev));
    }
}

/// Applies the hits of `events` in order to the beings with health; returns
/// the beings left without health after each hit (a being appears once for
/// each hit after which it has none left).
pub fn on_living_being_hit(events: &Vec<LivingBeingHitEvent>, beings: &mut Vec<(u64, Health)>) -> (downed: Vec<u64>)
    ensures
        final(beings)@ == after_hits(old(beings)@, events@),
        downed@ == downed_by_hits(old(beings)@, events@),
{
    let ghost start = beings@;
    let mut downed: Vec<u64> = Vec::new();
    let mut i: usize = 0;
    while i < events.len()
        invariant
            i <= events.len(),
            beings@ == after_hits(start, events@.take(i as int)),
            downed@ == downed_by_hits(start, events@.take(i as int)),
        decreases events.len() - i,
    {
        let ev = events[i];
        apply_hit(beings, ev, &mut downed);
        proof {
            assert(events@.take(i + 1).drop_last() =~= events@.take(i as int));
        }
        i += 1;
    }
    proof {
        lemma_full_prefix(events@);
    }
    downed
}

/// A being after a lost life: the one that died loses a life, down to zero,
/// and gets its health back.
pub open spec fn dead_being(b: (u64, Lives, Health), ev: LivingBeingDeathEvent) -> (u64, Lives, Health) {
    if b.0 == ev.entity {
        (b.0, Lives { lives_num: b.1.lives_num.saturating_sub(1) }, Health { health: PLAYER_HEALTH })
    } else {
        b
    }
}

/// All beings after one lost life.
pub open spec fn after_death(beings: Seq<(u64, Lives, Health)>, ev: LivingBeingDeathEvent) -> Seq<(u64, Lives, Health)> {
    beings.map_values(|b: (u64, Lives, Health)| dead_being(b, ev))
}

/// The beings without lives left, in order.
pub open spec fn out_of_lives(beings: Seq<(u64, Lives, Health)>) -> Seq<u64> {
    flat_map(beings, |b: (u64, Lives, Health)| if b.1.lives_num == 0 { seq![b.0] } else { Seq::empty() })
}

/// All beings after the lost lives of `events`, taken in order.
pub open spec fn after_deaths(beings: Seq<(u64, Lives, Health)>, events: Seq<LivingBeingDeathEvent>) -> Seq<(u64, Lives, Health)>
    decreases events.len(),
{
    if events.len() == 0 {
        beings
    } else {
        after_death(after_deaths(beings, events.drop_last()), events.last())
    }
}

/// The beings found without lives after each lost life, event by event.
pub open spec fn removed_by_deaths(beings: Seq<(u64, Lives, Health)>, events: Seq<LivingBeingDeathEvent>) -> Seq<u64>
    decreases events.len(),
{
    if events.len() == 0 {
        Seq::empty()
    } else {
        removed_by_deaths(beings, events.drop_last()) + out_of_lives(after_deaths(beings, events))
    }
}

/// Applies one lost life and records the beings left without lives.
fn apply_death(beings: &mut Vec<(u64, Lives, Health)>, ev: LivingBeingDeathEvent, removed: &mut Vec<u64>)
    ensures
        final(beings)@ == after_death(old(beings)@, ev),
        final(removed)@ == old(removed)@ + out_of_lives(after_death(old(beings)@, ev)),
{
    let ghost before = beings@;
    let ghost removed_before = removed@;
    let mut j: usize = 0;
    while j < beings.len()
        invariant
            j <= beings.len(),
            beings@.len() == before.len(),
            forall|k: int| 0 <= k < j ==> beings@[k] == dead_being(before[k], ev),
            forall|k: int| j <= k < before.len() ==> beings@[k] == before[k],
            removed@ == removed_before + out_of_lives(after_death(before, ev).take(j as int)),
        decreases beings.len() - j,
    {
        let (entity, lives, health) = beings[j];
        let mut l = lives;
        if entity == ev.entity {
            l = Lives { lives_num: lives.lives_num.saturating_sub(1) };
            beings.set(j, (entity, l, Health { health: PLAYER_HEALTH }));
        }
        if l.lives_num == 0 {
            removed.push(entity);
        }
        proof {
            lemma_flat_map_prefix_step(
                after_death(before, ev),
                |b: (u64, Lives, Health)| if b.1.lives_num == 0 { seq![b.0] } else { Seq::empty() },
                j as int,
            );
        }
        j += 1;
    }
    proof {
        assert(beings@ =~= after_death(before, ev));
        lemma_full_prefix(after_death(before, ev));
    }
}

/// Applies the lost lives of `events` in order: the being named loses a life
/// (down to zero) and gets its health back. Returns the beings left without
/// lives after each event, which are to be removed from the game.
pub fn on_living_being_dead(events: &Vec<LivingBeingDeathEvent>, beings: &mut Vec<(u64, Lives, Health)>) -> (removed: Vec<u64>)
    ensures
        final(beings)@ == after_deaths(old(beings)@, events@),
        removed@ == removed_by_deaths(old(beings)@, events@),
{
    let ghost start = beings@;
    let mut removed: Vec<u64> = Vec::new();
    let mut i: usize = 0;
    while i < events.len()
        invariant
            i <= events.len(),
            beings@ == after_deaths(start, events@.take(i as int)),
            removed@ == removed_by_deaths(start, events@.take(i as int)),
        decreases events.len() - i,
    {
        let ev = events[i];
        apply_death(beings, ev, &mut removed);
        proof {
            assert(events@.take(i + 1).drop_last() =~= events@.take(i as int));
        }
        i += 1;
    }
    proof {
        lemma_full_prefix(events@);
    }
    removed
}

/// Hits never heal and never change which beings there are: after any hits
/// every being keeps its place and id, and has at most the health it had.
pub proof fn lemma_hits_never_heal(beings: Seq<(u64, Health)>, events: Seq<LivingBeingHitEvent>)
    ensures
        after_hits(beings, events).len() == beings.len(),
        forall|i: int| 0 <= i < beings.len() ==> {
            &&& (#[trigger] after_hits(beings, events)[i]).0 == beings[i].0
            &&& after_hits(beings, events)[i].1.health <= beings[i].1.health
        },
    decreases events.len(),
{
    if events.len() > 0 {
        lemma_hits_never_heal(beings, events.drop_last());
        let prev = after_hits(beings, events.drop_last());
        assert forall|i: int| 0 <= i < beings.len() implies {
            &&& (#[trigger] after_hits(beings, events)[i]).0 == beings[i].0
            &&& after_hits(beings, events)[i].1.health <= beings[i].1.health
        } by {
            assert(after_hits(beings, events)[i] == hit_being(prev[i], events.last()));
        }
    }
}

/// A lost life costs the named being exactly one life (none once it has no
/// lives left) and restores its health; every other being is untouched.
pub proof fn lemma_death_costs_one_life(beings: Seq<(u64, Lives, Health)>, ev: LivingBeingDeathEvent, i: int)
    requires
        0 <= i < beings.len(),
    ensures
        after_death(beings, ev).len() == beings.len(),
        beings[i].0 == ev.entity ==> {
            &&& after_death(beings, ev)[i].1.lives_num == if beings[i].1.lives_num > 0 { beings[i].1.lives_num - 1 } else { 0 }
            &&& after_death(beings, ev)[i].2.health == PLAYER_HEALTH
        },
        beings[i].0 != ev.entity ==> after_death(beings, ev)[i] == beings[i],
{
}

} // verus!
