use vstd::prelude::*;
use crate::resources::{SpawnQueue, SpawnType, is_spawnable};
use crate::rounds::{RoundTracker, advanced_round, round_remains};
use crate::seq_util::{flat_map, lemma_flat_map_prefix_step};

verus! {

/// The characters of `queued` the game can spawn, in order; the kinds it
/// cannot spawn yet are dropped.
pub open spec fn spawnable_only(queued: Seq<SpawnType>) -> Seq<SpawnType> {
    flat_map(queued, |t: SpawnType| if is_spawnable(t) { seq![t] } else { Seq::empty() })
}

/// Whether the round is over: nothing is waiting to spawn and no spawned
/// character is alive.
pub open spec fn round_over(queued: Seq<SpawnType>, number_of_spawns: usize) -> bool {
    queued.len() == 0 && number_of_spawns == 0
}

/// How many characters leave the queue when `number_of_spawns` are alive and
/// the round allows `max_spawns` at once: the room left, as far as the queue
/// reaches.
pub open spec fn taken_from_queue(queue_len: nat, max_spawns: u32, number_of_spawns: usize) -> nat {
    if max_spawns > number_of_spawns {
        let room = (max_spawns - number_of_spawns) as nat;
        if room < queue_len { room } else { queue_len }
    } else {
        0
    }
}

/// What a frame of spawn management decided.
pub struct SpawnPlan {
    /// The last round is over: the game ends.
    pub game_over: bool,
    /// A round began: its characters are to be queued.
    pub populate: bool,
    /// The characters to spawn now, in order.
    pub spawns: Vec<SpawnType>,
}

/// One frame of spawn management. When the round is over the game moves on to
/// the next round (the game is over when there is none) and asks for the queue
/// to be filled again. Then, while fewer characters are alive than the current
/// round allows, characters leave the front of the queue to be spawned;
/// the kinds the game cannot spawn are dropped.
pub fn plan_spawns(tracker: &mut RoundTracker, queue: &mut SpawnQueue, number_of_spawns: usize) -> (plan: SpawnPlan)
    requires
        old(tracker).current() is Some,
        old(tracker).current_is_valid(),
        round_over(old(queue).0@, number_of_spawns) ==> old(tracker).current() != Some(u32::MAX),
    ensures
        final(tracker).rounds() == old(tracker).rounds(),
        final(tracker).current() == if round_over(old(queue).0@, number_of_spawns) {
            advanced_round(old(tracker).current())
        } else {
            old(tracker).current()
        },
        plan.populate == round_over(old(queue).0@, number_of_spawns),
        plan.game_over == (round_over(old(queue).0@, number_of_spawns)
            && !round_remains(old(tracker).current(), old(tracker).rounds().len())),
        ({
            let max = old(tracker).rounds()[old(tracker).current()->0 as int].max_spawns;
            let taken = taken_from_queue(old(queue).0@.len(), max, number_of_spawns);
            &&& final(queue).0@ == old(queue).0@.skip(taken as int)
            &&& plan.spawns@ == spawnable_only(old(queue).0@.take(taken as int))
        }),
{
    let ghost start = queue.0@;
    let current_max_spawns = tracker.current_round_data().unwrap().max_spawns as usize;
    let mut game_over = false;
    let mut populate = false;
    if queue.0.len() == 0 && number_of_spawns == 0 {
        if !tracker.next_round() {
            game_over = true;
        }
        populate = true;
    }
    let mut spawns: Vec<SpawnType> = Vec::new();
    if current_max_spawns > number_of_spawns {
        let diff = current_max_spawns - number_of_spawns;
        let mut k: usize = 0;
        while k < diff
            invariant
                k <= diff,
                ({
                    let popped = if (k as nat) < start.len() { k as nat } else { start.len() };
                    &&& queue.0@ == start.skip(popped as int)
                    &&& spawns@ == spawnable_only(start.take(popped as int))
                }),
            decreases diff - k,
        {
            let ghost popped = if (k as nat) < start.len() { k as nat } else { start.len() };
            let next = queue.0.pop_front();
            match next {
                Some(SpawnType::Civilian) => spawns.push(SpawnType::Civilian),
                Some(SpawnType::Crab) => spawns.push(SpawnType::Crab),
                _ => {},
            }
            proof {
                if popped < start.len() {
                    lemma_flat_map_prefix_step(
                        start,
                        |t: SpawnType| if is_spawnable(t) { seq![t] } else { Seq::empty() },
                        popped as int,
                    );
                    assert(queue.0@ =~= start.skip((popped + 1) as int));
                    assert(spawns@ =~= spawnable_only(start.take((popped + 1) as int)));
                }
            }
            k += 1;
        }
    }
    SpawnPlan { game_over, populate, spawns }
}

/// No more characters are spawned than the queue gave up.
pub proof fn lemma_spawnable_only_len(queued: Seq<SpawnType>)
    ensures
        spawnable_only(queued).len() <= queued.len(),
    decreases queued.len(),
{
    if queued.len() > 0 {
        lemma_spawnable_only_len(queued.drop_last());
    }
}

/// A frame never spawns more characters than the room the round leaves
/// (`max_spawns` alive at once), and only civilians and crabs are spawned.
pub proof fn lemma_spawns_within_room(queued: Seq<SpawnType>, max_spawns: u32, number_of_spawns: usize)
    ensures
        ({
            let spawned = spawnable_only(queued.take(taken_from_queue(queued.len(), max_spawns, number_of_spawns) as int));
            &&& spawned.len() <= if max_spawns > number_of_spawns { max_spawns - number_of_spawns } else { 0 }
            &&& forall|i: int| 0 <= i < spawned.len() ==> is_spawnable(#[trigger] spawned[i])
        }),
{
    let taken = taken_from_queue(queued.len(), max_spawns, number_of_spawns);
    lemma_spawnable_only_len(queued.take(taken as int));
    lemma_spawnable_only_kinds(queued.take(taken as int));
}

/// Everything `spawnable_only` keeps can be spawned.
pub proof fn lemma_spawnable_only_kinds(queued: Seq<SpawnType>)
    ensures
        forall|i: int| 0 <= i < spawnable_only(queued).len() ==> is_spawnable(#[trigger] spawnable_only(queued)[i]),
    decreases queued.len(),
{
    if queued.len() > 0 {
        lemma_spawnable_only_kinds(queued.drop_last());
        let prev = spawnable_only(queued.drop_last());
        assert forall|i: int| 0 <= i < spawnable_only(queued).len() implies is_spawnable(#[trigger] spawnable_only(queued)[i]) by {
            if i < prev.len() {
                assert(spawnable_only(queued)[i] == prev[i]);
            }
        }
    }
}

/// While the round leaves room for another character, every frame takes at
/// least one character off a non-empty queue, so the queue runs dry.
pub proof fn lemma_queue_drains(queued: Seq<SpawnType>, max_spawns: u32, number_of_spawns: usize)
    requires
        queued.len() > 0,
        max_spawns > number_of_spawns,
    ensures
        taken_from_queue(queued.len(), max_spawns, number_of_spawns) >= 1,
        queued.skip(taken_from_queue(queued.len(), max_spawns, number_of_spawns) as int).len() < queued.len(),
{
}

} // verus!
