use vstd::prelude::*;
use crate::resources::{SpawnQueue, SpawnType};
use crate::seq_util::{flat_map, lemma_flat_map_prefix_step, lemma_full_prefix};

verus! {

/// What one round spawns: at most `max_spawns` characters alive at once,
/// and how many of each kind the round holds.
#[derive(Clone, Copy, Debug, PartialEq, Eq, Structural)]
pub struct RoundSpawns {
    pub max_spawns: u32,
    pub number_of_civilians: u32,
    pub number_of_crabs: u32,
    pub number_of_bots: u32,
    pub number_of_tanks: u32,
    pub number_of_exploders: u32,
}

/// The rounds among the rows of a round file that could be read, in order.
pub open spec fn readable_rounds(rows: Seq<Option<RoundSpawns>>) -> Seq<RoundSpawns> {
    flat_map(rows, |row: Option<RoundSpawns>| match row {
        Some(r) => seq![r],
        None => Seq::empty(),
    })
}

/// Keeps the rows of a round file that could be read, dropping the others.
pub fn keep_readable_rounds(rows: Vec<Option<RoundSpawns>>) -> (r: Vec<RoundSpawns>)
    ensures
        r@ == readable_rounds(rows@),
{
    let mut out: Vec<RoundSpawns> = Vec::new();
    let mut i: usize = 0;
    while i < rows.len()
        invariant
            i <= rows.len(),
            out@ == readable_rounds(rows@.take(i as int)),
        decreases rows.len() - i,
    {
        if let Some(round) = rows[i] {
            out.push(round);
        }
        proof {
            lemma_flat_map_prefix_step(
                rows@,
                |row: Option<RoundSpawns>| match row {
                    Some(r) => seq![r],
                    None => Seq::empty(),
                },
                i as int,
            );
            assert(out@ =~= readable_rounds(rows@.take(i + 1)));
        }
        i += 1;
    }
    proof {
        lemma_full_prefix(rows@);
    }
    out
}

/// The round after `current`: one on, or still none when no round is set.
pub open spec fn advanced_round(current: Option<u32>) -> Option<u32> {
    match current {
        Some(c) => Some((c + 1) as u32),
        None => None,
    }
}

/// Whether advancing from `current` leaves a round to play out of
/// `number_of_rounds`; with no round set there is always one.
pub open spec fn round_remains(current: Option<u32>, number_of_rounds: nat) -> bool {
    match current {
        Some(c) => c + 1 < number_of_rounds,
        None => true,
    }
}

/// Which round is being played out of the rounds of the game.
pub struct RoundTracker {
    pub current_round: Option<u32>,
    round_data: Vec<RoundSpawns>,
}

impl RoundTracker {
    /// The rounds of the game, in order.
    pub closed spec fn rounds(&self) -> Seq<RoundSpawns> {
        self.round_data@
    }

    /// The round being played, if any (the field `current_round`).
    pub closed spec fn current(&self) -> Option<u32> {
        self.current_round
    }

    /// The current round, if set, is one of the rounds.
    pub open spec fn current_is_valid(&self) -> bool {
        match self.current() {
            Some(c) => c < self.rounds().len(),
            None => true,
        }
    }

    /// Starts a game with `round_data` as its rounds, at the first round.
    pub fn start(round_data: Vec<RoundSpawns>) -> (r: RoundTracker)
        ensures
            r.current() == Some(0u32),
            r.rounds() == round_data@,
    {
        RoundTracker { current_round: Some(0), round_data }
    }

    /// Moves on to the next round; returns whether there is such a round to play.
    pub fn next_round(&mut self) -> (r: bool)
        requires
            old(self).current() != Some(u32::MAX),
        ensures
            final(self).rounds() == old(self).rounds(),
            final(self).current() == advanced_round(old(self).current()),
            r == round_remains(old(self).current(), old(self).rounds().len()),
    {
        if let Some(current_round) = self.current_round {
            let next = current_round + 1;
            self.current_round = Some(next);
            if next as usize >= self.number_of_rounds() {
                return false;
            }
        }
        true
    }

    /// How many rounds the game has.
    pub fn number_of_rounds(&self) -> (r: usize)
        ensures
            r == self.rounds().len(),
    {
        self.round_data.len()
    }

    /// What the current round spawns, if a round is set.
    pub fn current_round_data(&self) -> (r: Option<RoundSpawns>)
        requires
            self.current_is_valid(),
        ensures
            r == match self.current() {
                Some(c) => Some(self.rounds()[c as int]),
                None => None,
            },
    {
        if let Some(current) = self.current_round {
            Some(self.round_data[current as usize])
        } else {
            None
        }
    }
}

/// The queue a round fills: its civilians, then its crabs.
pub open spec fn round_queue(round: RoundSpawns) -> Seq<SpawnType> {
    Seq::new(round.number_of_civilians as nat, |i: int| SpawnType::Civilian)
        + Seq::new(round.number_of_crabs as nat, |i: int| SpawnType::Crab)
}

/// Fills an empty spawn queue with the current round's civilians and then its
/// crabs; a queue that still holds characters is left as it is.
pub fn populate_spawn_queue(queue: &mut SpawnQueue, tracker: &RoundTracker)
    requires
        old(queue).0@.len() == 0 ==> tracker.current() is Some && tracker.current_is_valid(),
    ensures
        final(queue).0@ == if old(queue).0@.len() == 0 {
            round_queue(tracker.rounds()[tracker.current()->0 as int])
        } else {
            old(queue).0@
        },
{
    if queue.0.len() == 0 {
        let round_data = tracker.current_round_data().unwrap();
        let mut i: u32 = 0;
        while i < round_data.number_of_civilians
            invariant
                i <= round_data.number_of_civilians,
                queue.0@ == Seq::new(i as nat, |k: int| SpawnType::Civilian),
            decreases round_data.number_of_civilians - i,
        {
            queue.0.push_back(SpawnType::Civilian);
            i += 1;
            proof {
                assert(queue.0@ =~= Seq::new(i as nat, |k: int| SpawnType::Civilian));
            }
        }
        let mut j: u32 = 0;
        while j < round_data.number_of_crabs
            invariant
                j <= round_data.number_of_crabs,
                queue.0@ == Seq::new(round_data.number_of_civilians as nat, |k: int| SpawnType::Civilian)
                    + Seq::new(j as nat, |k: int| SpawnType::Crab),
            decreases round_data.number_of_crabs - j,
        {
            queue.0.push_back(SpawnType::Crab);
            j += 1;
            proof {
                assert(queue.0@ =~= Seq::new(round_data.number_of_civilians as nat, |k: int| SpawnType::Civilian)
                    + Seq::new(j as nat, |k: int| SpawnType::Crab));
            }
        }
        proof {
            assert(queue.0@ =~= round_queue(round_data));
        }
    }
}

/// The round reached from `current` after `k` advances.
pub open spec fn advanced_times(current: Option<u32>, k: nat) -> Option<u32>
    decreases k,
{
    if k == 0 {
        current
    } else {
        advanced_round(advanced_times(current, (k - 1) as nat))
    }
}

/// Rounds are played in order from the first: after `k` advances from the
/// start the game is at round `k`, and the `k`-th advance finds a round left
/// to play exactly when `k` is less than the number of rounds.
pub proof fn lemma_rounds_played_in_order(number_of_rounds: nat, k: nat)
    requires
        1 <= k <= u32::MAX,
    ensures
        advanced_times(Some(0u32), k) == Some(k as u32),
        round_remains(advanced_times(Some(0u32), (k - 1) as nat), number_of_rounds) <==> k < number_of_rounds,
    decreases k,
{
    if k > 1 {
        lemma_rounds_played_in_order(number_of_rounds, (k - 1) as nat);
    }
}

/// A round file without rows has no rounds.
pub proof fn lemma_no_rows_no_rounds()
    ensures
        readable_rounds(Seq::<Option<RoundSpawns>>::empty()) == Seq::<RoundSpawns>::empty(),
{
}

/// Every readable row is kept, in file order: a readable row added at the end
/// of the file adds its round at the end of the rounds, and an unreadable one
/// adds nothing.
pub proof fn lemma_readable_rows_kept_in_order(rows: Seq<Option<RoundSpawns>>, row: Option<RoundSpawns>)
    ensures
        row matches Some(r) ==> readable_rounds(rows.push(row)) == readable_rounds(rows).push(r),
        row is None ==> readable_rounds(rows.push(row)) == readable_rounds(rows),
{
    assert(rows.push(row).drop_last() =~= rows);
    assert(rows.push(row).last() == row);
    if let Some(r) = row {
        assert(readable_rounds(rows.push(row)) =~= readable_rounds(rows).push(r));
    } else {
        assert(readable_rounds(rows.push(row)) =~= readable_rounds(rows));
    }
}

/// As many rounds as readable rows: the rounds of a file with `n` readable
/// rows number `n`.
pub proof fn lemma_round_count(rows: Seq<Option<RoundSpawns>>)
    ensures
        readable_rounds(rows).len() == rows.filter(|row: Option<RoundSpawns>| row is Some).len(),
    decreases rows.len(),
{
    reveal_with_fuel(Seq::filter, 1);
    if rows.len() > 0 {
        lemma_round_count(rows.drop_last());
        lemma_readable_rows_kept_in_order(rows.drop_last(), rows.last());
        assert(rows.drop_last().push(rows.last()) =~= rows);
    }
}

/// The queue a round fills holds exactly its civilians followed by its crabs:
/// `number_of_civilians` civilians first, then `number_of_crabs` crabs, and
/// nothing else (no bots, tanks or exploders).
pub proof fn lemma_round_queue_contents(round: RoundSpawns)
    ensures
        round_queue(round).len() == round.number_of_civilians + round.number_of_crabs,
        forall|i: int| 0 <= i < round.number_of_civilians ==> round_queue(round)[i] == SpawnType::Civilian,
        forall|i: int|
            round.number_of_civilians <= i < round.number_of_civilians + round.number_of_crabs
                ==> round_queue(round)[i] == SpawnType::Crab,
{
}

} // verus!
