use vstd::prelude::*;
use std::collections::VecDeque;

verus! {

/// The kinds of character a round can spawn.
#[derive(Clone, Copy, Debug, PartialEq, Eq, Structural)]
pub enum SpawnType {
    Civilian,
    Crab,
    Bot,
    Tank,
    Exploder,
}

/// Whether the game knows how to spawn characters of kind `t`.
pub open spec fn is_spawnable(t: SpawnType) -> bool {
    t is Civilian || t is Crab
}

/// The player's score.
pub struct PlayerScore(pub usize);

/// Characters waiting to be spawned, first in line at the front.
pub struct SpawnQueue(pub VecDeque<SpawnType>);

} // verus!
