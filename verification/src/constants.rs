use vstd::prelude::*;

verus! {

/// Health of the player at the start of each life.
pub const PLAYER_HEALTH: u32 = 3;
/// Lives the player starts with.
pub const PLAYER_LIVES: u32 = 3;
/// Points for each civilian the player reaches.
pub const CIVILIAN_RESCUE_POINTS: usize = 100;
/// Damage done by one blaster shot.
pub const BLASTER_DAMAGE: u32 = 1;
/// Health and lives of a freshly spawned crab.
pub const CRAB_HEALTH: u32 = 1;
pub const CRAB_LIVES: u32 = 1;

/// Collision group flags.
pub const PLAYER_GROUP: u32 = 0b1;
pub const ENEMY_GROUP: u32 = 0b10;
pub const CIVILIAN_GROUP: u32 = 0b100;
pub const BLASTER_GROUP: u32 = 0b1000;
pub const PHYSICAL_GROUP: u32 = 0b10000;

} // verus!
