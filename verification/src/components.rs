use vstd::prelude::*;
use crate::utils::CooldownTimer;

verus! {

/// A blaster shot and the damage it does on contact.
pub struct Blaster {
    pub damage: u32,
}

/// Which way a character faces.
pub struct Direction {
    pub is_right: bool,
}

/// A character that is dying: `time_till_dispose` counts the death animation.
pub struct Dead {
    pub time_till_dispose: CooldownTimer,
    pub dying: bool,
}

/// Hit points left in the current life.
#[derive(Clone, Copy, Debug, PartialEq, Eq, Structural)]
pub struct Health {
    pub health: u32,
}

/// Lives left.
#[derive(Clone, Copy, Debug, PartialEq, Eq, Structural)]
pub struct Lives {
    pub lives_num: u32,
}

/// The state of a character's blaster.
pub struct WeaponData {
    pub firing: bool,
    pub fire_rate_timer: CooldownTimer,
    pub damage: u32,
}

/// One second, the pause between two shots of the default blaster.
pub const FIRE_RATE_NANOS: u128 = 1_000_000_000;

impl Default for WeaponData {
    /// The player's ranged weapon: not firing, ready, one shot per second,
    /// one point of damage.
    fn default() -> (r: Self)
        ensures
            !r.firing,
            r.fire_rate_timer.duration == FIRE_RATE_NANOS,
            r.fire_rate_timer.elapsed is None,
            r.damage == 1,
    {
        WeaponData {
            firing: false,
            fire_rate_timer: CooldownTimer { duration: FIRE_RATE_NANOS, elapsed: None },
            damage: 1,
        }
    }
}

} // verus!
