use vstd::prelude::*;
use crate::components::WeaponData;

verus! {

/// One frame of an enemy's blaster: the fire-rate timer ticks by `delta`
/// nanoseconds, and a firing weapon whose timer is ready shoots, which
/// restarts the timer. Returns whether a shot was fired.
pub fn enemy_blaster_step(weapon: &mut WeaponData, delta: u128) -> (fired: bool)
    requires
        old(weapon).fire_rate_timer.can_tick(delta),
    ensures
        fired == (old(weapon).firing && old(weapon).fire_rate_timer.ticked(delta).is_ready()),
        final(weapon).firing == old(weapon).firing,
        final(weapon).damage == old(weapon).damage,
        final(weapon).fire_rate_timer == if fired {
            old(weapon).fire_rate_timer.ticked(delta).triggered()
        } else {
            old(weapon).fire_rate_timer.ticked(delta)
        },
{
    weapon.fire_rate_timer.tick(delta);
    if weapon.firing && weapon.fire_rate_timer.ready() {
        weapon.fire_rate_timer.trigger();
        true
    } else {
        false
    }
}

} // verus!
