use vstd::prelude::*;
use crate::components::{Dead, Health, Lives, WeaponData};
use crate::constants::PLAYER_HEALTH;
use crate::projectile_collision::{Contact, touches};
use crate::seq_util::{flat_map, lemma_flat_map_prefix_step, lemma_full_prefix};
use crate::states::{PlayerAnimationInfo, PlayerState};
use crate::utils::{CooldownTimer, MAX_DURATION_NANOS, lemma_trigger_then_wait, ticked_by_all, total_time};

verus! {

/// The pair (player, enemy), if the contact is between the two.
pub open spec fn enemy_touch(c: Contact, player: u64, enemy: u64) -> Seq<(u64, u64)> {
    if touches(c, player, enemy) {
        seq![(player, enemy)]
    } else {
        Seq::empty()
    }
}

/// The player-enemy pairs one contact is between, player by player, enemy by enemy.
pub open spec fn enemy_touches_of(players: Seq<u64>, enemies: Seq<u64>) -> spec_fn(Contact) -> Seq<(u64, u64)> {
    |c: Contact| flat_map(players, |p: u64| flat_map(enemies, |e: u64| enemy_touch(c, p, e)))
}

/// The player-enemy pairs of the contacts, contact by contact.
pub open spec fn enemy_touches(contacts: Seq<Contact>, players: Seq<u64>, enemies: Seq<u64>) -> Seq<(u64, u64)> {
    flat_map(contacts, enemy_touches_of(players, enemies))
}

/// The (player, enemy) pairs whose contact started: each costs the player a
/// life and knocks the player back, away from the enemy.
pub fn collision_with_enemy(contacts: &Vec<Contact>, players: &Vec<u64>, enemies: &Vec<u64>) -> (r: Vec<(u64, u64)>)
    ensures
        r@ == enemy_touches(contacts@, players@, enemies@),
{
    let mut out: Vec<(u64, u64)> = Vec::new();
    let mut i: usize = 0;
    while i < contacts.len()
        invariant
            i <= contacts.len(),
            out@ == flat_map(contacts@.take(i as int), enemy_touches_of(players@, enemies@)),
        decreases contacts.len() - i,
    {
        let c = contacts[i];
        let ghost before_contact = out@;
        let ghost per_player = |p: u64| flat_map(enemies@, |e: u64| enemy_touch(c, p, e));
        let mut j: usize = 0;
        while j < players.len()
            invariant
                j <= players.len(),
                c == contacts@[i as int],
                per_player == (|p: u64| flat_map(enemies@, |e: u64| enemy_touch(c, p, e))),
                out@ == before_contact + flat_map(players@.take(j as int), per_player),
            decreases players.len() - j,
        {
            let p = players[j];
            let ghost before_player = out@;
            let mut k: usize = 0;
            while k < enemies.len()
                invariant
                    k <= enemies.len(),
                    p == players@[j as int],
                    out@ == before_player + flat_map(enemies@.take(k as int), |e: u64| enemy_touch(c, p, e)),
                decreases enemies.len() - k,
            {
                let e = enemies[k];
                if (c.first == p && c.second == e) || (c.first == e && c.second == p) {
                    out.push((p, e));
                }
                proof {
                    lemma_flat_map_prefix_step(enemies@, |e: u64| enemy_touch(c, p, e), k as int);
                    assert(out@ =~= before_player + flat_map(enemies@.take(k + 1), |e: u64| enemy_touch(c, p, e)));
                }
                k += 1;
            }
            proof {
                lemma_full_prefix(enemies@);
                lemma_flat_map_prefix_step(players@, per_player, j as int);
                assert(out@ =~= before_contact + flat_map(players@.take(j + 1), per_player));
            }
            j += 1;
        }
        proof {
            lemma_full_prefix(players@);
            lemma_flat_map_prefix_step(contacts@, enemy_touches_of(players@, enemies@), i as int);
        }
        i += 1;
    }
    proof {
        lemma_full_prefix(contacts@);
    }
    out
}

/// One keyboard axis: the positive key wins over the negative one.
pub open spec fn key_axis(positive: bool, negative: bool) -> int {
    if positive { 1 } else if negative { -1 } else { 0 }
}

/// The direction the movement keys ask for, as (x, y) with each in
/// {-1, 0, 1}: up wins over down and right wins over left.
pub fn keyboard_axes(up: bool, down: bool, right: bool, left: bool) -> (r: (i8, i8))
    ensures
        r.0 == key_axis(right, left),
        r.1 == key_axis(up, down),
{
    let y: i8 = if up { 1 } else if down { -1 } else { 0 };
    let x: i8 = if right { 1 } else if left { -1 } else { 0 };
    (x, y)
}

/// The player's animation after a movement update: moving left mirrors the
/// sprite, moving right unmirrors it, standing still keeps the facing; the
/// jump key wins over crouching, which wins over running or standing idle.
pub fn update_player_animation(
    info: &mut PlayerAnimationInfo,
    moving_left: bool,
    moving_right: bool,
    moving: bool,
    jumping: bool,
    crouching: bool,
)
    ensures
        final(info).is_flip == if moving_left {
            true
        } else if moving_right {
            false
        } else {
            old(info).is_flip
        },
        final(info).state == if jumping {
            PlayerState::Jump
        } else if crouching {
            PlayerState::Crouch
        } else if moving {
            PlayerState::Run
        } else {
            PlayerState::Idle
        },
{
    if moving_left {
        info.is_flip = true;
    } else if moving_right {
        info.is_flip = false;
    }
    if moving {
        info.state = PlayerState::Run;
    } else {
        info.state = PlayerState::Idle;
    }
    if jumping {
        info.state = PlayerState::Jump;
    } else if crouching {
        info.state = PlayerState::Crouch;
    }
}

/// The overheat timer after a frame: ticked, then restarted when the blaster
/// is overheated.
pub open spec fn overheat_after(overheat: CooldownTimer, delta: u128, overheated: bool) -> CooldownTimer {
    if overheated {
        overheat.ticked(delta).triggered()
    } else {
        overheat.ticked(delta)
    }
}

/// Whether the player's blaster fires this frame: the trigger is held, the
/// fire-rate timer is ready after its tick and the overheat timer is ready
/// after its tick and any restart.
pub open spec fn player_fires(weapon: WeaponData, overheat: CooldownTimer, delta: u128, overheated: bool) -> bool {
    weapon.firing && weapon.fire_rate_timer.ticked(delta).is_ready()
        && overheat_after(overheat, delta, overheated).is_ready()
}

/// One frame of the player's blaster: both timers tick by `delta`
/// nanoseconds, an overheated blaster restarts the overheat cooldown, and the
/// blaster fires when held and both timers are ready, which restarts the
/// fire-rate timer. Returns whether a shot was fired.
pub fn fire_blaster(weapon: &mut WeaponData, overheat: &mut CooldownTimer, delta: u128, overheated: bool) -> (fired: bool)
    requires
        old(weapon).fire_rate_timer.can_tick(delta),
        old(overheat).can_tick(delta),
    ensures
        fired == player_fires(*old(weapon), *old(overheat), delta, overheated),
        fired ==> old(weapon).firing,
        *final(overheat) == overheat_after(*old(overheat), delta, overheated),
        final(weapon).firing == old(weapon).firing,
        final(weapon).damage == old(weapon).damage,
        final(weapon).fire_rate_timer == if fired {
            old(weapon).fire_rate_timer.ticked(delta).triggered()
        } else {
            old(weapon).fire_rate_timer.ticked(delta)
        },
{
    weapon.fire_rate_timer.tick(delta);
    overheat.tick(delta);
    if overheated {
        overheat.trigger();
    }
    if weapon.firing && weapon.fire_rate_timer.ready() && overheat.ready() {
        weapon.fire_rate_timer.trigger();
        true
    } else {
        false
    }
}

/// How a frame of the player's death ends.
#[derive(Clone, Copy, Debug, PartialEq, Eq, Structural)]
pub enum DyingOutcome {
    /// The death animation is still running.
    Dying,
    /// The last life is lost: the game is over.
    GameOver,
    /// A life was spent: the player is back with full health.
    Revived,
}

/// The death timer after a frame: started when the death begins, then ticked.
pub open spec fn dispose_timer_after(dead: Dead, delta: u128) -> CooldownTimer {
    if dead.dying {
        dead.time_till_dispose.ticked(delta)
    } else {
        dead.time_till_dispose.triggered().ticked(delta)
    }
}

/// Whether a frame of `delta` nanoseconds keeps the death timer within what a
/// `Duration` can hold.
pub open spec fn dying_can_tick(dead: Dead, delta: u128) -> bool {
    if dead.dying {
        dead.time_till_dispose.can_tick(delta)
    } else {
        delta <= MAX_DURATION_NANOS
    }
}

/// One frame of a dying player: the death animation plays, the death timer
/// starts on the first frame and ticks; when it runs out the player loses a
/// life: with two or more lives the player comes back with one life fewer and
/// full health, and losing the last life (or having none) ends the game.
pub fn player_dying(
    info: &mut PlayerAnimationInfo,
    dead: &mut Dead,
    lives: &mut Lives,
    health: &mut Health,
    delta: u128,
) -> (outcome: DyingOutcome)
    requires
        dying_can_tick(*old(dead), delta),
    ensures
        final(info).state == PlayerState::Death,
        final(info).is_flip == old(info).is_flip,
        final(dead).dying,
        final(dead).time_till_dispose == dispose_timer_after(*old(dead), delta),
        outcome == if !dispose_timer_after(*old(dead), delta).is_ready() {
            DyingOutcome::Dying
        } else if old(lives).lives_num <= 1 {
            DyingOutcome::GameOver
        } else {
            DyingOutcome::Revived
        },
        outcome == DyingOutcome::Revived ==> {
            &&& final(lives).lives_num == old(lives).lives_num - 1
            &&& final(health).health == PLAYER_HEALTH
        },
        outcome == DyingOutcome::GameOver ==> {
            &&& final(lives).lives_num == 0
            &&& *final(health) == *old(health)
        },
        outcome == DyingOutcome::Dying ==> {
            &&& *final(lives) == *old(lives)
            &&& *final(health) == *old(health)
        },
{
    info.state = PlayerState::Death;
    if !dead.dying {
        dead.dying = true;
        dead.time_till_dispose.trigger();
    }
    dead.time_till_dispose.tick(delta);
    if dead.time_till_dispose.ready() {
        if lives.lives_num <= 1 {
            lives.lives_num = 0;
            DyingOutcome::GameOver
        } else {
            lives.lives_num = lives.lives_num - 1;
            health.health = PLAYER_HEALTH;
            DyingOutcome::Revived
        }
    } else {
        DyingOutcome::Dying
    }
}

/// An overheated blaster never fires, whatever the trigger and the fire rate say.
pub proof fn lemma_overheated_blaster_never_fires(weapon: WeaponData, overheat: CooldownTimer, delta: u128)
    ensures
        !player_fires(weapon, overheat, delta, true),
{
}

/// Once the blaster overheats it stays silent for the whole cooldown: in any
/// later frame it fires only if, counting that frame, more time than the
/// cooldown has passed since the overheat.
pub proof fn lemma_overheat_silences_blaster(
    weapon: WeaponData,
    overheat: CooldownTimer,
    deltas: Seq<u128>,
    delta: u128,
)
    requires
        total_time(deltas) + delta <= MAX_DURATION_NANOS,
        player_fires(weapon, ticked_by_all(overheat.triggered(), deltas), delta, false),
    ensures
        total_time(deltas) + delta > overheat.duration,
{
    let frames = deltas.push(delta);
    assert(frames.drop_last() =~= deltas);
    lemma_trigger_then_wait(overheat, frames);
}

/// A blaster whose trigger is not held never fires, whatever its timers say.
pub proof fn lemma_released_trigger_never_fires(weapon: WeaponData, overheat: CooldownTimer, delta: u128, overheated: bool)
    requires
        !weapon.firing,
    ensures
        !player_fires(weapon, overheat, delta, overheated),
{
}

/// No shot while the fire-rate cooldown is still running after the frame:
/// shots are at least the fire period apart.
pub proof fn lemma_fire_rate_limits_shots(weapon: WeaponData, overheat: CooldownTimer, delta: u128, overheated: bool)
    requires
        weapon.fire_rate_timer.elapsed matches Some(e) && e + delta <= weapon.fire_rate_timer.duration,
    ensures
        !player_fires(weapon, overheat, delta, overheated),
{
}

/// A held trigger on a ready blaster that is not overheated and not cooling
/// down fires.
pub proof fn lemma_held_ready_blaster_fires(weapon: WeaponData, overheat: CooldownTimer, delta: u128)
    requires
        weapon.firing,
        weapon.fire_rate_timer.elapsed is None,
        overheat.elapsed is None,
    ensures
        player_fires(weapon, overheat, delta, false),
{
}

/// Every shot comes from a held trigger: whenever the blaster fires its
/// trigger was held, and the fire-rate cooldown restarts from zero.
pub proof fn lemma_shot_needs_trigger(weapon: WeaponData, overheat: CooldownTimer, delta: u128, overheated: bool)
    requires
        player_fires(weapon, overheat, delta, overheated),
    ensures
        weapon.firing,
        weapon.fire_rate_timer.ticked(delta).triggered().elapsed == Some(0u128),
{
}

} // verus!
