use my_blaster_runs_hot::collision_groups::{collision_groups, Body};
use my_blaster_runs_hot::components::{Dead, Health, Lives, WeaponData};
use my_blaster_runs_hot::constants::PLAYER_HEALTH;
use my_blaster_runs_hot::enemy::enemy_blaster_step;
use my_blaster_runs_hot::game_over::{quit_button_response, ButtonImage, ButtonInteraction, QuitButtonResponse};
use my_blaster_runs_hot::gamepad::{gamepad_connection, ControllerCommand, GamepadConnection};
use my_blaster_runs_hot::player::{fire_blaster, keyboard_axes, player_dying, update_player_animation, DyingOutcome};
use my_blaster_runs_hot::states::{PlayerAnimationInfo, PlayerState};
use my_blaster_runs_hot::utils::CooldownTimer;

const SECOND: u128 = 1_000_000_000;

fn ready_timer(duration: u128) -> CooldownTimer {
    CooldownTimer { duration, elapsed: None }
}

#[test]
fn keyboard_axes_prefer_up_and_right() {
    assert_eq!(keyboard_axes(true, false, false, false), (0, 1));
    assert_eq!(keyboard_axes(false, true, false, true), (-1, -1));
    assert_eq!(keyboard_axes(true, true, true, true), (1, 1));
    assert_eq!(keyboard_axes(false, false, false, false), (0, 0));
}

#[test]
fn movement_sets_facing_and_animation() {
    let mut info = PlayerAnimationInfo { state: PlayerState::Idle, is_flip: false };
    update_player_animation(&mut info, true, false, true, false, false);
    assert!(info.is_flip);
    assert!(matches!(info.state, PlayerState::Run));
    update_player_animation(&mut info, false, false, false, false, false);
    assert!(info.is_flip);
    assert!(matches!(info.state, PlayerState::Idle));
    update_player_animation(&mut info, false, true, true, false, true);
    assert!(!info.is_flip);
    assert!(matches!(info.state, PlayerState::Crouch));
    update_player_animation(&mut info, false, false, true, true, true);
    assert!(matches!(info.state, PlayerState::Jump));
}

#[test]
fn blaster_fires_when_held_and_ready() {
    let mut weapon = WeaponData { firing: true, ..WeaponData::default() };
    let mut overheat = ready_timer(5 * SECOND);
    assert!(fire_blaster(&mut weapon, &mut overheat, SECOND / 60, false));
    assert_eq!(weapon.fire_rate_timer.elapsed, Some(0));
    // fire rate: no second shot within a second
    assert!(!fire_blaster(&mut weapon, &mut overheat, SECOND / 2, false));
    assert!(!fire_blaster(&mut weapon, &mut overheat, SECOND / 2, false));
    assert!(fire_blaster(&mut weapon, &mut overheat, 1, false));
}

#[test]
fn released_trigger_does_not_fire() {
    let mut weapon = WeaponData::default();
    let mut overheat = ready_timer(5 * SECOND);
    assert!(!fire_blaster(&mut weapon, &mut overheat, SECOND, false));
    assert!(weapon.fire_rate_timer.ready());
}

#[test]
fn overheated_blaster_never_fires() {
    let mut weapon = WeaponData { firing: true, ..WeaponData::default() };
    let mut overheat = ready_timer(5 * SECOND);
    assert!(!fire_blaster(&mut weapon, &mut overheat, SECOND, true));
    assert_eq!(overheat.elapsed, Some(0));
    // cooling down: still no shot until the overheat cooldown passes
    assert!(!fire_blaster(&mut weapon, &mut overheat, 5 * SECOND, false));
    assert!(fire_blaster(&mut weapon, &mut overheat, 1, false));
}

#[test]
fn enemy_fires_once_per_fire_period() {
    let mut weapon = WeaponData { firing: true, ..WeaponData::default() };
    assert!(enemy_blaster_step(&mut weapon, 10));
    assert!(!enemy_blaster_step(&mut weapon, SECOND));
    assert!(enemy_blaster_step(&mut weapon, 1));
    let mut idle = WeaponData::default();
    assert!(!enemy_blaster_step(&mut idle, SECOND));
}

fn dead(duration: u128) -> Dead {
    Dead { time_till_dispose: ready_timer(duration), dying: false }
}

#[test]
fn dying_player_revives_with_one_life_fewer() {
    let mut info = PlayerAnimationInfo { state: PlayerState::Run, is_flip: true };
    let mut d = dead(SECOND);
    let mut lives = Lives { lives_num: 3 };
    let mut health = Health { health: 0 };
    assert_eq!(player_dying(&mut info, &mut d, &mut lives, &mut health, SECOND / 2), DyingOutcome::Dying);
    assert!(matches!(info.state, PlayerState::Death));
    assert!(info.is_flip);
    assert!(d.dying);
    assert_eq!(lives.lives_num, 3);
    assert_eq!(player_dying(&mut info, &mut d, &mut lives, &mut health, SECOND / 2), DyingOutcome::Dying);
    assert_eq!(player_dying(&mut info, &mut d, &mut lives, &mut health, 1), DyingOutcome::Revived);
    assert_eq!(lives.lives_num, 2);
    assert_eq!(health.health, PLAYER_HEALTH);
}

#[test]
fn dying_without_lives_ends_the_game() {
    let mut info = PlayerAnimationInfo { state: PlayerState::Idle, is_flip: false };
    let mut d = dead(SECOND);
    let mut lives = Lives { lives_num: 0 };
    let mut health = Health { health: 0 };
    assert_eq!(player_dying(&mut info, &mut d, &mut lives, &mut health, 2 * SECOND), DyingOutcome::GameOver);
    assert_eq!(lives.lives_num, 0);
    assert_eq!(health.health, 0);
}

#[test]
fn gamepad_taken_up_and_released() {
    assert_eq!(
        gamepad_connection(None, &vec![(3, GamepadConnection::Connected), (4, GamepadConnection::Other)]),
        vec![ControllerCommand::Use(3)]
    );
    assert!(gamepad_connection(Some(1), &vec![(3, GamepadConnection::Connected)]).is_empty());
    assert_eq!(
        gamepad_connection(Some(1), &vec![(2, GamepadConnection::Disconnected), (1, GamepadConnection::Disconnected)]),
        vec![ControllerCommand::Release]
    );
    assert!(gamepad_connection(None, &vec![(1, GamepadConnection::Disconnected)]).is_empty());
}

#[test]
fn quit_button_responses() {
    assert_eq!(
        quit_button_response(ButtonInteraction::Clicked, true),
        QuitButtonResponse { image: Some(ButtonImage::Pressed), exit: true }
    );
    assert_eq!(quit_button_response(ButtonInteraction::Clicked, false), QuitButtonResponse { image: None, exit: false });
    assert_eq!(
        quit_button_response(ButtonInteraction::Hovered, true),
        QuitButtonResponse { image: Some(ButtonImage::Normal), exit: false }
    );
    assert_eq!(
        quit_button_response(ButtonInteraction::Idle, false),
        QuitButtonResponse { image: Some(ButtonImage::Normal), exit: false }
    );
}

#[test]
fn collision_groups_of_bodies() {
    let interact = |a: (u32, u32), b: (u32, u32)| (a.0 & b.1) != 0 && (b.0 & a.1) != 0;
    let g = collision_groups;
    assert_eq!(g(Body::Player), (0b10101, 0b10101));
    assert_eq!(g(Body::Enemy), (0b10010, 0b10010));
    assert_eq!(g(Body::Civilian), (0b100, 0b100));
    assert_eq!(g(Body::PlayerShot), (0b10, 0b10));
    assert_eq!(g(Body::EnemyShot), (0b1, 0b1));
    assert!(!interact(g(Body::PlayerShot), g(Body::Civilian)));
    assert!(interact(g(Body::PlayerShot), g(Body::Enemy)));
    assert!(interact(g(Body::EnemyShot), g(Body::Player)));
    assert!(interact(g(Body::Player), g(Body::Civilian)));
    assert!(interact(g(Body::Player), g(Body::Enemy)));
    assert!(!interact(g(Body::PlayerShot), g(Body::Player)));
    assert!(!interact(g(Body::EnemyShot), g(Body::Enemy)));
    assert!(!interact(g(Body::EnemyShot), g(Body::Civilian)));
}

#[test]
fn losing_the_last_life_ends_the_game() {
    let mut info = PlayerAnimationInfo { state: PlayerState::Run, is_flip: false };
    let mut d = dead(SECOND);
    let mut lives = Lives { lives_num: 1 };
    let mut health = Health { health: 0 };
    assert_eq!(player_dying(&mut info, &mut d, &mut lives, &mut health, SECOND / 2), DyingOutcome::Dying);
    assert_eq!(lives.lives_num, 1);
    assert_eq!(player_dying(&mut info, &mut d, &mut lives, &mut health, SECOND), DyingOutcome::GameOver);
    assert_eq!(lives.lives_num, 0);
    assert_eq!(health.health, 0);
}

#[test]
fn two_lives_then_last_life() {
    let mut info = PlayerAnimationInfo { state: PlayerState::Idle, is_flip: false };
    let mut lives = Lives { lives_num: 2 };
    let mut health = Health { health: 0 };
    let mut d = dead(10);
    assert_eq!(player_dying(&mut info, &mut d, &mut lives, &mut health, 11), DyingOutcome::Revived);
    assert_eq!(lives.lives_num, 1);
    let mut d = dead(10);
    assert_eq!(player_dying(&mut info, &mut d, &mut lives, &mut health, 11), DyingOutcome::GameOver);
    assert_eq!(lives.lives_num, 0);
}
