use my_blaster_runs_hot::components::WeaponData;
use my_blaster_runs_hot::graphics::advance_sprite;
use my_blaster_runs_hot::states::{
    CivilianAnimationInfo, CivilianState, EnemyAnimationInfo, EnemyState, GameState, PlayerAnimationInfo,
    PlayerState, SpriteLocation,
};
use my_blaster_runs_hot::utils::{CooldownTimer, MAX_DURATION_NANOS};

const SECOND: u128 = 1_000_000_000;

fn timer(duration: u128) -> CooldownTimer {
    CooldownTimer { duration, elapsed: None }
}

#[test]
fn new_timer_is_ready() {
    assert!(timer(SECOND).ready());
}

#[test]
fn trigger_starts_countdown_from_zero() {
    let mut t = timer(SECOND);
    t.trigger();
    assert!(!t.ready());
    assert_eq!(t.elapsed, Some(0));
    assert_eq!(t.duration, SECOND);
}

#[test]
fn tick_accumulates_until_duration_passed() {
    let mut t = timer(SECOND);
    t.trigger();
    t.tick(SECOND / 2);
    assert_eq!(t.elapsed, Some(SECOND / 2));
    assert!(!t.ready());
    t.tick(SECOND / 2);
    // exactly the duration is not past it
    assert_eq!(t.elapsed, Some(SECOND));
    assert!(!t.ready());
    t.tick(1);
    assert!(t.ready());
    assert_eq!(t.elapsed, None);
}

#[test]
fn tick_on_ready_timer_does_nothing() {
    let mut t = timer(SECOND);
    t.tick(5 * SECOND);
    assert!(t.ready());
    assert_eq!(t.duration, SECOND);
}

#[test]
fn countdown_ends_after_duration_law_example() {
    // lemma_trigger_then_wait: ready exactly once the total passes the duration
    let mut t = timer(3 * SECOND);
    t.trigger();
    for _ in 0..3 {
        t.tick(SECOND);
    }
    assert!(!t.ready());
    t.tick(1);
    assert!(t.ready());
    t.tick(SECOND);
    assert!(t.ready());
}

#[test]
fn tick_up_to_longest_duration() {
    let mut t = timer(MAX_DURATION_NANOS);
    t.trigger();
    t.tick(MAX_DURATION_NANOS);
    assert_eq!(t.elapsed, Some(MAX_DURATION_NANOS));
}

#[test]
fn weapon_default_values() {
    let w = WeaponData::default();
    assert!(!w.firing);
    assert_eq!(w.damage, 1);
    assert_eq!(w.fire_rate_timer.duration, SECOND);
    assert!(w.fire_rate_timer.ready());
}

#[test]
fn player_rows() {
    let row = |state| PlayerAnimationInfo { state, is_flip: false }.location();
    assert_eq!(row(PlayerState::Death), (0, 8));
    assert_eq!(row(PlayerState::Run), (8, 6));
    assert_eq!(row(PlayerState::Jump), (16, 2));
    assert_eq!(row(PlayerState::Crouch), (24, 3));
    assert_eq!(row(PlayerState::Idle), (32, 5));
}

#[test]
fn enemy_and_civilian_rows() {
    assert_eq!(EnemyAnimationInfo { state: EnemyState::Death, is_flip: false }.location(), (0, 8));
    assert_eq!(EnemyAnimationInfo { state: EnemyState::Run, is_flip: false }.location(), (8, 6));
    assert_eq!(EnemyAnimationInfo { state: EnemyState::Idle, is_flip: false }.location(), (32, 5));
    assert_eq!(CivilianAnimationInfo { state: CivilianState::Death, is_flip: true }.location(), (0, 8));
    assert_eq!(CivilianAnimationInfo { state: CivilianState::Run, is_flip: true }.location(), (8, 6));
    assert_eq!(CivilianAnimationInfo { state: CivilianState::Idle, is_flip: true }.location(), (32, 5));
}

#[test]
fn next_index_steps_and_wraps_within_row() {
    let run = PlayerAnimationInfo { state: PlayerState::Run, is_flip: false };
    assert_eq!(run.next_index(8), 9);
    assert_eq!(run.next_index(12), 13);
    assert_eq!(run.next_index(13), 8);
    let jump = PlayerAnimationInfo { state: PlayerState::Jump, is_flip: false };
    assert_eq!(jump.next_index(16), 17);
    assert_eq!(jump.next_index(17), 16);
}

#[test]
fn next_index_from_another_row_lands_in_row() {
    let idle = PlayerAnimationInfo { state: PlayerState::Idle, is_flip: false };
    // frame 3 lies before the idle row: counted as position 0
    assert_eq!(idle.next_index(3), 33);
    // frame 39 lies past the idle row: position 7 wraps to 3
    assert_eq!(idle.next_index(39), 35);
    let death = EnemyAnimationInfo { state: EnemyState::Death, is_flip: false };
    assert_eq!(death.next_index(35), 4);
    for i in 0..60usize {
        let n = idle.next_index(i);
        assert!((32..37).contains(&n));
    }
}

#[test]
fn animation_loops_over_its_row() {
    let civ = CivilianAnimationInfo { state: CivilianState::Run, is_flip: false };
    let (offset, len) = civ.location();
    for start in offset..offset + len {
        let mut i = start;
        for _ in 0..len {
            i = civ.next_index(i);
        }
        assert_eq!(i, start);
    }
}

#[test]
fn is_flip_reports_field() {
    assert!(PlayerAnimationInfo { state: PlayerState::Run, is_flip: true }.is_flip());
    assert!(!EnemyAnimationInfo { state: EnemyState::Run, is_flip: false }.is_flip());
    assert!(CivilianAnimationInfo { state: CivilianState::Idle, is_flip: true }.is_flip());
}

#[test]
fn advance_sprite_moves_only_when_frame_elapsed() {
    let run = PlayerAnimationInfo { state: PlayerState::Run, is_flip: true };
    assert_eq!(advance_sprite(&run, 13, true), (8, true));
    assert_eq!(advance_sprite(&run, 13, false), (13, true));
    let idle = EnemyAnimationInfo { state: EnemyState::Idle, is_flip: false };
    assert_eq!(advance_sprite(&idle, 0, true), (33, false));
}

#[test]
fn game_states_compare() {
    assert_eq!(GameState::MainGame, GameState::MainGame.clone());
    assert_ne!(GameState::MainMenu, GameState::GameOver);
    assert_ne!(GameState::ControlMenu, GameState::MainGame);
}
