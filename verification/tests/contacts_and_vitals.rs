use my_blaster_runs_hot::blaster::{damage_on_contact, destroy_blaster_on_contact};
use my_blaster_runs_hot::civilian::{add_rescue_points, rescue_civilians};
use my_blaster_runs_hot::components::{Health, Lives};
use my_blaster_runs_hot::constants::PLAYER_HEALTH;
use my_blaster_runs_hot::player::collision_with_enemy;
use my_blaster_runs_hot::projectile_collision::{
    on_living_being_dead, on_living_being_hit, Contact, LivingBeingDeathEvent, LivingBeingHitEvent,
};
use my_blaster_runs_hot::resources::PlayerScore;

fn contact(first: u64, second: u64) -> Contact {
    Contact { first, second }
}

#[test]
fn shot_touching_a_being_is_destroyed() {
    let blasters = vec![10, 11];
    assert_eq!(destroy_blaster_on_contact(&vec![contact(10, 1)], &blasters), vec![10]);
    assert_eq!(destroy_blaster_on_contact(&vec![contact(1, 11)], &blasters), vec![11]);
    assert_eq!(destroy_blaster_on_contact(&vec![contact(1, 2)], &blasters), Vec::<u64>::new());
}

#[test]
fn shots_pass_each_other() {
    let blasters = vec![10, 11];
    assert_eq!(destroy_blaster_on_contact(&vec![contact(10, 11)], &blasters), Vec::<u64>::new());
}

#[test]
fn destroyed_shots_in_contact_order() {
    let blasters = vec![10, 11, 12];
    let contacts = vec![contact(12, 3), contact(4, 10), contact(5, 6)];
    assert_eq!(destroy_blaster_on_contact(&contacts, &blasters), vec![12, 10]);
}

#[test]
fn shot_hits_being_with_its_damage() {
    let blasters = vec![(10, 1), (11, 4)];
    let beings = vec![1, 2];
    let hits = damage_on_contact(&vec![contact(2, 11), contact(10, 1), contact(10, 11)], &blasters, &beings);
    assert_eq!(
        hits,
        vec![LivingBeingHitEvent { entity: 2, damage: 4 }, LivingBeingHitEvent { entity: 1, damage: 1 }]
    );
}

#[test]
fn no_hit_without_a_being() {
    let hits = damage_on_contact(&vec![contact(10, 7)], &vec![(10, 1)], &vec![1, 2]);
    assert!(hits.is_empty());
}

#[test]
fn player_enemy_contacts_found_either_way_round() {
    let pairs = collision_with_enemy(&vec![contact(1, 20), contact(21, 1), contact(20, 21)], &vec![1], &vec![20, 21]);
    assert_eq!(pairs, vec![(1, 20), (1, 21)]);
    assert!(collision_with_enemy(&vec![contact(1, 20)], &vec![], &vec![20]).is_empty());
}

#[test]
fn rescuing_civilians_scores_points() {
    let mut score = PlayerScore(50);
    let rescued = rescue_civilians(&vec![contact(1, 30), contact(31, 1), contact(30, 31)], 1, &vec![30, 31, 32]);
    assert_eq!(rescued, vec![30, 31]);
    add_rescue_points(&mut score, rescued.len());
    assert_eq!(score.0, 250);
}

#[test]
fn player_touching_itself_rescues_nobody() {
    let mut score = PlayerScore(0);
    let rescued = rescue_civilians(&vec![contact(1, 1), contact(30, 30)], 1, &vec![30]);
    assert!(rescued.is_empty());
    add_rescue_points(&mut score, rescued.len());
    assert_eq!(score.0, 0);
}

#[test]
fn hits_lower_health_down_to_zero() {
    let mut beings = vec![(1, Health { health: 3 }), (2, Health { health: 1 }), (3, Health { health: 2 })];
    let downed = on_living_being_hit(
        &vec![LivingBeingHitEvent { entity: 1, damage: 1 }, LivingBeingHitEvent { entity: 2, damage: 5 }],
        &mut beings,
    );
    assert_eq!(beings, vec![(1, Health { health: 2 }), (2, Health { health: 0 }), (3, Health { health: 2 })]);
    assert_eq!(downed, vec![2]);
}

#[test]
fn being_without_health_is_reported_after_every_hit() {
    let mut beings = vec![(1, Health { health: 0 }), (2, Health { health: 4 })];
    let downed = on_living_being_hit(
        &vec![LivingBeingHitEvent { entity: 2, damage: 1 }, LivingBeingHitEvent { entity: 2, damage: 3 }],
        &mut beings,
    );
    assert_eq!(downed, vec![1, 1, 2]);
    assert_eq!(beings[1].1.health, 0);
}

#[test]
fn hits_never_heal() {
    let before = vec![(1, Health { health: 3 }), (2, Health { health: 2 })];
    let mut beings = before.clone();
    on_living_being_hit(&vec![LivingBeingHitEvent { entity: 2, damage: 0 }, LivingBeingHitEvent { entity: 9, damage: 1 }], &mut beings);
    for (b, a) in before.iter().zip(beings.iter()) {
        assert_eq!(a.0, b.0);
        assert!(a.1.health <= b.1.health);
    }
}

#[test]
fn death_costs_a_life_and_restores_health() {
    let mut beings = vec![(1, Lives { lives_num: 3 }, Health { health: 0 }), (2, Lives { lives_num: 1 }, Health { health: 1 })];
    let removed = on_living_being_dead(&vec![LivingBeingDeathEvent { entity: 1 }], &mut beings);
    assert!(removed.is_empty());
    assert_eq!(beings[0], (1, Lives { lives_num: 2 }, Health { health: PLAYER_HEALTH }));
    assert_eq!(beings[1], (2, Lives { lives_num: 1 }, Health { health: 1 }));
}

#[test]
fn last_life_lost_removes_the_being() {
    let mut beings = vec![(2, Lives { lives_num: 1 }, Health { health: 1 }), (5, Lives { lives_num: 0 }, Health { health: 2 })];
    let removed = on_living_being_dead(&vec![LivingBeingDeathEvent { entity: 2 }, LivingBeingDeathEvent { entity: 5 }], &mut beings);
    assert_eq!(removed, vec![2, 5, 2, 5]);
    assert_eq!(beings[1], (5, Lives { lives_num: 0 }, Health { health: PLAYER_HEALTH }));
}

#[test]
fn other_side_judged_a_shot_by_entity_index() {
    let blasters = vec![10, 11];
    // same index as shot 11, another generation
    let stale = 11 + (1u64 << 32);
    assert_eq!(destroy_blaster_on_contact(&vec![contact(10, stale)], &blasters), Vec::<u64>::new());
    assert_eq!(destroy_blaster_on_contact(&vec![contact(10, 12 + (1u64 << 32))], &blasters), vec![10]);
}

#[test]
fn rescue_points_up_to_the_limit() {
    let mut score = PlayerScore(usize::MAX - 200);
    add_rescue_points(&mut score, 2);
    assert_eq!(score.0, usize::MAX);
}
