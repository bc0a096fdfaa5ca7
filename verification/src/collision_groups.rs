use vstd::prelude::*;
use crate::constants::{CIVILIAN_GROUP, ENEMY_GROUP, PHYSICAL_GROUP, PLAYER_GROUP};

verus! {

/// The kinds of body the physics engine sees.
#[derive(Clone, Copy, Debug, PartialEq, Eq, Structural)]
pub enum Body {
    Player,
    Enemy,
    Civilian,
    PlayerShot,
    EnemyShot,
}

/// The (memberships, filter) collision groups a body is given.
pub open spec fn body_groups(body: Body) -> (u32, u32) {
    match body {
        Body::Player => (PLAYER_GROUP | CIVILIAN_GROUP | PHYSICAL_GROUP, PLAYER_GROUP | CIVILIAN_GROUP | PHYSICAL_GROUP),
        Body::Enemy => (ENEMY_GROUP | PHYSICAL_GROUP, ENEMY_GROUP | PHYSICAL_GROUP),
        Body::Civilian => (CIVILIAN_GROUP, CIVILIAN_GROUP),
        Body::PlayerShot => (ENEMY_GROUP, ENEMY_GROUP),
        Body::EnemyShot => (PLAYER_GROUP, PLAYER_GROUP),
    }
}

/// The collision groups, as (memberships, filter), that a body is spawned with.
pub fn collision_groups(body: Body) -> (r: (u32, u32))
    ensures
        r == body_groups(body),
{
    match body {
        Body::Player => (PLAYER_GROUP | CIVILIAN_GROUP | PHYSICAL_GROUP, PLAYER_GROUP | CIVILIAN_GROUP | PHYSICAL_GROUP),
        Body::Enemy => (ENEMY_GROUP | PHYSICAL_GROUP, ENEMY_GROUP | PHYSICAL_GROUP),
        Body::Civilian => (CIVILIAN_GROUP, CIVILIAN_GROUP),
        Body::PlayerShot => (ENEMY_GROUP, ENEMY_GROUP),
        Body::EnemyShot => (PLAYER_GROUP, PLAYER_GROUP),
    }
}

/// The physics engine's collision filter: two bodies interact when each
/// one's memberships share a bit with the other's filter.
pub open spec fn groups_interact(a: (u32, u32), b: (u32, u32)) -> bool {
    (a.0 & b.1) != 0 && (b.0 & a.1) != 0
}

/// The player's shots pass through civilians and the player, while they do
/// strike enemies; enemy shots strike the player but pass through enemies and
/// civilians; the player touches civilians and enemies, so an enemy reaching
/// the player raises a contact.
pub proof fn lemma_who_collides()
    ensures
        groups_interact(body_groups(Body::Player), body_groups(Body::Enemy)),
        !groups_interact(body_groups(Body::PlayerShot), body_groups(Body::Civilian)),
        !groups_interact(body_groups(Body::PlayerShot), body_groups(Body::Player)),
        groups_interact(body_groups(Body::PlayerShot), body_groups(Body::Enemy)),
        groups_interact(body_groups(Body::EnemyShot), body_groups(Body::Player)),
        !groups_interact(body_groups(Body::EnemyShot), body_groups(Body::Enemy)),
        !groups_interact(body_groups(Body::EnemyShot), body_groups(Body::Civilian)),
        groups_interact(body_groups(Body::Player), body_groups(Body::Civilian)),
{
    assert(((1u32 | 4u32 | 16u32) & (2u32 | 16u32)) != 0u32 && ((2u32 | 16u32) & (1u32 | 4u32 | 16u32)) != 0u32) by (bit_vector);
    assert((2u32 & 4u32) == 0u32) by (bit_vector);
    assert((2u32 & (1u32 | 4u32 | 16u32)) == 0u32) by (bit_vector);
    assert((2u32 & (2u32 | 16u32)) != 0u32 && ((2u32 | 16u32) & 2u32) != 0u32) by (bit_vector);
    assert((1u32 & (1u32 | 4u32 | 16u32)) != 0u32 && ((1u32 | 4u32 | 16u32) & 1u32) != 0u32) by (bit_vector);
    assert((1u32 & (2u32 | 16u32)) == 0u32) by (bit_vector);
    assert((1u32 & 4u32) == 0u32) by (bit_vector);
    assert(((1u32 | 4u32 | 16u32) & 4u32) != 0u32 && (4u32 & (1u32 | 4u32 | 16u32)) != 0u32) by (bit_vector);
}

} // verus!
