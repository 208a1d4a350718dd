use vstd::prelude::*;

use crate::health::{Health, ENEMY_HEALTH};
use crate::utils::{random_jitters, scatter_points, scatter_x, Position, JITTER_SPAN, SPAWN_HEIGHT};

verus! {

/// Number of enemies on a map: one per 25 blocks.
pub const ENEMY_COUNT: usize = 20;

/// An enemy body and its hit points.
#[derive(Debug, Clone, Copy, PartialEq, Eq, Structural)]
pub struct Enemy {
    pub entity: u64,
    pub health: Health,
}

impl Enemy {
    /// A freshly spawned enemy: full health of 75 points.
    pub fn spawned(entity: u64) -> (r: Enemy)
        ensures
            r == (Enemy { entity, health: Health(ENEMY_HEALTH) }),
    {
        Enemy { entity, health: Health(ENEMY_HEALTH) }
    }
}

/// Where the enemies of a map are dropped in: spread evenly over the map,
/// each shifted right by a random amount below `JITTER_SPAN`.
pub fn spawn_enemies() -> (r: Vec<Position>)
    ensures
        r.len() == ENEMY_COUNT,
        forall|i: int|
            0 <= i < ENEMY_COUNT ==> {
                &&& scatter_x(i, ENEMY_COUNT as int, 0) <= (#[trigger] r[i]).x
                &&& r[i].x < scatter_x(i, ENEMY_COUNT as int, JITTER_SPAN as int)
                &&& r[i].y == SPAWN_HEIGHT
            },
{
    let jitters = random_jitters(ENEMY_COUNT);
    scatter_points(&jitters)
}

} // verus!
