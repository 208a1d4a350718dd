use vstd::prelude::*;

use crate::utils::{random_jitters, scatter_points, scatter_x, Position, JITTER_SPAN, SPAWN_HEIGHT};

verus! {

/// Number of peppers on a map: one per 10 blocks.
pub const PEPPER_COUNT: usize = 50;

/// Where the peppers of a map are dropped in: spread evenly over the map,
/// each shifted right by a random amount below `JITTER_SPAN`.
pub fn spawn_peppers() -> (r: Vec<Position>)
    ensures
        r.len() == PEPPER_COUNT,
        forall|i: int|
            0 <= i < PEPPER_COUNT ==> {
                &&& scatter_x(i, PEPPER_COUNT as int, 0) <= (#[trigger] r[i]).x
                &&& r[i].x < scatter_x(i, PEPPER_COUNT as int, JITTER_SPAN as int)
                &&& r[i].y == SPAWN_HEIGHT
            },
{
    let jitters = random_jitters(PEPPER_COUNT);
    scatter_points(&jitters)
}

} // verus!
