use vstd::prelude::*;

use crate::utils::{Position, Velocity, FALL_LIMIT};

verus! {

/// Launch speed per distance to the target: five times the distance per
/// second, converted from micro-units to pico-units per second.
pub const LAUNCH_FACTOR: i64 = 5_000_000;

/// Largest coordinate magnitude a fireball is launched from or towards
/// (100_000 units).
pub const POSITION_BOUND: i64 = 100_000_000_000;

/// A request to launch a fireball from `spawn_point` towards `target`.
#[derive(Debug, Clone, Copy, PartialEq, Eq, Structural)]
pub struct SpawnFireballEvent {
    pub spawn_point: Position,
    pub target: Position,
}

/// A fireball in flight.
#[derive(Debug, Clone, Copy, PartialEq, Eq, Structural)]
pub struct Fireball {
    pub entity: u64,
    pub position: Position,
}

pub open spec fn in_bounds(p: Position) -> bool {
    -POSITION_BOUND <= p.x <= POSITION_BOUND && -POSITION_BOUND <= p.y <= POSITION_BOUND
}

/// The initial velocity of a fireball: aimed from the spawn point at the
/// target, with a speed of five times the distance per second. The unit
/// direction times five times the distance is five times the offset.
pub fn launch_velocity(ev: &SpawnFireballEvent) -> (r: Velocity)
    requires
        in_bounds(ev.spawn_point),
        in_bounds(ev.target),
    ensures
        r.x == LAUNCH_FACTOR * (ev.target.x - ev.spawn_point.x),
        r.y == LAUNCH_FACTOR * (ev.target.y - ev.spawn_point.y),
{
    let dx = ev.target.x - ev.spawn_point.x;
    let dy = ev.target.y - ev.spawn_point.y;
    Velocity { x: LAUNCH_FACTOR * dx, y: LAUNCH_FACTOR * dy }
}

/// A fireball is requested on the frame the primary button goes down (one
/// per press) while the cursor is over the world: it starts at the player
/// and aims at the cursor's world position.
pub fn create_fireball(just_pressed: bool, player: Position, cursor: Option<Position>) -> (r: Option<
    SpawnFireballEvent,
>)
    ensures
        r == if just_pressed && cursor is Some {
            Some(SpawnFireballEvent { spawn_point: player, target: cursor->0 })
        } else {
            None
        },
{
    if just_pressed {
        if let Some(target) = cursor {
            return Some(SpawnFireballEvent { spawn_point: player, target });
        }
    }
    None
}

/// The fireballs that fell below the playfield, in order.
pub open spec fn fallen(s: Seq<Fireball>) -> Seq<u64>
    decreases s.len(),
{
    if s.len() == 0 {
        seq![]
    } else if s.last().position.y < FALL_LIMIT {
        fallen(s.drop_last()).push(s.last().entity)
    } else {
        fallen(s.drop_last())
    }
}

/// The fireballs to despawn because they left the playfield downwards.
pub fn despawn_fireball(fireballs: &Vec<Fireball>) -> (r: Vec<u64>)
    ensures
        r@ == fallen(fireballs@),
{
    let mut out: Vec<u64> = Vec::new();
    let mut i: usize = 0;
    while i < fireballs.len()
        invariant
            i <= fireballs.len(),
            out@ == fallen(fireballs@.take(i as int)),
        decreases fireballs.len() - i,
    {
        assert(fireballs@.take(i as int + 1).drop_last() =~= fireballs@.take(i as int));
        if fireballs[i].position.y < FALL_LIMIT {
            out.push(fireballs[i].entity);
        }
        i = i + 1;
    }
    assert(fireballs@.take(fireballs.len() as int) =~= fireballs@);
    out
}

} // verus!
