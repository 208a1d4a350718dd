use vstd::prelude::*;

use crate::collisions::CollisionEvent;
use crate::utils::{CollisionLayers, Layers, Position, Velocity, FALL_LIMIT};

verus! {

/// Side of the player's square body: half a block (0.05 units).
pub const PLAYER_SIZE: i64 = 50_000;

/// Where the player appears, and reappears after falling off the map.
pub const SPAWN_X: i64 = 0;

pub const SPAWN_Y: i64 = 750_000;

/// Largest speed, jump height or velocity limit factor the controller takes.
pub const MAX_FACTOR: i64 = 100_000;

/// Longest tick the controller takes: one second, in microseconds.
pub const MAX_TICK: i64 = 1_000_000;

/// Largest velocity component the controller takes, in pico-units per second.
pub const VELOCITY_BOUND: i64 = 1_000_000_000_000_000_000;

/// The player character's own state.
#[derive(Debug, Clone, Copy, PartialEq, Eq, Structural)]
pub struct Player {
    /// Horizontal acceleration factor.
    pub speed: i64,
    /// Jump acceleration factor.
    pub jump_height: i64,
    /// Set while the player is off the ground; cleared by a contact.
    pub jumped: bool,
    /// Number of peppers collected so far.
    pub peppers: u32,
}

/// Velocity caps of the player, as factors of its size per unit of time.
#[derive(Debug, Clone, Copy, PartialEq, Eq, Structural)]
pub struct Limits {
    pub max_velocity_x: i64,
    pub max_velocity_y: i64,
}

/// The movement keys held during a tick.
#[derive(Debug, Clone, Copy, PartialEq, Eq, Structural)]
pub struct MoveInput {
    /// Jump (W or Space).
    pub jump: bool,
    /// Left (A or Left arrow).
    pub left: bool,
    /// Right (D or Right arrow).
    pub right: bool,
}

impl Player {
    /// The player as spawned: speed 100, jump height 1500, on the ground,
    /// no pepper collected.
    pub fn new() -> (r: Player)
        ensures
            r == (Player { speed: 100, jump_height: 1500, jumped: false, peppers: 0 }),
    {
        Player { speed: 100, jump_height: 1500, jumped: false, peppers: 0 }
    }
}

impl Limits {
    /// The player's caps: 2000 horizontally, 3000 vertically.
    pub fn new() -> (r: Limits)
        ensures
            r == (Limits { max_velocity_x: 2000, max_velocity_y: 3000 }),
    {
        Limits { max_velocity_x: 2000, max_velocity_y: 3000 }
    }
}

// ---------------------------------------------------------------------------
// Movement

/// Factors and velocities within the controller's range.
pub open spec fn controllable(p: Player, l: Limits, v: Velocity, dt: int) -> bool {
    &&& 0 <= p.speed <= MAX_FACTOR
    &&& 0 <= p.jump_height <= MAX_FACTOR
    &&& 0 <= l.max_velocity_x <= MAX_FACTOR
    &&& 0 <= l.max_velocity_y <= MAX_FACTOR
    &&& 0 <= dt <= MAX_TICK
    &&& -VELOCITY_BOUND <= v.x <= VELOCITY_BOUND
    &&& -VELOCITY_BOUND <= v.y <= VELOCITY_BOUND
}

/// The horizontal cap for a tick of `dt` microseconds.
pub open spec fn max_x(l: Limits, dt: int) -> int {
    l.max_velocity_x * PLAYER_SIZE * dt
}

/// The vertical cap for a tick of `dt` microseconds.
pub open spec fn max_y(l: Limits, dt: int) -> int {
    l.max_velocity_y * PLAYER_SIZE * dt
}

pub open spec fn abs(a: int) -> int {
    if a < 0 {
        -a
    } else {
        a
    }
}

/// The velocity after one tick: a constant bias of size · dt downward, for
/// extra gravity; then a
/// jump if it is held, the player has not jumped and the vertical speed is
/// within its cap; then a push left if it is held and the horizontal
/// velocity is still above minus its cap; then a push right if it is held
/// and the horizontal velocity (after the push left) is still below its cap.
/// Once a direction's cap is reached, that direction stops accelerating.
pub open spec fn movement(p: Player, l: Limits, v: Velocity, input: MoveInput, dt: int) -> (int, int) {
    let vy1: int = v.y - PLAYER_SIZE * dt;
    let vy2 = if !p.jumped && abs(vy1) <= max_y(l, dt) && input.jump {
        vy1 + p.jump_height * PLAYER_SIZE * dt
    } else {
        vy1
    };
    let push = p.speed * PLAYER_SIZE * dt;
    let vx1 = if v.x > -max_x(l, dt) && input.left {
        v.x - push
    } else {
        v.x as int
    };
    let vx2 = if vx1 < max_x(l, dt) && input.right {
        vx1 + push
    } else {
        vx1
    };
    (vx2, vy2)
}

proof fn lemma_factor_bound(f: int, dt: int)
    requires
        0 <= f <= MAX_FACTOR,
        0 <= dt <= MAX_TICK,
    ensures
        0 <= f * PLAYER_SIZE * dt <= MAX_FACTOR * PLAYER_SIZE * MAX_TICK,
{
    assert(0 <= f * PLAYER_SIZE * dt <= MAX_FACTOR * PLAYER_SIZE * MAX_TICK) by (nonlinear_arith)
        requires
            0 <= f <= MAX_FACTOR,
            0 <= dt <= MAX_TICK,
            PLAYER_SIZE == 50_000,
    ;
}

/// Applies one tick of `delta` microseconds of held keys to the player's
/// velocity.
pub fn player_movement(
    player: &Player,
    limits: &Limits,
    velocity: &mut Velocity,
    input: MoveInput,
    delta: i64,
)
    requires
        controllable(*player, *limits, *old(velocity), delta as int),
    ensures
        (final(velocity).x as int, final(velocity).y as int) == movement(
            *player,
            *limits,
            *old(velocity),
            input,
            delta as int,
        ),
{
    proof {
        lemma_factor_bound(limits.max_velocity_x as int, delta as int);
        lemma_factor_bound(limits.max_velocity_y as int, delta as int);
        lemma_factor_bound(player.speed as int, delta as int);
        lemma_factor_bound(player.jump_height as int, delta as int);
        lemma_factor_bound(1, delta as int);
    }
    let max_y = limits.max_velocity_y * PLAYER_SIZE * delta;
    let max_x = limits.max_velocity_x * PLAYER_SIZE * delta;

    velocity.y = velocity.y - PLAYER_SIZE * delta;

    if !player.jumped && (velocity.y >= -max_y && velocity.y <= max_y) {
        if input.jump {
            velocity.y = velocity.y + player.jump_height * PLAYER_SIZE * delta;
        }
    }
    let push = player.speed * PLAYER_SIZE * delta;
    if velocity.x > -max_x && input.left {
        velocity.x = velocity.x - push;
    }
    if velocity.x < max_x && input.right {
        velocity.x = velocity.x + push;
    }
}

/// Once the horizontal velocity is at or past its cap, holding right no
/// longer speeds the player up, while holding left still slows it down.
pub proof fn lemma_soft_clamp(p: Player, l: Limits, v: Velocity, jump: bool, dt: int)
    requires
        controllable(p, l, v, dt),
        v.x >= max_x(l, dt),
    ensures
        movement(p, l, v, MoveInput { jump, left: false, right: true }, dt).0 == v.x,
        max_x(l, dt) > 0 ==> movement(p, l, v, MoveInput { jump, left: true, right: false }, dt).0
            == v.x - p.speed * PLAYER_SIZE * dt,
        max_x(l, dt) > 0 && p.speed > 0 ==> movement(
            p,
            l,
            v,
            MoveInput { jump, left: true, right: false },
            dt,
        ).0 < v.x,
{
    lemma_factor_bound(l.max_velocity_x as int, dt);
    assert(max_x(l, dt) > 0 && p.speed > 0 ==> p.speed * PLAYER_SIZE * dt > 0) by (nonlinear_arith)
        requires
            max_x(l, dt) == l.max_velocity_x * PLAYER_SIZE * dt,
            0 <= l.max_velocity_x,
            0 <= dt,
    ;
}

/// Holding right alone pushes by `speed · size · dt` exactly while the
/// horizontal velocity is below its cap, and not at all from the cap up; so
/// the velocity ends less than one push past the cap.
pub proof fn lemma_right_push(p: Player, l: Limits, v: Velocity, jump: bool, dt: int)
    requires
        controllable(p, l, v, dt),
    ensures
        v.x < max_x(l, dt) ==> movement(p, l, v, MoveInput { jump, left: false, right: true }, dt).0
            == v.x + p.speed * PLAYER_SIZE * dt,
        v.x >= max_x(l, dt) ==> movement(p, l, v, MoveInput { jump, left: false, right: true }, dt).0
            == v.x,
        v.x < max_x(l, dt) ==> movement(p, l, v, MoveInput { jump, left: false, right: true }, dt).0
            < max_x(l, dt) + p.speed * PLAYER_SIZE * dt,
{
}

/// Puts a player that fell below the map back at the spawn point, at rest.
pub fn reset_player(position: &mut Position, velocity: &mut Velocity)
    ensures
        old(position).y < FALL_LIMIT ==> *final(position) == (Position { x: SPAWN_X, y: SPAWN_Y })
            && *final(velocity) == (Velocity { x: 0, y: 0 }),
        old(position).y >= FALL_LIMIT ==> *final(position) == *old(position) && *final(velocity)
            == *old(velocity),
{
    if position.y < FALL_LIMIT {
        *position = Position { x: SPAWN_X, y: SPAWN_Y };
        *velocity = Velocity { x: 0, y: 0 };
    }
}

// ---------------------------------------------------------------------------
// Ground contact

/// Whether a collision is between the player (first or second) and the level.
pub open spec fn level_contact(ev: CollisionEvent) -> bool {
    ||| ev.first.layers.in_group(Layers::Player) && ev.second.layers.in_group(Layers::Level)
    ||| ev.first.layers.in_group(Layers::Level) && ev.second.layers.in_group(Layers::Player)
}

/// The `jumped` flag after a sequence of events: the last contact between
/// the player and the level decides (a begun contact clears it, a stopped
/// one sets it); without one it is unchanged.
pub open spec fn jumped_after(jumped: bool, evs: Seq<CollisionEvent>) -> bool
    decreases evs.len(),
{
    if evs.len() == 0 {
        jumped
    } else if level_contact(evs.last()) {
        !evs.last().started
    } else {
        jumped_after(jumped, evs.drop_last())
    }
}

/// Whether the first body is the player and the second the level, and
/// whether it is the other way round.
pub fn collided_level(layers: (CollisionLayers, CollisionLayers)) -> (r: (bool, bool))
    ensures
        r.0 == (layers.0.in_group(Layers::Player) && layers.1.in_group(Layers::Level)),
        r.1 == (layers.0.in_group(Layers::Level) && layers.1.in_group(Layers::Player)),
{
    let (l1, l2) = layers;
    let is_player = l1.contains_group(Layers::Player) && l2.contains_group(Layers::Level);
    let is_level = l1.contains_group(Layers::Level) && l2.contains_group(Layers::Player);
    (is_player, is_level)
}

/// Tracks the player's ground contact through a frame's collision events.
pub fn can_jump(player: &mut Player, events: &Vec<CollisionEvent>)
    ensures
        *final(player) == (Player { jumped: jumped_after(old(player).jumped, events@), ..*old(player) }),
{
    let mut i: usize = 0;
    while i < events.len()
        invariant
            i <= events.len(),
            *player == (Player {
                jumped: jumped_after(old(player).jumped, events@.take(i as int)),
                ..*old(player)
            }),
        decreases events.len() - i,
    {
        assert(events@.take(i as int + 1).drop_last() =~= events@.take(i as int));
        let ev = &events[i];
        let (is_player, is_level) = collided_level((ev.first.layers, ev.second.layers));
        if is_player || is_level {
            player.jumped = !ev.started;
        }
        i = i + 1;
    }
    assert(events@.take(events.len() as int) =~= events@);
}

} // verus!
