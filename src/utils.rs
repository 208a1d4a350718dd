use rand::Rng;
use vstd::prelude::*;

verus! {

/// The interaction classes that every physical body is tagged with.
#[derive(Debug, Clone, Copy, PartialEq, Eq, Structural)]
pub enum Layers {
    Player,
    Enemy,
    Level,
    Pepper,
    Fireball,
}

/// The group bits a body belongs to, and the group bits it may collide with.
#[derive(Debug, Clone, Copy, PartialEq, Eq, Structural)]
pub struct CollisionLayers {
    pub groups: u32,
    pub masks: u32,
}

impl Layers {
    /// The bit of the layer in a group set: one bit per layer, in declaration
    /// order.
    pub open spec fn group_bit(self) -> u32 {
        match self {
            Layers::Player => 1,
            Layers::Enemy => 2,
            Layers::Level => 4,
            Layers::Pepper => 8,
            Layers::Fireball => 16,
        }
    }

    /// Whether a body of this layer may collide with a body of `other`.
    pub open spec fn collides_with(self, other: Layers) -> bool {
        match self {
            Layers::Player => other is Enemy || other is Level || other is Pepper,
            Layers::Enemy => other is Player || other is Level || other is Fireball,
            Layers::Level => other is Player || other is Enemy,
            Layers::Pepper => other is Player || other is Level,
            Layers::Fireball => other is Player || other is Enemy,
        }
    }

    /// The set of group bits of the layers this one collides with.
    pub open spec fn partner_bits(self) -> u32 {
        match self {
            Layers::Player => 14,  // Enemy, Level, Pepper
            Layers::Enemy => 21,  // Player, Level, Fireball
            Layers::Level => 3,  // Player, Enemy
            Layers::Pepper => 5,  // Player, Level
            Layers::Fireball => 3,  // Player, Enemy
        }
    }

    /// The layer's group bit.
    pub fn bit(&self) -> (r: u32)
        ensures
            r == self.group_bit(),
    {
        match self {
            Layers::Player => 1,
            Layers::Enemy => 2,
            Layers::Level => 4,
            Layers::Pepper => 8,
            Layers::Fireball => 16,
        }
    }

    /// The bits of every layer this one collides with.
    pub fn partners(&self) -> (r: u32)
        ensures
            r == self.partner_bits(),
    {
        match self {
            Layers::Player => 14,  // Enemy, Level, Pepper
            Layers::Enemy => 21,  // Player, Level, Fireball
            Layers::Level => 3,  // Player, Enemy
            Layers::Pepper => 5,  // Player, Level
            Layers::Fireball => 3,  // Player, Enemy
        }
    }

    /// The tag given to a body of this layer when it is spawned: its own
    /// group, and a mask of the layers it may collide with.
    pub fn collision_layers(&self) -> (r: CollisionLayers)
        ensures
            r.groups == self.group_bit(),
            r.masks == self.partner_bits(),
            forall|other: Layers|
                #![trigger other.group_bit()]
                (r.masks & other.group_bit() != 0) == self.collides_with(other),
    {
        proof {
            assert forall|other: Layers|
                #![trigger other.group_bit()]
                (self.partner_bits() & other.group_bit() != 0) == self.collides_with(other) by {
                assert(14u32 & 1 == 0 && 14u32 & 2 != 0 && 14u32 & 4 != 0 && 14u32 & 8 != 0
                    && 14u32 & 16 == 0) by (bit_vector);
                assert(21u32 & 1 != 0 && 21u32 & 2 == 0 && 21u32 & 4 != 0 && 21u32 & 8 == 0
                    && 21u32 & 16 != 0) by (bit_vector);
                assert(3u32 & 1 != 0 && 3u32 & 2 != 0 && 3u32 & 4 == 0 && 3u32 & 8 == 0
                    && 3u32 & 16 == 0) by (bit_vector);
                assert(5u32 & 1 != 0 && 5u32 & 2 == 0 && 5u32 & 4 != 0 && 5u32 & 8 == 0
                    && 5u32 & 16 == 0) by (bit_vector);
            }
        }
        CollisionLayers { groups: self.bit(), masks: self.partners() }
    }
}

impl CollisionLayers {
    /// Whether the body belongs to the group of `layer`.
    pub open spec fn in_group(self, layer: Layers) -> bool {
        self.groups & layer.group_bit() != 0
    }

    pub fn contains_group(&self, layer: Layers) -> (r: bool)
        ensures
            r == self.in_group(layer),
    {
        self.groups & layer.bit() != 0
    }
}

/// Which of the two bodies of a collision belongs to `target_layer`:
/// `Some(true)` for the first, `Some(false)` for the second (when the first
/// does not), `None` when neither does.
pub open spec fn group_side(layers: (CollisionLayers, CollisionLayers), target_layer: Layers) -> Option<bool> {
    if layers.0.in_group(target_layer) {
        Some(true)
    } else if layers.1.in_group(target_layer) {
        Some(false)
    } else {
        None
    }
}

pub fn has_group(layers: (CollisionLayers, CollisionLayers), target_layer: Layers) -> (r: Option<bool>)
    ensures
        r == group_side(layers, target_layer),
{
    let (l1, l2) = layers;
    if l1.contains_group(target_layer) {
        return Some(true);
    }
    if l2.contains_group(target_layer) {
        return Some(false);
    }
    None
}

/// A point in the world, in micro-units.
#[derive(Debug, Clone, Copy, PartialEq, Eq, Structural)]
pub struct Position {
    pub x: i64,
    pub y: i64,
}

/// A velocity, in pico-units per second.
#[derive(Debug, Clone, Copy, PartialEq, Eq, Structural)]
pub struct Velocity {
    pub x: i64,
    pub y: i64,
}

/// Left end of the stretch that enemies and peppers are scattered over:
/// five blocks in (0.5 units).
pub const SCATTER_START: i64 = 500_000;

/// Right end of that stretch: five blocks before the end of the map
/// (500 blocks of 0.1 units, less 0.5 units).
pub const SCATTER_END: i64 = 49_500_000;

/// Random shift added to each scattered point: below one unit (a random
/// fraction of ten block widths).
pub const JITTER_SPAN: u64 = 1_000_000;

/// Height at which scattered bodies are dropped in (0.75 units).
pub const SPAWN_HEIGHT: i64 = 750_000;

/// Bodies that fall below this height (−1.5 units) have left the playfield.
pub const FALL_LIMIT: i64 = -1_500_000;

/// Largest number of points that `scatter_points` places.
pub const MAX_SCATTER: usize = 1_000_000_000;

/// Relies on rand's `thread_rng` and `Rng::gen_range`: a value drawn from
/// `0..bound`. `gen_range` panics on an empty range, which `requires` rules
/// out.
#[verifier::external_body]
fn random_below(bound: u64) -> (r: u64)
    requires
        bound > 0,
    ensures
        r < bound,
{
    rand::thread_rng().gen_range(0..bound)
}

/// Horizontal position of point `index` of `count` spread evenly over the
/// scatter stretch (rounded down), shifted right by `jitter`.
pub open spec fn scatter_x(index: int, count: int, jitter: int) -> int {
    SCATTER_START + (SCATTER_END - SCATTER_START) * index / count + jitter
}

/// Random shifts, one per point, each below `JITTER_SPAN`.
pub fn random_jitters(count: usize) -> (r: Vec<u64>)
    ensures
        r.len() == count,
        forall|i: int| 0 <= i < count ==> #[trigger] r[i] < JITTER_SPAN,
{
    let mut out: Vec<u64> = Vec::new();
    let mut i: usize = 0;
    while i < count
        invariant
            i <= count,
            out.len() == i,
            forall|j: int| 0 <= j < i ==> #[trigger] out[j] < JITTER_SPAN,
        decreases count - i,
    {
        out.push(random_below(JITTER_SPAN));
        i = i + 1;
    }
    out
}

/// Points spread evenly over the scatter stretch, point `i` shifted right by
/// `jitters[i]`, all at the spawn height.
pub fn scatter_points(jitters: &Vec<u64>) -> (r: Vec<Position>)
    requires
        jitters.len() <= MAX_SCATTER,
        forall|i: int| 0 <= i < jitters.len() ==> #[trigger] jitters[i] < JITTER_SPAN,
    ensures
        r.len() == jitters.len(),
        forall|i: int|
            0 <= i < jitters.len() ==> {
                &&& (#[trigger] r[i]).x == scatter_x(i, jitters.len() as int, jitters[i] as int)
                &&& r[i].y == SPAWN_HEIGHT
            },
{
    let n = jitters.len();
    let span: u64 = (SCATTER_END - SCATTER_START) as u64;
    let mut out: Vec<Position> = Vec::new();
    let mut i: usize = 0;
    while i < n
        invariant
            n == jitters.len(),
            n <= MAX_SCATTER,
            span == SCATTER_END - SCATTER_START,
            forall|j: int| 0 <= j < n ==> #[trigger] jitters[j] < JITTER_SPAN,
            i <= n,
            out.len() == i,
            forall|j: int|
                0 <= j < i ==> {
                    &&& (#[trigger] out[j]).x == scatter_x(j, n as int, jitters[j] as int)
                    &&& out[j].y == SPAWN_HEIGHT
                },
        decreases n - i,
    {
        proof {
            let (ii, ni) = (i as int, n as int);
            assert(0 <= span * ii <= span * ni && span * ni <= 49_000_000 * 1_000_000_000)
                by (nonlinear_arith)
                requires
                    0 <= ii < ni <= 1_000_000_000,
                    span == 49_000_000,
            ;
            assert(span * ii / ni <= span) by (nonlinear_arith)
                requires
                    0 <= ii < ni,
                    0 <= span,
            ;
        }
        let along: u64 = span * (i as u64) / (n as u64);
        let x: i64 = SCATTER_START + along as i64 + jitters[i] as i64;
        out.push(Position { x, y: SPAWN_HEIGHT });
        i = i + 1;
    }
    out
}

} // verus!
