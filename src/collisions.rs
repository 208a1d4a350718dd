use vstd::prelude::*;

use crate::health::DamageEvent;
use crate::hud::UpdatePepperCountEvent;
use crate::player::Player;
use crate::utils::{group_side, has_group, CollisionLayers, Layers};

verus! {

/// Number of damage events queued against the player when an enemy touches
/// it: enough to knock the player out.
pub const KNOCKOUT_HITS: usize = 100;

/// One participant of a collision, as the physics host reports it.
#[derive(Debug, Clone, Copy, PartialEq, Eq, Structural)]
pub struct CollisionData {
    /// The body's identity in the physics host.
    pub entity: u64,
    /// The body's collision tag.
    pub layers: CollisionLayers,
}

/// A collision between two bodies that began (`started`) or stopped.
#[derive(Debug, Clone, Copy, PartialEq, Eq, Structural)]
pub struct CollisionEvent {
    pub started: bool,
    pub first: CollisionData,
    pub second: CollisionData,
}

/// The commands and notifications that collisions produce, in the order
/// they were issued.
#[derive(Debug, Clone, PartialEq, Eq)]
pub struct CollisionEffects {
    /// Bodies to despawn.
    pub despawned: Vec<u64>,
    /// New pepper totals to show.
    pub pepper_counts: Vec<UpdatePepperCountEvent>,
    /// Damage to apply.
    pub damage: Vec<DamageEvent>,
}

/// Mathematical model of `CollisionEffects`.
pub struct EffectsModel {
    pub despawned: Seq<u64>,
    pub pepper_counts: Seq<UpdatePepperCountEvent>,
    pub damage: Seq<DamageEvent>,
}

impl View for CollisionEffects {
    type V = EffectsModel;

    open spec fn view(&self) -> EffectsModel {
        EffectsModel {
            despawned: self.despawned@,
            pepper_counts: self.pepper_counts@,
            damage: self.damage@,
        }
    }
}

impl CollisionEvent {
    pub open spec fn layer_pair(self) -> (CollisionLayers, CollisionLayers) {
        (self.first.layers, self.second.layers)
    }
}

/// The participant of `ev` that belongs to `layer`, if any, as a one-element
/// sequence (the first body is preferred when both belong to it).
pub open spec fn tagged(ev: CollisionEvent, layer: Layers) -> Seq<(u64, Layers)> {
    match group_side(ev.layer_pair(), layer) {
        Some(true) => seq![(ev.first.entity, layer)],
        Some(false) => seq![(ev.second.entity, layer)],
        None => seq![],
    }
}

/// The recognised participants of a collision, one per layer that either
/// body belongs to, in the order Level, Fireball, Enemy, Pepper, Player.
pub open spec fn participants(ev: CollisionEvent) -> Seq<(u64, Layers)> {
    tagged(ev, Layers::Level) + tagged(ev, Layers::Fireball) + tagged(ev, Layers::Enemy) + tagged(
        ev,
        Layers::Pepper,
    ) + tagged(ev, Layers::Player)
}

/// The body of a pair of participants that carries `layer`.
pub open spec fn find_layer(ps: Seq<(u64, Layers)>, layer: Layers) -> Option<u64> {
    if ps.len() > 0 && ps[0].1 == layer {
        Some(ps[0].0)
    } else if ps.len() > 1 && ps[1].1 == layer {
        Some(ps[1].0)
    } else {
        None
    }
}

/// The damage queued against `target` when an enemy touches the player.
pub open spec fn knockout(target: u64) -> Seq<DamageEvent> {
    Seq::new(KNOCKOUT_HITS as nat, |_i: int| DamageEvent(target))
}

/// What a contact of the player has on the player and the effects: the
/// ground flag follows the contact, a touched pepper is collected and
/// despawned, a touching enemy queues the knockout damage.
pub open spec fn player_contact(
    p: Player,
    m: EffectsModel,
    started: bool,
    player: u64,
    pepper: Option<u64>,
    enemy: Option<u64>,
) -> (Player, EffectsModel) {
    let p1 = Player { jumped: !started, ..p };
    let (p2, m2) = match pepper {
        Some(id) => {
            let count = (p.peppers + 1) as u32;
            (
                Player { peppers: count, ..p1 },
                EffectsModel {
                    despawned: m.despawned.push(id),
                    pepper_counts: m.pepper_counts.push(UpdatePepperCountEvent(count)),
                    damage: m.damage,
                },
            )
        },
        None => (p1, m),
    };
    match enemy {
        Some(_) => (p2, EffectsModel { damage: m2.damage + knockout(player), ..m2 }),
        None => (p2, m2),
    }
}

/// The outcome of one collision event, from the player state and the
/// effects so far. An event with other than two recognised participants
/// has no effect.
pub open spec fn resolve_step(p: Player, m: EffectsModel, ev: CollisionEvent) -> (
    Player,
    EffectsModel,
) {
    let ps = participants(ev);
    if ps.len() != 2 {
        (p, m)
    } else {
        let player = find_layer(ps, Layers::Player);
        let pepper = find_layer(ps, Layers::Pepper);
        let fireball = find_layer(ps, Layers::Fireball);
        let level = find_layer(ps, Layers::Level);
        let enemy = find_layer(ps, Layers::Enemy);
        let (p1, m1) = match player {
            Some(id) => player_contact(p, m, ev.started, id, pepper, enemy),
            None => (p, m),
        };
        let m2 = if level is Some && fireball is Some {
            EffectsModel { despawned: m1.despawned.push(fireball->0), ..m1 }
        } else {
            m1
        };
        let m3 = if enemy is Some && fireball is Some {
            EffectsModel {
                despawned: m2.despawned.push(fireball->0),
                damage: m2.damage.push(DamageEvent(enemy->0)),
                ..m2
            }
        } else {
            m2
        };
        (p1, m3)
    }
}

/// The outcome of a sequence of collision events, applied in order.
pub open spec fn resolve_all(p: Player, m: EffectsModel, evs: Seq<CollisionEvent>) -> (
    Player,
    EffectsModel,
)
    decreases evs.len(),
{
    if evs.len() == 0 {
        (p, m)
    } else {
        let (p1, m1) = resolve_all(p, m, evs.drop_last());
        resolve_step(p1, m1, evs.last())
    }
}

/// Whether an event collects a pepper: two recognised participants, one the
/// player and the other a pepper.
pub open spec fn picks_pepper(ev: CollisionEvent) -> bool {
    let ps = participants(ev);
    &&& ps.len() == 2
    &&& find_layer(ps, Layers::Player) is Some
    &&& find_layer(ps, Layers::Pepper) is Some
}

/// Number of events in `evs` that collect a pepper.
pub open spec fn pepper_pickups(evs: Seq<CollisionEvent>) -> nat
    decreases evs.len(),
{
    if evs.len() == 0 {
        0
    } else {
        pepper_pickups(evs.drop_last()) + if picks_pepper(evs.last()) {
            1nat
        } else {
            0nat
        }
    }
}

proof fn lemma_pickups_prefix(evs: Seq<CollisionEvent>, i: int)
    requires
        0 <= i <= evs.len(),
    ensures
        pepper_pickups(evs.take(i)) <= pepper_pickups(evs),
    decreases evs.len() - i,
{
    if i == evs.len() {
        assert(evs.take(i) =~= evs);
    } else {
        lemma_pickups_prefix(evs, i + 1);
        assert(evs.take(i + 1).drop_last() =~= evs.take(i));
    }
}

pub open spec fn no_effects() -> EffectsModel {
    EffectsModel { despawned: seq![], pepper_counts: seq![], damage: seq![] }
}

proof fn lemma_one_group_bits()
    ensures
        1u32 & 1 != 0 && 1u32 & 2 == 0 && 1u32 & 4 == 0 && 1u32 & 8 == 0 && 1u32 & 16 == 0,
        2u32 & 1 == 0 && 2u32 & 2 != 0 && 2u32 & 4 == 0 && 2u32 & 8 == 0 && 2u32 & 16 == 0,
        8u32 & 1 == 0 && 8u32 & 2 == 0 && 8u32 & 4 == 0 && 8u32 & 8 != 0 && 8u32 & 16 == 0,
{
    assert(1u32 & 1 != 0 && 1u32 & 2 == 0 && 1u32 & 4 == 0 && 1u32 & 8 == 0 && 1u32 & 16 == 0)
        by (bit_vector);
    assert(2u32 & 1 == 0 && 2u32 & 2 != 0 && 2u32 & 4 == 0 && 2u32 & 8 == 0 && 2u32 & 16 == 0)
        by (bit_vector);
    assert(8u32 & 1 == 0 && 8u32 & 2 == 0 && 8u32 & 4 == 0 && 8u32 & 8 != 0 && 8u32 & 16 == 0)
        by (bit_vector);
}

/// A contact between the player and a pepper, begun or stopped, collects
/// the pepper: the count goes up by exactly one, one notification carries
/// the new total, the pepper is despawned, and no damage is queued.
pub proof fn lemma_pepper_pickup(
    p: Player,
    m: EffectsModel,
    started: bool,
    player: CollisionData,
    pepper: CollisionData,
)
    requires
        player.layers.groups == Layers::Player.group_bit(),
        pepper.layers.groups == Layers::Pepper.group_bit(),
        p.peppers < u32::MAX,
    ensures
        ({
            let (p1, m1) = resolve_step(
                p,
                m,
                CollisionEvent { started, first: player, second: pepper },
            );
            &&& p1 == (Player { jumped: !started, peppers: (p.peppers + 1) as u32, ..p })
            &&& m1.pepper_counts == m.pepper_counts.push(
                UpdatePepperCountEvent((p.peppers + 1) as u32),
            )
            &&& m1.despawned == m.despawned.push(pepper.entity)
            &&& m1.damage == m.damage
        }),
{
    lemma_one_group_bits();
    let ev = CollisionEvent { started, first: player, second: pepper };
    assert(participants(ev) =~= seq![(pepper.entity, Layers::Pepper), (player.entity, Layers::Player)]);
}

/// A contact between the player and an enemy queues exactly
/// `KNOCKOUT_HITS` (100) damage events, all against the player, and nothing
/// else: no despawn, no pepper.
pub proof fn lemma_enemy_touch(
    p: Player,
    m: EffectsModel,
    started: bool,
    player: CollisionData,
    enemy: CollisionData,
)
    requires
        player.layers.groups == Layers::Player.group_bit(),
        enemy.layers.groups == Layers::Enemy.group_bit(),
    ensures
        ({
            let (p1, m1) = resolve_step(p, m, CollisionEvent { started, first: player, second: enemy });
            &&& p1 == (Player { jumped: !started, ..p })
            &&& m1.damage == m.damage + knockout(player.entity)
            &&& knockout(player.entity).len() == 100
            &&& forall|i: int|
                0 <= i < 100 ==> #[trigger] knockout(player.entity)[i] == DamageEvent(player.entity)
            &&& m1.despawned == m.despawned
            &&& m1.pepper_counts == m.pepper_counts
        }),
{
    lemma_one_group_bits();
    let ev = CollisionEvent { started, first: player, second: enemy };
    assert(participants(ev) =~= seq![(enemy.entity, Layers::Enemy), (player.entity, Layers::Player)]);
}

fn push_tagged(entities: &mut Vec<(u64, Layers)>, ev: &CollisionEvent, layer: Layers)
    ensures
        final(entities)@ == old(entities)@ + tagged(*ev, layer),
{
    match has_group((ev.first.layers, ev.second.layers), layer) {
        Some(true) => entities.push((ev.first.entity, layer)),
        Some(false) => entities.push((ev.second.entity, layer)),
        None => {},
    }
    assert(entities@ =~= old(entities)@ + tagged(*ev, layer));
}

/// The recognised participants of a collision, with the layer each was
/// recognised by.
pub fn entities_from_event(ev: &CollisionEvent) -> (r: Vec<(u64, Layers)>)
    ensures
        r@ == participants(*ev),
{
    let mut entities: Vec<(u64, Layers)> = Vec::new();
    push_tagged(&mut entities, ev, Layers::Level);
    push_tagged(&mut entities, ev, Layers::Fireball);
    push_tagged(&mut entities, ev, Layers::Enemy);
    push_tagged(&mut entities, ev, Layers::Pepper);
    push_tagged(&mut entities, ev, Layers::Player);
    assert(entities@ =~= participants(*ev));
    entities
}

fn find(entities: &Vec<(u64, Layers)>, layer: Layers) -> (r: Option<u64>)
    requires
        entities.len() == 2,
    ensures
        r == find_layer(entities@, layer),
{
    if entities[0].1 == layer {
        Some(entities[0].0)
    } else if entities[1].1 == layer {
        Some(entities[1].0)
    } else {
        None
    }
}

fn push_knockout(damage: &mut Vec<DamageEvent>, target: u64)
    ensures
        final(damage)@ == old(damage)@ + knockout(target),
{
    let ghost start = damage@;
    let mut i: usize = 0;
    while i < KNOCKOUT_HITS
        invariant
            i <= KNOCKOUT_HITS,
            damage@ =~= start + Seq::new(i as nat, |_j: int| DamageEvent(target)),
        decreases KNOCKOUT_HITS - i,
    {
        damage.push(DamageEvent(target));
        i = i + 1;
    }
}

/// Applies one collision event: see `resolve_step`.
pub fn resolve_collision(player: &mut Player, ev: &CollisionEvent, effects: &mut CollisionEffects)
    requires
        picks_pepper(*ev) ==> old(player).peppers < u32::MAX,
    ensures
        (*final(player), final(effects)@) == resolve_step(*old(player), old(effects)@, *ev),
{
    let entities = entities_from_event(ev);
    if entities.len() != 2 {
        return;
    }
    let player_entity = find(&entities, Layers::Player);
    let pepper = find(&entities, Layers::Pepper);
    let fireball = find(&entities, Layers::Fireball);
    let level = find(&entities, Layers::Level);
    let enemy = find(&entities, Layers::Enemy);

    // Interactions with the player
    if let Some(id) = player_entity {
        player.jumped = !ev.started;
        if let Some(pepper_entity) = pepper {
            player.peppers = player.peppers + 1;
            effects.pepper_counts.push(UpdatePepperCountEvent(player.peppers));
            effects.despawned.push(pepper_entity);
        }
        if enemy.is_some() {
            push_knockout(&mut effects.damage, id);
        }
    }
    // A fireball that hits the level is gone
    if level.is_some() {
        if let Some(fireball_entity) = fireball {
            effects.despawned.push(fireball_entity);
        }
    }
    // Interactions with an enemy
    if let Some(enemy_entity) = enemy {
        if let Some(fireball_entity) = fireball {
            effects.damage.push(DamageEvent(enemy_entity));
            effects.despawned.push(fireball_entity);
        }
    }
}

/// Applies a frame's collision events in order, starting with no effects.
pub fn collisions(player: &mut Player, events: &Vec<CollisionEvent>) -> (r: CollisionEffects)
    requires
        old(player).peppers + pepper_pickups(events@) <= u32::MAX,
    ensures
        (*final(player), r@) == resolve_all(*old(player), no_effects(), events@),
{
    let mut effects = CollisionEffects {
        despawned: Vec::new(),
        pepper_counts: Vec::new(),
        damage: Vec::new(),
    };
    let ghost p0 = *player;
    let mut i: usize = 0;
    while i < events.len()
        invariant
            i <= events.len(),
            p0 == *old(player),
            p0.peppers + pepper_pickups(events@) <= u32::MAX,
            player.peppers == p0.peppers + pepper_pickups(events@.take(i as int)),
            (*player, effects@) == resolve_all(p0, no_effects(), events@.take(i as int)),
        decreases events.len() - i,
    {
        assert(events@.take(i as int + 1).drop_last() =~= events@.take(i as int));
        proof {
            lemma_pickups_prefix(events@, i as int + 1);
        }
        resolve_collision(player, &events[i], &mut effects);
        i = i + 1;
    }
    assert(events@.take(events.len() as int) =~= events@);
    effects
}

} // verus!
