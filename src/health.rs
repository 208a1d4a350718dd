use vstd::prelude::*;

use crate::enemy::Enemy;
use crate::hud::UpdateHealthPointsEvent;

verus! {

/// Hit points an enemy starts with: 75.
pub const ENEMY_HEALTH: i64 = 7_500;

/// Hit points the player starts with: 500.
pub const PLAYER_HEALTH: i64 = 50_000;

/// Hit points one damage event takes from an enemy: 0.05.
pub const ENEMY_HIT: i64 = 5;

/// Hit points one damage event takes from the player: 0.1.
pub const PLAYER_HIT: i64 = 10;

/// A request to apply one hit of damage to the body with this identity.
#[derive(Debug, Clone, Copy, PartialEq, Eq, Structural)]
pub struct DamageEvent(pub u64);

/// Hit points, in hundredths of a point.
#[derive(Debug, Clone, Copy, PartialEq, Eq, Structural)]
pub struct Health(pub i64);

// ---------------------------------------------------------------------------
// Enemies

/// `i` is the first position of an enemy with identity `id`.
pub open spec fn first_with(s: Seq<Enemy>, id: u64, i: int) -> bool {
    &&& 0 <= i < s.len()
    &&& s[i].entity == id
    &&& forall|j: int| 0 <= j < i ==> (#[trigger] s[j]).entity != id
}

/// One damage event against enemy `id`: an enemy whose health is already
/// down to zero or below is despawned (taken out of the list and reported);
/// otherwise it loses `ENEMY_HIT`. An unknown identity changes nothing.
pub open spec fn enemy_hit(s: Seq<Enemy>, id: u64) -> (Seq<Enemy>, Seq<u64>) {
    if exists|i: int| first_with(s, id, i) {
        let i = choose|i: int| first_with(s, id, i);
        if s[i].health.0 <= 0 {
            (s.remove(i), seq![id])
        } else {
            (s.update(i, Enemy { health: Health((s[i].health.0 - ENEMY_HIT) as i64), ..s[i] }), seq![])
        }
    } else {
        (s, seq![])
    }
}

/// A sequence of damage events against the enemies, applied in order: the
/// enemies left, and the identities despawned, in order.
pub open spec fn enemy_damage_all(s: Seq<Enemy>, evs: Seq<DamageEvent>) -> (Seq<Enemy>, Seq<u64>)
    decreases evs.len(),
{
    if evs.len() == 0 {
        (s, seq![])
    } else {
        let (s1, d1) = enemy_damage_all(s, evs.drop_last());
        let (s2, d2) = enemy_hit(s1, evs.last().0);
        (s2, d1 + d2)
    }
}

proof fn lemma_first_unique(s: Seq<Enemy>, id: u64, i: int, k: int)
    requires
        first_with(s, id, i),
        first_with(s, id, k),
    ensures
        i == k,
{
    if i < k {
        assert(s[i].entity != id);
    } else if k < i {
        assert(s[k].entity != id);
    }
}

/// Number of hits that bring `h` hit points down to zero or below.
pub open spec fn hits_to_zero(h: int) -> int {
    if h <= 0 {
        0
    } else {
        (h + ENEMY_HIT - 1) / (ENEMY_HIT as int)
    }
}

/// `m` damage events against one enemy.
pub open spec fn hits_on(id: u64, m: nat) -> Seq<DamageEvent> {
    Seq::new(m, |_i: int| DamageEvent(id))
}

/// An enemy hit over and over, among other enemies with other identities,
/// is despawned on the event after the one that brings its health to zero
/// or below, never earlier: the first `hits_to_zero(h)` events each take
/// `ENEMY_HIT` from it, the next one despawns it, and later ones find
/// nothing. The other enemies are untouched throughout.
pub proof fn lemma_enemy_despawn_timing(
    before: Seq<Enemy>,
    after: Seq<Enemy>,
    id: u64,
    h: i64,
    m: nat,
)
    requires
        forall|j: int| 0 <= j < before.len() ==> (#[trigger] before[j]).entity != id,
        forall|j: int| 0 <= j < after.len() ==> (#[trigger] after[j]).entity != id,
    ensures
        m <= hits_to_zero(h as int) ==> enemy_damage_all(
            before + seq![Enemy { entity: id, health: Health(h) }] + after,
            hits_on(id, m),
        ) == (before + seq![Enemy { entity: id, health: Health((h - ENEMY_HIT * m) as i64) }]
            + after, Seq::<u64>::empty()),
        m > hits_to_zero(h as int) ==> enemy_damage_all(
            before + seq![Enemy { entity: id, health: Health(h) }] + after,
            hits_on(id, m),
        ) == (before + after, seq![id]),
    decreases m,
{
    let s0 = before + seq![Enemy { entity: id, health: Health(h) }] + after;
    let z = hits_to_zero(h as int);
    let k = before.len() as int;
    assert(h > 0 ==> h - ENEMY_HIT * z <= 0 && (z == 0 || h - ENEMY_HIT * (z - 1) > 0));
    if m > 0 {
        assert(hits_on(id, m).drop_last() =~= hits_on(id, (m - 1) as nat));
        lemma_enemy_despawn_timing(before, after, id, h, (m - 1) as nat);
        let prev = enemy_damage_all(s0, hits_on(id, (m - 1) as nat));
        if m - 1 <= z {
            let e = Enemy { entity: id, health: Health((h - ENEMY_HIT * (m - 1)) as i64) };
            let s = before + seq![e] + after;
            assert(prev.0 == s);
            assert(s[k] == e);
            assert forall|j: int| 0 <= j < k implies (#[trigger] s[j]).entity != id by {
                assert(s[j] == before[j]);
            }
            assert(first_with(s, id, k));
            assert forall|c: int| first_with(s, id, c) implies c == k by {
                lemma_first_unique(s, id, c, k);
            }
            if m - 1 < z {
                assert(h - ENEMY_HIT * (m - 1) > 0);
                let e2 = Enemy { entity: id, health: Health((h - ENEMY_HIT * m) as i64) };
                assert(s.update(k, e2) =~= before + seq![e2] + after);
                assert(Seq::<u64>::empty() + Seq::<u64>::empty() =~= Seq::<u64>::empty());
            } else {
                assert(h - ENEMY_HIT * (m - 1) <= 0);
                assert(s.remove(k) =~= before + after);
                assert(Seq::<u64>::empty() + seq![id] =~= seq![id]);
            }
        } else {
            let s = before + after;
            assert(prev == (s, seq![id]));
            assert forall|i: int| 0 <= i < s.len() implies (#[trigger] s[i]).entity != id by {
                if i < k {
                    assert(s[i] == before[i]);
                } else {
                    assert(s[i] == after[i - k]);
                }
            }
            assert(!exists|i: int| first_with(s, id, i));
            assert(seq![id] + Seq::<u64>::empty() =~= seq![id]);
        }
    }
}

fn find_enemy(enemies: &Vec<Enemy>, id: u64) -> (r: Option<usize>)
    ensures
        match r {
            Some(i) => first_with(enemies@, id, i as int),
            None => forall|i: int| 0 <= i < enemies.len() ==> (#[trigger] enemies@[i]).entity != id,
        },
{
    let mut i: usize = 0;
    while i < enemies.len()
        invariant
            i <= enemies.len(),
            forall|j: int| 0 <= j < i ==> (#[trigger] enemies@[j]).entity != id,
        decreases enemies.len() - i,
    {
        if enemies[i].entity == id {
            return Some(i);
        }
        i = i + 1;
    }
    None
}

/// Applies one damage event to the enemies: see `enemy_hit`.
pub fn hit_enemy(enemies: &mut Vec<Enemy>, target: u64, despawned: &mut Vec<u64>)
    ensures
        final(enemies)@ == enemy_hit(old(enemies)@, target).0,
        final(despawned)@ == old(despawned)@ + enemy_hit(old(enemies)@, target).1,
{
    let ghost s = enemies@;
    match find_enemy(enemies, target) {
        Some(i) => {
            proof {
                let c = choose|c: int| first_with(s, target, c);
                lemma_first_unique(s, target, i as int, c);
            }
            let e = enemies[i];
            if e.health.0 <= 0 {
                enemies.remove(i);
                despawned.push(target);
                assert(despawned@ =~= old(despawned)@ + seq![target]);
            } else {
                enemies.set(i, Enemy { health: Health(e.health.0 - ENEMY_HIT), ..e });
                assert(despawned@ =~= old(despawned)@ + Seq::<u64>::empty());
            }
        },
        None => {
            assert(despawned@ =~= old(despawned)@ + Seq::<u64>::empty());
        },
    }
}

/// Applies a frame's damage events to the enemies, in order; returns the
/// identities despawned. Events for other bodies are ignored.
pub fn damage_enemy(enemies: &mut Vec<Enemy>, events: &Vec<DamageEvent>) -> (r: Vec<u64>)
    ensures
        (final(enemies)@, r@) == enemy_damage_all(old(enemies)@, events@),
{
    let ghost s0 = enemies@;
    let mut despawned: Vec<u64> = Vec::new();
    let mut i: usize = 0;
    while i < events.len()
        invariant
            i <= events.len(),
            s0 == old(enemies)@,
            (enemies@, despawned@) == enemy_damage_all(s0, events@.take(i as int)),
        decreases events.len() - i,
    {
        assert(events@.take(i as int + 1).drop_last() =~= events@.take(i as int));
        hit_enemy(enemies, events[i].0, &mut despawned);
        i = i + 1;
    }
    assert(events@.take(events.len() as int) =~= events@);
    despawned
}

// ---------------------------------------------------------------------------
// The player

/// The player's damage state: hit points, whether the game is over, and the
/// health notifications issued.
pub struct PlayerDamageModel {
    pub health: int,
    pub game_over: bool,
    pub notes: Seq<UpdateHealthPointsEvent>,
}

/// One damage event: events for other bodies, and all events once the game
/// is over, change nothing. Otherwise a player already down to zero or below
/// ends the game; any other player loses `PLAYER_HIT` and the new value is
/// announced.
pub open spec fn player_hit(m: PlayerDamageModel, player: u64, ev: DamageEvent) -> PlayerDamageModel {
    if m.game_over || ev.0 != player {
        m
    } else if m.health <= 0 {
        PlayerDamageModel { game_over: true, ..m }
    } else {
        let h = m.health - PLAYER_HIT;
        PlayerDamageModel {
            health: h,
            game_over: false,
            notes: m.notes.push(UpdateHealthPointsEvent(h as i64)),
        }
    }
}

/// A sequence of damage events against the player, applied in order.
pub open spec fn player_damage_all(m: PlayerDamageModel, player: u64, evs: Seq<DamageEvent>) -> PlayerDamageModel
    decreases evs.len(),
{
    if evs.len() == 0 {
        m
    } else {
        player_hit(player_damage_all(m, player, evs.drop_last()), player, evs.last())
    }
}

/// What a frame of damage did to the player: the health notifications, in
/// order, and whether the game is over.
#[derive(Debug, Clone, PartialEq, Eq)]
pub struct PlayerDamage {
    pub notes: Vec<UpdateHealthPointsEvent>,
    pub game_over: bool,
}

/// Applies a frame's damage events to the player `player`, in order. Events
/// for other bodies are ignored; processing stops at game over.
pub fn damage_player(health: &mut Health, player: u64, events: &Vec<DamageEvent>) -> (r: PlayerDamage)
    ensures
        player_damage_all(
            PlayerDamageModel { health: old(health).0 as int, game_over: false, notes: seq![] },
            player,
            events@,
        ) == (PlayerDamageModel {
            health: final(health).0 as int,
            game_over: r.game_over,
            notes: r.notes@,
        }),
{
    let ghost m0 = PlayerDamageModel { health: health.0 as int, game_over: false, notes: seq![] };
    let mut notes: Vec<UpdateHealthPointsEvent> = Vec::new();
    let mut game_over = false;
    let mut i: usize = 0;
    while i < events.len()
        invariant
            i <= events.len(),
            m0 == (PlayerDamageModel { health: old(health).0 as int, game_over: false, notes: seq![] }),
            player_damage_all(m0, player, events@.take(i as int)) == (PlayerDamageModel {
                health: health.0 as int,
                game_over,
                notes: notes@,
            }),
        decreases events.len() - i,
    {
        assert(events@.take(i as int + 1).drop_last() =~= events@.take(i as int));
        if !game_over && events[i].0 == player {
            if health.0 <= 0 {
                game_over = true;
            } else {
                health.0 = health.0 - PLAYER_HIT;
                notes.push(UpdateHealthPointsEvent(health.0));
            }
        }
        i = i + 1;
    }
    assert(events@.take(events.len() as int) =~= events@);
    PlayerDamage { notes, game_over }
}

} // verus!
