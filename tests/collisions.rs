use kajam::collisions::{
    collisions, entities_from_event, resolve_collision, CollisionData, CollisionEffects,
    CollisionEvent, KNOCKOUT_HITS,
};
use kajam::health::DamageEvent;
use kajam::hud::UpdatePepperCountEvent;
use kajam::player::{can_jump, collided_level, Player};
use kajam::utils::{has_group, CollisionLayers, Layers};

fn body(entity: u64, layer: Layers) -> CollisionData {
    CollisionData { entity, layers: layer.collision_layers() }
}

fn event(started: bool, a: CollisionData, b: CollisionData) -> CollisionEvent {
    CollisionEvent { started, first: a, second: b }
}

fn untagged(entity: u64) -> CollisionData {
    CollisionData { entity, layers: CollisionLayers { groups: 0, masks: 0 } }
}

#[test]
fn layer_table() {
    let bits: Vec<u32> = [Layers::Player, Layers::Enemy, Layers::Level, Layers::Pepper, Layers::Fireball]
        .iter()
        .map(|l| l.bit())
        .collect();
    assert_eq!(bits, vec![1, 2, 4, 8, 16]);
    assert_eq!(Layers::Player.collision_layers(), CollisionLayers { groups: 1, masks: 2 | 4 | 8 });
    assert_eq!(Layers::Enemy.collision_layers(), CollisionLayers { groups: 2, masks: 1 | 4 | 16 });
    assert_eq!(Layers::Level.collision_layers(), CollisionLayers { groups: 4, masks: 1 | 2 });
    assert_eq!(Layers::Pepper.collision_layers(), CollisionLayers { groups: 8, masks: 1 | 4 });
    assert_eq!(Layers::Fireball.collision_layers(), CollisionLayers { groups: 16, masks: 1 | 2 });
}

#[test]
fn has_group_prefers_first_body() {
    let p = Layers::Player.collision_layers();
    let e = Layers::Enemy.collision_layers();
    assert_eq!(has_group((p, e), Layers::Player), Some(true));
    assert_eq!(has_group((e, p), Layers::Player), Some(false));
    assert_eq!(has_group((p, p), Layers::Player), Some(true));
    assert_eq!(has_group((p, e), Layers::Level), None);
}

#[test]
fn participants_in_layer_order() {
    let ev = event(true, body(1, Layers::Player), body(2, Layers::Level));
    assert_eq!(entities_from_event(&ev), vec![(2, Layers::Level), (1, Layers::Player)]);
    let ev = event(true, body(3, Layers::Fireball), body(4, Layers::Enemy));
    assert_eq!(entities_from_event(&ev), vec![(3, Layers::Fireball), (4, Layers::Enemy)]);
    let ev = event(true, untagged(5), body(6, Layers::Pepper));
    assert_eq!(entities_from_event(&ev), vec![(6, Layers::Pepper)]);
}

#[test]
fn player_picks_up_pepper_on_begin() {
    let mut player = Player::new();
    player.jumped = true;
    let evs = vec![event(true, body(1, Layers::Player), body(9, Layers::Pepper))];
    let fx = collisions(&mut player, &evs);
    assert_eq!(player.peppers, 1);
    assert!(!player.jumped);
    assert_eq!(fx.pepper_counts, vec![UpdatePepperCountEvent(1)]);
    assert_eq!(fx.despawned, vec![9]);
    assert!(fx.damage.is_empty());
}

#[test]
fn pepper_pickup_also_fires_on_stop() {
    let mut player = Player::new();
    player.peppers = 4;
    let evs = vec![event(false, body(9, Layers::Pepper), body(1, Layers::Player))];
    let fx = collisions(&mut player, &evs);
    assert_eq!(player.peppers, 5);
    assert!(player.jumped);
    assert_eq!(fx.pepper_counts, vec![UpdatePepperCountEvent(5)]);
    assert_eq!(fx.despawned, vec![9]);
}

#[test]
fn enemy_touch_queues_knockout() {
    let mut player = Player::new();
    let evs = vec![event(true, body(1, Layers::Player), body(2, Layers::Enemy))];
    let fx = collisions(&mut player, &evs);
    assert_eq!(KNOCKOUT_HITS, 100);
    assert_eq!(fx.damage.len(), 100);
    assert!(fx.damage.iter().all(|d| *d == DamageEvent(1)));
    assert!(fx.despawned.is_empty());
    assert_eq!(player.peppers, 0);
}

#[test]
fn fireball_hitting_level_is_despawned() {
    let mut player = Player::new();
    player.jumped = true;
    let evs = vec![event(true, body(4, Layers::Level), body(7, Layers::Fireball))];
    let fx = collisions(&mut player, &evs);
    assert_eq!(fx.despawned, vec![7]);
    assert!(fx.damage.is_empty());
    assert!(player.jumped);
}

#[test]
fn fireball_hitting_enemy_damages_it() {
    let mut player = Player::new();
    let evs = vec![event(true, body(7, Layers::Fireball), body(2, Layers::Enemy))];
    let fx = collisions(&mut player, &evs);
    assert_eq!(fx.damage, vec![DamageEvent(2)]);
    assert_eq!(fx.despawned, vec![7]);
}

#[test]
fn player_level_contact_sets_ground_flag() {
    let mut player = Player::new();
    let evs = vec![event(false, body(1, Layers::Player), body(4, Layers::Level))];
    let fx = collisions(&mut player, &evs);
    assert!(player.jumped);
    assert_eq!(fx, CollisionEffects { despawned: vec![], pepper_counts: vec![], damage: vec![] });
}

#[test]
fn unrecognised_events_are_ignored() {
    let mut player = Player::new();
    player.jumped = true;
    let three = CollisionData {
        entity: 3,
        layers: CollisionLayers { groups: 1 | 8, masks: 0 },
    };
    let evs = vec![
        event(true, untagged(1), body(2, Layers::Pepper)),
        event(true, untagged(1), untagged(2)),
        event(true, three, body(4, Layers::Level)),
        event(true, body(5, Layers::Enemy), body(6, Layers::Level)),
        event(true, body(1, Layers::Player), body(9, Layers::Pepper)),
    ];
    let fx = collisions(&mut player, &evs);
    assert_eq!(player.peppers, 1);
    assert_eq!(fx.despawned, vec![9]);
    assert_eq!(fx.pepper_counts, vec![UpdatePepperCountEvent(1)]);
    assert!(fx.damage.is_empty());
    assert!(!player.jumped);
}

#[test]
fn resolve_collision_accumulates() {
    let mut player = Player::new();
    let mut fx = CollisionEffects { despawned: vec![42], pepper_counts: vec![], damage: vec![] };
    resolve_collision(&mut player, &event(true, body(1, Layers::Player), body(8, Layers::Pepper)), &mut fx);
    resolve_collision(&mut player, &event(true, body(1, Layers::Player), body(9, Layers::Pepper)), &mut fx);
    assert_eq!(fx.despawned, vec![42, 8, 9]);
    assert_eq!(fx.pepper_counts, vec![UpdatePepperCountEvent(1), UpdatePepperCountEvent(2)]);
}

#[test]
fn ground_contact_follows_last_level_event() {
    let mut player = Player::new();
    let evs = vec![
        event(true, body(1, Layers::Player), body(4, Layers::Level)),
        event(false, body(4, Layers::Level), body(1, Layers::Player)),
        event(true, body(1, Layers::Player), body(2, Layers::Enemy)),
    ];
    can_jump(&mut player, &evs);
    assert!(player.jumped);
    let evs = vec![event(true, body(4, Layers::Level), body(1, Layers::Player))];
    can_jump(&mut player, &evs);
    assert!(!player.jumped);
    let p = Layers::Player.collision_layers();
    let l = Layers::Level.collision_layers();
    assert_eq!(collided_level((p, l)), (true, false));
    assert_eq!(collided_level((l, p)), (false, true));
    assert_eq!(collided_level((p, p)), (false, false));
}
