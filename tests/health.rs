use kajam::enemy::Enemy;
use kajam::health::{
    damage_enemy, damage_player, hit_enemy, DamageEvent, Health, ENEMY_HEALTH, PLAYER_HEALTH,
};
use kajam::hud::UpdateHealthPointsEvent;

#[test]
fn enemy_despawns_one_event_after_reaching_zero() {
    let mut enemies = vec![Enemy { entity: 7, health: Health(ENEMY_HEALTH) }];
    assert_eq!(ENEMY_HEALTH, 7_500);
    let mut despawn_at = None;
    for i in 0..1600usize {
        let gone = damage_enemy(&mut enemies, &vec![DamageEvent(7)]);
        if !gone.is_empty() {
            assert_eq!(gone, vec![7]);
            despawn_at = Some(i);
            break;
        }
    }
    // 1500 hits of 0.05 bring 75 to exactly zero; the next hit sees it.
    assert_eq!(despawn_at, Some(1500));
    assert!(enemies.is_empty());
}

#[test]
fn spawned_enemy_has_full_health() {
    assert_eq!(Enemy::spawned(4), Enemy { entity: 4, health: Health(7_500) });
}

#[test]
fn enemy_with_odd_health_despawns_after_rounding_up() {
    // 12 hundredths: hits leave 7, 2, -3; the fourth hit despawns.
    let mut enemies = vec![Enemy { entity: 1, health: Health(12) }];
    let gone = damage_enemy(&mut enemies, &vec![DamageEvent(1); 3]);
    assert!(gone.is_empty());
    assert_eq!(enemies[0].health, Health(-3));
    let gone = damage_enemy(&mut enemies, &vec![DamageEvent(1)]);
    assert_eq!(gone, vec![1]);
}

#[test]
fn enemy_among_others_despawns_on_hit_1501() {
    let mut enemies = vec![
        Enemy::spawned(1),
        Enemy::spawned(7),
        Enemy::spawned(3),
    ];
    let gone = damage_enemy(&mut enemies, &vec![DamageEvent(7); 1500]);
    assert!(gone.is_empty());
    assert_eq!(enemies[1], Enemy { entity: 7, health: Health(0) });
    let gone = damage_enemy(&mut enemies, &vec![DamageEvent(7); 2]);
    assert_eq!(gone, vec![7]);
    assert_eq!(enemies, vec![Enemy::spawned(1), Enemy::spawned(3)]);
}

#[test]
fn enemy_after_1500_hits_is_at_zero() {
    let mut enemies = vec![Enemy { entity: 7, health: Health(ENEMY_HEALTH) }];
    let gone = damage_enemy(&mut enemies, &vec![DamageEvent(7); 1500]);
    assert!(gone.is_empty());
    assert_eq!(enemies, vec![Enemy { entity: 7, health: Health(0) }]);
    let gone = damage_enemy(&mut enemies, &vec![DamageEvent(7); 3]);
    assert_eq!(gone, vec![7]);
    assert!(enemies.is_empty());
}

#[test]
fn damage_targets_only_the_named_enemy() {
    let mut enemies = vec![
        Enemy { entity: 1, health: Health(100) },
        Enemy { entity: 2, health: Health(100) },
    ];
    let gone = damage_enemy(&mut enemies, &vec![DamageEvent(2), DamageEvent(99), DamageEvent(2)]);
    assert!(gone.is_empty());
    assert_eq!(enemies[0].health, Health(100));
    assert_eq!(enemies[1].health, Health(90));
}

#[test]
fn hit_enemy_removes_dead_enemy() {
    let mut enemies = vec![
        Enemy { entity: 1, health: Health(0) },
        Enemy { entity: 2, health: Health(-3) },
    ];
    let mut despawned = vec![5];
    hit_enemy(&mut enemies, 2, &mut despawned);
    assert_eq!(despawned, vec![5, 2]);
    assert_eq!(enemies, vec![Enemy { entity: 1, health: Health(0) }]);
}

#[test]
fn player_hits_are_announced() {
    let mut health = Health(PLAYER_HEALTH);
    let out = damage_player(&mut health, 1, &vec![DamageEvent(1); 100]);
    assert_eq!(health, Health(49_000));
    assert_eq!(out.notes.len(), 100);
    assert_eq!(out.notes[0], UpdateHealthPointsEvent(49_990));
    assert_eq!(out.notes[99], UpdateHealthPointsEvent(49_000));
    assert!(!out.game_over);
}

#[test]
fn player_at_zero_ends_the_game() {
    let mut health = Health(10);
    let evs = vec![DamageEvent(1), DamageEvent(3), DamageEvent(1), DamageEvent(1)];
    let out = damage_player(&mut health, 1, &evs);
    assert_eq!(out.notes, vec![UpdateHealthPointsEvent(0)]);
    assert!(out.game_over);
    assert_eq!(health, Health(0));
}

#[test]
fn player_ignores_other_targets() {
    let mut health = Health(PLAYER_HEALTH);
    let out = damage_player(&mut health, 1, &vec![DamageEvent(2), DamageEvent(3)]);
    assert!(out.notes.is_empty());
    assert!(!out.game_over);
    assert_eq!(health, Health(PLAYER_HEALTH));
}
