use kajam::enemy::{spawn_enemies, ENEMY_COUNT};
use kajam::fireball::{create_fireball, despawn_fireball, launch_velocity, Fireball, SpawnFireballEvent};
use kajam::pepper::{spawn_peppers, PEPPER_COUNT};
use kajam::utils::{random_jitters, scatter_points, Position, Velocity, JITTER_SPAN, SPAWN_HEIGHT};

#[test]
fn scatter_is_even_plus_jitter() {
    let pts = scatter_points(&vec![0, 0, 999_999, 5]);
    let xs: Vec<i64> = pts.iter().map(|p| p.x).collect();
    assert_eq!(xs, vec![500_000, 12_750_000, 25_000_000 + 999_999, 37_250_005]);
    assert!(pts.iter().all(|p| p.y == SPAWN_HEIGHT));
    assert!(scatter_points(&vec![]).is_empty());
}

#[test]
fn scatter_rounds_down() {
    let pts = scatter_points(&vec![0, 0, 0]);
    let xs: Vec<i64> = pts.iter().map(|p| p.x).collect();
    assert_eq!(xs, vec![500_000, 500_000 + 16_333_333, 500_000 + 32_666_666]);
}

#[test]
fn random_jitters_stay_in_span() {
    let j = random_jitters(1000);
    assert_eq!(j.len(), 1000);
    assert!(j.iter().all(|v| *v < JITTER_SPAN));
    assert!(j.iter().any(|v| *v != j[0]));
}

#[test]
fn enemies_and_peppers_are_spread_over_the_map() {
    let e = spawn_enemies();
    assert_eq!(e.len(), ENEMY_COUNT);
    assert_eq!(ENEMY_COUNT, 20);
    for (i, p) in e.iter().enumerate() {
        let base = 500_000 + 49_000_000 * i as i64 / 20;
        assert!(base <= p.x && p.x < base + JITTER_SPAN as i64);
        assert_eq!(p.y, SPAWN_HEIGHT);
    }
    let p = spawn_peppers();
    assert_eq!(p.len(), PEPPER_COUNT);
    assert_eq!(PEPPER_COUNT, 50);
    for (i, q) in p.iter().enumerate() {
        let base = 500_000 + 49_000_000 * i as i64 / 50;
        assert!(base <= q.x && q.x < base + JITTER_SPAN as i64);
    }
}

#[test]
fn fireball_is_launched_at_five_times_the_offset() {
    let ev = SpawnFireballEvent {
        spawn_point: Position { x: 1_000_000, y: 750_000 },
        target: Position { x: 1_300_000, y: 350_000 },
    };
    // distance 0.5 units, speed 2.5 units/s along (0.6, -0.8)
    assert_eq!(launch_velocity(&ev), Velocity { x: 1_500_000_000_000, y: -2_000_000_000_000 });
    let still = SpawnFireballEvent { spawn_point: ev.spawn_point, target: ev.spawn_point };
    assert_eq!(launch_velocity(&still), Velocity { x: 0, y: 0 });
}

#[test]
fn fallen_fireballs_are_despawned() {
    let fbs = vec![
        Fireball { entity: 1, position: Position { x: 0, y: -1_500_001 } },
        Fireball { entity: 2, position: Position { x: 0, y: -1_500_000 } },
        Fireball { entity: 3, position: Position { x: 0, y: 4 } },
        Fireball { entity: 4, position: Position { x: 9, y: -9_000_000 } },
    ];
    assert_eq!(despawn_fireball(&fbs), vec![1, 4]);
    assert!(despawn_fireball(&vec![]).is_empty());
}

#[test]
fn one_fireball_per_press() {
    let me = Position { x: 1, y: 2 };
    let at = Position { x: 30, y: -4 };
    assert_eq!(
        create_fireball(true, me, Some(at)),
        Some(SpawnFireballEvent { spawn_point: me, target: at })
    );
    assert_eq!(create_fireball(false, me, Some(at)), None);
    assert_eq!(create_fireball(true, me, None), None);
}
