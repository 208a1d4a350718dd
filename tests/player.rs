use kajam::player::{
    player_movement, reset_player, Limits, MoveInput, Player, PLAYER_SIZE, SPAWN_X, SPAWN_Y,
};
use kajam::utils::{Position, Velocity};

const TICK: i64 = 16_667;

fn keys(jump: bool, left: bool, right: bool) -> MoveInput {
    MoveInput { jump, left, right }
}

#[test]
fn starting_values() {
    let p = Player::new();
    assert_eq!((p.speed, p.jump_height, p.jumped, p.peppers), (100, 1500, false, 0));
    let l = Limits::new();
    assert_eq!((l.max_velocity_x, l.max_velocity_y), (2000, 3000));
    assert_eq!(PLAYER_SIZE, 50_000);
}

#[test]
fn gravity_bias_and_jump() {
    let p = Player::new();
    let l = Limits::new();
    let mut v = Velocity { x: 0, y: 0 };
    player_movement(&p, &l, &mut v, keys(false, false, false), TICK);
    assert_eq!(v, Velocity { x: 0, y: -833_350_000 });
    let mut v = Velocity { x: 0, y: 0 };
    player_movement(&p, &l, &mut v, keys(true, false, false), TICK);
    assert_eq!(v, Velocity { x: 0, y: -833_350_000 + 1_250_025_000_000 });
}

#[test]
fn no_jump_while_airborne_or_too_fast() {
    let mut p = Player::new();
    let l = Limits::new();
    p.jumped = true;
    let mut v = Velocity { x: 0, y: 0 };
    player_movement(&p, &l, &mut v, keys(true, false, false), TICK);
    assert_eq!(v.y, -833_350_000);
    p.jumped = false;
    let max_y = 3000 * PLAYER_SIZE * TICK;
    let mut v = Velocity { x: 0, y: -max_y };
    player_movement(&p, &l, &mut v, keys(true, false, false), TICK);
    assert_eq!(v.y, -max_y - PLAYER_SIZE * TICK);
    let mut v = Velocity { x: 0, y: max_y + PLAYER_SIZE * TICK };
    player_movement(&p, &l, &mut v, keys(true, false, false), TICK);
    assert_eq!(v.y, max_y + 1_250_025_000_000);
}

#[test]
fn horizontal_soft_clamp() {
    let p = Player::new();
    let l = Limits::new();
    let max_x = 2000 * PLAYER_SIZE * TICK;
    let push = 100 * PLAYER_SIZE * TICK;
    let mut v = Velocity { x: 0, y: 0 };
    let mut ticks = 0;
    while v.x < max_x {
        player_movement(&p, &l, &mut v, keys(false, false, true), TICK);
        ticks += 1;
    }
    // 20 pushes reach the cap exactly; from there right adds nothing.
    assert_eq!(ticks, 20);
    assert_eq!(v.x, max_x);
    let past = v.x;
    for _ in 0..5 {
        player_movement(&p, &l, &mut v, keys(false, false, true), TICK);
        assert_eq!(v.x, past);
    }
    player_movement(&p, &l, &mut v, keys(false, true, false), TICK);
    assert_eq!(v.x, past - push);
}

#[test]
fn left_and_right_together() {
    let p = Player::new();
    let l = Limits::new();
    let mut v = Velocity { x: 5, y: 0 };
    player_movement(&p, &l, &mut v, keys(false, true, true), TICK);
    assert_eq!(v.x, 5);
    let max_x = 2000 * PLAYER_SIZE * TICK;
    let mut v = Velocity { x: -max_x - 1, y: 0 };
    player_movement(&p, &l, &mut v, keys(false, true, false), TICK);
    assert_eq!(v.x, -max_x - 1);
    let mut v = Velocity { x: -max_x, y: 0 };
    player_movement(&p, &l, &mut v, keys(false, true, false), TICK);
    assert_eq!(v.x, -max_x);
    let push = 100 * PLAYER_SIZE * TICK;
    let mut v = Velocity { x: -max_x, y: 0 };
    player_movement(&p, &l, &mut v, keys(false, false, true), TICK);
    assert_eq!(v.x, -max_x + push);
}

#[test]
fn fallen_player_respawns_at_rest() {
    let mut pos = Position { x: 3_000_000, y: -1_500_001 };
    let mut v = Velocity { x: 7, y: -9 };
    reset_player(&mut pos, &mut v);
    assert_eq!(pos, Position { x: SPAWN_X, y: SPAWN_Y });
    assert_eq!(v, Velocity { x: 0, y: 0 });
    let mut pos = Position { x: 3_000_000, y: -1_500_000 };
    let mut v = Velocity { x: 7, y: -9 };
    reset_player(&mut pos, &mut v);
    assert_eq!(pos, Position { x: 3_000_000, y: -1_500_000 });
    assert_eq!(v, Velocity { x: 7, y: -9 });
}
