use night_ward::actor::{Action, Direction, SPEED_MED};
use night_ward::physics::{control_enemy, control_player, gravity_all};
use night_ward::spawn::{enemy_spawn, player_spawn};

const U: i64 = 1_000_000;

#[test]
fn falling_step_moves_by_capped_time() {
    let mut p = player_spawn();
    p.body.pos.y = 7 * U;
    p.body.vel.y = 333_000;
    p.body.falling = true;
    gravity_all(&mut p.body, 1000);
    // 333 units per second over 0.3 s
    assert_eq!(p.body.pos.y, 7 * U + 99_900_000);
    // 333 - 1600 * 0.3
    assert_eq!(p.body.vel.y, -147_000);
}

#[test]
fn short_falling_step_is_not_capped() {
    let mut p = player_spawn();
    p.body.vel.x = 2_000;
    p.body.vel.y = 0;
    gravity_all(&mut p.body, 100);
    assert_eq!(p.body.pos.x, 200_000);
    assert_eq!(p.body.pos.y, 0);
    assert_eq!(p.body.vel.y, -160_000);
}

#[test]
fn resting_body_ignores_gravity() {
    let mut e = enemy_spawn();
    e.body.vel.y = 5_000;
    let before = e.body;
    gravity_all(&mut e.body, 16);
    assert_eq!(e.body, before);
}

#[test]
fn jump_launches_from_ground_only() {
    let mut p = player_spawn();
    p.action = Action::Jump;
    p.body.falling = false;
    control_player(&mut p);
    assert_eq!(p.body.pos.y, 10 * U);
    assert_eq!(p.body.vel.y, 333_000);
    assert!(p.body.falling);

    let mut q = player_spawn();
    q.action = Action::Jump;
    q.body.falling = true;
    let before = q;
    control_player(&mut q);
    assert_eq!(q, before);
}

#[test]
fn bumped_player_turns_and_flies() {
    let mut p = player_spawn();
    p.action = Action::Bumped;
    p.direction = Direction::Right;
    p.body.falling = false;
    control_player(&mut p);
    assert_eq!(p.direction, Direction::Left);
    assert_eq!(p.body.pos.x, -10 * U);
    assert_eq!(p.body.pos.y, 10 * U);
    assert_eq!(p.body.vel.y, 30_000);
    assert!(p.body.falling);
    assert_eq!(p.speed, SPEED_MED);
    assert_eq!(p.action, Action::Fly);

    let mut q = player_spawn();
    q.action = Action::Bumped;
    q.direction = Direction::Left;
    control_player(&mut q);
    assert_eq!(q.direction, Direction::Right);
    assert_eq!(q.body.pos.x, 10 * U);
}

#[test]
fn bumped_enemy_is_launched_away() {
    let mut p = player_spawn();
    p.attacking = true;
    p.direction = Direction::Left;
    let mut e = enemy_spawn();
    e.action = Action::Bumped;
    control_enemy(&mut e, &mut p);
    assert!(!p.attacking);
    assert_eq!(e.body.pos.x, 660 * U);
    assert_eq!(e.body.pos.y, 30 * U);
    assert_eq!(e.body.vel.y, 30_000);
    assert!(e.body.falling);
    assert_eq!(e.action, Action::Stand);

    let mut p2 = player_spawn();
    p2.attacking = true;
    let mut e2 = enemy_spawn();
    e2.action = Action::Bumped;
    control_enemy(&mut e2, &mut p2);
    assert_eq!(e2.body.pos.x, 740 * U);
}

#[test]
fn enemy_not_bumped_is_left_alone() {
    let mut p = player_spawn();
    p.attacking = true;
    let mut e = enemy_spawn();
    e.action = Action::Walk;
    let (pb, eb) = (p, e);
    control_enemy(&mut e, &mut p);
    assert_eq!(p, pb);
    assert_eq!(e, eb);
}
