use night_ward::actor::{Action, Direction};
use night_ward::physics::{control_in_range, gravity_in_range, knock_in_range};
use night_ward::scroll::{
    enemy_scroll_in_range, flip_in_range, layer_scroll_in_range, platform_scroll_in_range,
    track_player, ScrollLayer,
};
use night_ward::collision::Platform;
use night_ward::geometry::Rect;
use night_ward::spawn::{enemy_spawn, player_spawn};

#[test]
fn gravity_range_check() {
    let mut p = player_spawn();
    assert!(gravity_in_range(&p.body, 16));
    p.body.vel.y = i64::MIN / 10;
    p.body.pos.y = i64::MIN / 2;
    assert!(!gravity_in_range(&p.body, 16));
    p.body.falling = false;
    assert!(gravity_in_range(&p.body, 16));
}

#[test]
fn control_and_knock_range_checks() {
    let mut p = player_spawn();
    p.action = Action::Jump;
    assert!(control_in_range(&p));
    p.body.pos.y = i64::MAX - 5;
    assert!(!control_in_range(&p));
    p.action = Action::Walk;
    assert!(control_in_range(&p));

    let mut e = enemy_spawn();
    e.action = Action::Bumped;
    assert!(knock_in_range(&e));
    e.body.pos.x = i64::MIN + 5;
    assert!(!knock_in_range(&e));
}

#[test]
fn scroll_range_checks() {
    let mut p = player_spawn();
    p.direction = Direction::Left;
    p.speed = 300;
    let l = ScrollLayer { x: i64::MAX - 10, y: 0, depth: 500, scroll_factor: 1, width: 6, art: 1 };
    assert!(!layer_scroll_in_range(&l, &p, 16));
    assert!(layer_scroll_in_range(&l, &p, 0));
    assert!(flip_in_range(&l, &p));
    let mut q = player_spawn();
    q.direction = Direction::Right;
    let odd = ScrollLayer { x: i64::MIN + 10, y: 0, depth: 0, scroll_factor: 0, width: i64::MIN / 2, art: 0 };
    assert!(!flip_in_range(&odd, &q));
    assert!(flip_in_range(&odd, &p));
    let pl = Platform { rect: Rect { x: 0, y: 0, w: 1, h: 1 }, depth: 1900, scroll_factor: 1 };
    assert!(platform_scroll_in_range(&pl, &p, 16));
    let mut e = enemy_spawn();
    assert!(enemy_scroll_in_range(&e, &p, 16));
    e.body.pos.x = i64::MAX;
    assert!(!enemy_scroll_in_range(&e, &p, 16));
}

#[test]
fn tracking_records_player_x() {
    let mut p = player_spawn();
    p.body.pos.x = 1234;
    track_player(&mut p);
    assert_eq!(p.current_x, 1234);
}
