use night_ward::actor::{Action, Direction, WinSize};
use night_ward::spawn::{background_spawn, enemy_spawn, platform_spawn, player_spawn};

const U: i64 = 1_000_000;

#[test]
fn player_enters_standing_and_falling() {
    let p = player_spawn();
    assert_eq!(p.action, Action::Stand);
    assert_eq!(p.direction, Direction::Right);
    assert_eq!(p.speed, 0);
    assert!(p.body.falling);
    assert_eq!(p.body.pos.z, 1800);
}

#[test]
fn enemy_enters_right_of_player() {
    let e = enemy_spawn();
    assert_eq!(e.body.pos.x, 700 * U);
    assert_eq!(e.action, Action::Stand);
    assert!(!e.body.falling);
    assert!(!e.near_player);
}

#[test]
fn ground_and_ledge_fit_the_window() {
    let win = WinSize { w: 900 * U, h: 700 * U };
    let platforms = platform_spawn(&win);
    assert_eq!(platforms.len(), 2);
    assert_eq!(platforms[0].rect.y, -355 * U);
    assert_eq!(platforms[0].rect.w, 900 * U);
    assert_eq!(platforms[0].scroll_factor, 0);
    assert_eq!(platforms[1].rect.x, 300 * U);
    assert_eq!(platforms[1].rect.y, -290 * U);
    assert_eq!(platforms[1].depth, 1900);
}

#[test]
fn background_layers_come_in_pairs() {
    let layers = background_spawn();
    assert_eq!(layers.len(), 19);
    assert_eq!(layers[0].scroll_factor, 0);
    let depths: Vec<u32> = layers.iter().skip(1).step_by(2).map(|l| l.depth).collect();
    assert_eq!(depths, vec![500, 700, 800, 1000, 1300, 1500, 1500, 1600, 1900]);
    for pair in layers[1..].chunks(2) {
        assert_eq!(pair[0].depth, pair[1].depth);
        assert_eq!(pair[0].art, pair[1].art);
        assert_eq!(pair[0].x, 0);
        assert_eq!(pair[1].x, 928 * U);
    }
}
