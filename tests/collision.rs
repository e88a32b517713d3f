use night_ward::actor::Action;
use night_ward::collision::{
    attacking_enemy, attacking_player, platform_contact, player_enemy_collision,
    touching_platform_enemy, touching_platform_player, Platform,
};
use night_ward::geometry::{rects_overlap, Rect};
use night_ward::spawn::{enemy_spawn, player_spawn};

const U: i64 = 1_000_000;

fn slab(x: i64, y: i64, w: i64, h: i64) -> Platform {
    Platform { rect: Rect { x: x * U, y: y * U, w: w * U, h: h * U }, depth: 0, scroll_factor: 0 }
}

#[test]
fn touching_edges_overlap() {
    let a = Rect { x: 0, y: 0, w: 10, h: 10 };
    let b = Rect { x: 10, y: 0, w: 10, h: 10 };
    let c = Rect { x: 11, y: 0, w: 10, h: 10 };
    let d = Rect { x: 0, y: 0, w: 10, h: 10 };
    assert!(rects_overlap(&a, &b));
    assert!(!rects_overlap(&a, &c));
    assert!(rects_overlap(&a, &d));
    let e = Rect { x: 5, y: 30, w: 10, h: 10 };
    assert!(!rects_overlap(&a, &e));
}

#[test]
fn no_platform_means_falling() {
    let mut p = player_spawn();
    p.body.falling = false;
    touching_platform_player(&mut p, &Vec::new());
    assert!(p.body.falling);
    assert_eq!(p.action, Action::Stand);
}

#[test]
fn resting_on_one_platform_grounds() {
    let mut p = player_spawn();
    // box 24.85 high centred at y = 10: its bottom, raised by 5, is above y = 0
    p.body.pos.y = 10 * U;
    let platforms = vec![slab(0, 0, 100, 10)];
    touching_platform_player(&mut p, &platforms);
    assert!(!p.body.falling);
    assert_eq!(p.action, Action::Stand);
}

#[test]
fn hitting_platform_from_below_bumps_player() {
    let mut p = player_spawn();
    p.body.pos.y = -10 * U;
    let platforms = vec![slab(0, 0, 100, 10)];
    touching_platform_player(&mut p, &platforms);
    assert!(p.body.falling);
    assert_eq!(p.action, Action::Bumped);
}

#[test]
fn hitting_platform_from_below_stands_enemy() {
    let mut e = enemy_spawn();
    e.body.pos.x = 0;
    e.body.pos.y = -50 * U;
    e.action = Action::Walk;
    let platforms = vec![slab(0, 0, 100, 10)];
    touching_platform_enemy(&mut e, &platforms);
    assert!(e.body.falling);
    assert_eq!(e.action, Action::Stand);
}

#[test]
fn any_of_many_platforms_grounds() {
    let mut e = enemy_spawn();
    e.body.pos.x = 0;
    e.body.pos.y = 60 * U;
    e.action = Action::Walk;
    let platforms = vec![slab(500, 0, 10, 10), slab(0, 0, 100, 10), slab(-500, 0, 10, 10)];
    touching_platform_enemy(&mut e, &platforms);
    assert!(!e.body.falling);
    assert_eq!(e.action, Action::Walk);
    assert_eq!(platform_contact(&e.body, &platforms), (true, false));
    let far = vec![slab(500, 0, 10, 10), slab(-500, 0, 10, 10)];
    assert_eq!(platform_contact(&e.body, &far), (false, false));
}

#[test]
fn attack_on_overlapping_enemy_bumps_it() {
    let mut p = player_spawn();
    p.attacking = true;
    let mut e = enemy_spawn();
    e.body.pos.x = 30 * U;
    e.action = Action::Walk;
    player_enemy_collision(&p, &mut e);
    assert_eq!(e.action, Action::Bumped);

    // the attack box is 33.6 wide: an enemy 40 wide reaches it up to 36.8 away
    let mut g = enemy_spawn();
    g.body.pos.x = 37 * U;
    g.action = Action::Walk;
    player_enemy_collision(&p, &mut g);
    assert_eq!(g.action, Action::Walk);

    p.attacking = false;
    let mut f = enemy_spawn();
    f.body.pos.x = 30 * U;
    f.action = Action::Walk;
    player_enemy_collision(&p, &mut f);
    assert_eq!(f.action, Action::Walk);
}

#[test]
fn attack_out_of_reach_misses() {
    let mut p = player_spawn();
    p.attacking = true;
    let mut e = enemy_spawn();
    e.action = Action::Walk;
    player_enemy_collision(&p, &mut e);
    assert_eq!(e.action, Action::Walk);
}

#[test]
fn attacking_flag_follows_action() {
    let mut e = enemy_spawn();
    for (action, attack) in [
        (Action::Charge, true),
        (Action::Chop, true),
        (Action::Walk, false),
        (Action::Block, false),
    ] {
        e.action = action;
        attacking_enemy(&mut e);
        assert_eq!(e.attacking, attack);
    }
    let mut p = player_spawn();
    p.action = Action::Charge;
    attacking_player(&mut p);
    assert!(p.attacking);
    p.action = Action::Stand;
    attacking_player(&mut p);
    assert!(!p.attacking);
}
