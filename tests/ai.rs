use night_ward::actor::{Action, ENEMY_SPEED_FAST, ENEMY_SPEED_MED};
use night_ward::ai::{ai_enemy, ai_move, bucket_pick_count, decide_enemy, proximity_bucket, AiMove};
use night_ward::spawn::enemy_spawn;
use rand::rngs::StdRng;
use rand::SeedableRng;

const U: i64 = 1_000_000;

#[test]
fn distance_buckets_are_fifty_units_wide() {
    assert_eq!(proximity_bucket(0, 0), 0);
    assert_eq!(proximity_bucket(49 * U, 0), 0);
    assert_eq!(proximity_bucket(0, 50 * U), 1);
    assert_eq!(proximity_bucket(-399 * U, 0), 7);
    assert_eq!(proximity_bucket(i64::MIN, i64::MAX), 368_934_881_474);
}

#[test]
fn closest_bucket_blocks_or_charges() {
    for seed in 0..200u64 {
        let mut rng = StdRng::seed_from_u64(seed);
        let mut e = enemy_spawn();
        e.near_player = true;
        e.action = Action::Walk;
        e.body.pos.x = 30 * U;
        ai_enemy(&mut e, 0, &mut rng);
        assert!(e.action == Action::Block || e.action == Action::Charge, "seed {}", seed);
    }
}

#[test]
fn draws_cover_the_closest_bucket() {
    let mut blocks = 0;
    let mut charges = 0;
    for seed in 0..200u64 {
        let mut rng = StdRng::seed_from_u64(seed);
        let mut e = enemy_spawn();
        e.near_player = true;
        e.action = Action::Walk;
        e.body.pos.x = 20 * U;
        ai_enemy(&mut e, 10 * U, &mut rng);
        match e.action {
            Action::Block => blocks += 1,
            Action::Charge => charges += 1,
            _ => panic!("unexpected action"),
        }
    }
    assert!(blocks > 0 && charges > 0);
}

#[test]
fn busy_or_distant_enemy_is_left_alone() {
    let mut rng = StdRng::seed_from_u64(7);
    let mut e = enemy_spawn();
    e.near_player = true;
    e.action = Action::Chop;
    let before = e;
    ai_enemy(&mut e, 0, &mut rng);
    assert_eq!(e, before);

    let mut f = enemy_spawn();
    f.near_player = false;
    f.action = Action::Walk;
    let before = f;
    ai_enemy(&mut f, 0, &mut rng);
    assert_eq!(f, before);

    let mut g = enemy_spawn();
    g.near_player = true;
    g.action = Action::Walk;
    g.body.pos.x = 320 * U;
    let before = g;
    ai_enemy(&mut g, 0, &mut rng);
    assert_eq!(g, before);
}

#[test]
fn decision_table_by_bucket() {
    assert_eq!(ai_move(0, 0), AiMove::Act(Action::Block));
    assert_eq!(ai_move(1, 1), AiMove::Act(Action::Charge));
    assert_eq!(ai_move(2, 0), AiMove::Act(Action::Walk));
    assert_eq!(ai_move(2, 1), AiMove::Act(Action::Chop));
    assert_eq!(ai_move(3, 1), AiMove::Act(Action::Block));
    assert_eq!(ai_move(3, 2), AiMove::Act(Action::Chop));
    assert_eq!(ai_move(4, 1), AiMove::Act(Action::Charge));
    assert_eq!(ai_move(4, 2), AiMove::Act(Action::Walk));
    assert_eq!(ai_move(5, 0), AiMove::Act(Action::Chop));
    assert_eq!(ai_move(5, 1), AiMove::SetSpeed(ENEMY_SPEED_MED));
    assert_eq!(ai_move(5, 3), AiMove::SetSpeed(ENEMY_SPEED_FAST));
    assert_eq!(ai_move(6, 0), AiMove::Idle);
    assert_eq!(bucket_pick_count(0), 2);
    assert_eq!(bucket_pick_count(3), 3);
    assert_eq!(bucket_pick_count(5), 4);
    assert_eq!(bucket_pick_count(6), 0);
}

#[test]
fn decision_changes_speed_in_far_bucket() {
    let mut e = enemy_spawn();
    e.near_player = true;
    e.action = Action::Walk;
    e.body.pos.x = 260 * U;
    decide_enemy(&mut e, 0, 3);
    assert_eq!(e.speed, ENEMY_SPEED_FAST);
    assert_eq!(e.action, Action::Walk);
    decide_enemy(&mut e, 0, 0);
    assert_eq!(e.action, Action::Chop);
}
