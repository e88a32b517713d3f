use vstd::prelude::*;
use rand::rngs::StdRng;
use crate::actor::{Action, Enemy, ENEMY_SPEED_FAST, ENEMY_SPEED_MED};
use crate::geometry::MICROS_PER_UNIT;

verus! {

#[verifier::external_type_specification]
#[verifier::external_body]
pub struct ExStdRng(StdRng);

/// Relies on rand's `Rng::gen_range` over `0..n`: a value of that range,
/// drawn from `rng`; it panics on an empty range, which `requires` excludes.
#[verifier::external_body]
fn roll_below(rng: &mut StdRng, n: u32) -> (r: u32)
    requires
        n > 0,
    ensures
        r < n,
{
    rand::Rng::gen_range(rng, 0..n)
}

/// Width of one proximity bucket: fifty units.
pub const BUCKET_WIDTH: i64 = 50 * MICROS_PER_UNIT;

/// What the enemy's decision does.
#[derive(Clone, Copy, Debug, PartialEq, Eq, Structural)]
pub enum AiMove {
    /// Take up this action.
    Act(Action),
    /// Change the speed modifier to this.
    SetSpeed(u32),
    /// Leave everything as it is.
    Idle,
}

/// Proximity bucket of an enemy at `enemy_x` to a player at `player_x`: the
/// distance between them divided by fifty units, rounded down.
pub open spec fn bucket_of(enemy_x: int, player_x: int) -> int {
    let d = if enemy_x >= player_x { enemy_x - player_x } else { player_x - enemy_x };
    d / (BUCKET_WIDTH as int)
}

/// How many outcomes the draw of a bucket has; none for a bucket that draws
/// nothing.
pub open spec fn pick_count(bucket: int) -> nat {
    if 0 <= bucket && bucket <= 2 {
        2
    } else if bucket == 3 || bucket == 4 {
        3
    } else if bucket == 5 {
        4
    } else {
        0
    }
}

/// The move that draw `pick` gives in `bucket`. Close buckets block or
/// charge; the middle ones mix chops, charges and blocks; the far one chops,
/// walks or speeds up. A draw out of range keeps walking.
pub open spec fn ai_table(bucket: int, pick: int) -> AiMove {
    if bucket == 0 || bucket == 1 {
        if pick == 0 {
            AiMove::Act(Action::Block)
        } else if pick == 1 {
            AiMove::Act(Action::Charge)
        } else {
            AiMove::Act(Action::Walk)
        }
    } else if bucket == 2 {
        if pick == 1 {
            AiMove::Act(Action::Chop)
        } else {
            AiMove::Act(Action::Walk)
        }
    } else if bucket == 3 {
        if pick == 0 {
            AiMove::Act(Action::Charge)
        } else if pick == 1 {
            AiMove::Act(Action::Block)
        } else if pick == 2 {
            AiMove::Act(Action::Chop)
        } else {
            AiMove::Act(Action::Walk)
        }
    } else if bucket == 4 {
        if pick == 0 || pick == 1 {
            AiMove::Act(Action::Charge)
        } else {
            AiMove::Act(Action::Walk)
        }
    } else if bucket == 5 {
        if pick == 0 {
            AiMove::Act(Action::Chop)
        } else if pick == 1 {
            AiMove::SetSpeed(ENEMY_SPEED_MED)
        } else if pick == 3 {
            AiMove::SetSpeed(ENEMY_SPEED_FAST)
        } else {
            AiMove::Act(Action::Walk)
        }
    } else {
        AiMove::Idle
    }
}

/// Whether the enemy makes a decision at all: it is near the player and
/// only walking, so that no attack it is playing gets cut short.
pub open spec fn may_decide(e: Enemy) -> bool {
    e.near_player && e.action is Walk
}

/// The enemy after deciding with draw `pick` against a player at `player_x`.
pub open spec fn enemy_decided(e: Enemy, player_x: i64, pick: u32) -> Enemy {
    if may_decide(e) {
        match ai_table(bucket_of(e.body.pos.x as int, player_x as int), pick as int) {
            AiMove::Act(a) => Enemy { action: a, ..e },
            AiMove::SetSpeed(s) => Enemy { speed: s, ..e },
            AiMove::Idle => e,
        }
    } else {
        e
    }
}

/// The proximity bucket of an enemy at `enemy_x` to a player at `player_x`.
pub fn proximity_bucket(enemy_x: i64, player_x: i64) -> (r: u64)
    ensures
        r == bucket_of(enemy_x as int, player_x as int),
{
    let d: i128 = if enemy_x >= player_x {
        enemy_x as i128 - player_x as i128
    } else {
        player_x as i128 - enemy_x as i128
    };
    (d / (BUCKET_WIDTH as i128)) as u64
}

/// How many outcomes the draw of `bucket` has.
pub fn bucket_pick_count(bucket: u64) -> (r: u32)
    ensures
        r == pick_count(bucket as int),
{
    if bucket <= 2 {
        2
    } else if bucket == 3 || bucket == 4 {
        3
    } else if bucket == 5 {
        4
    } else {
        0
    }
}

/// The move that draw `pick` gives in `bucket`.
pub fn ai_move(bucket: u64, pick: u32) -> (r: AiMove)
    ensures
        r == ai_table(bucket as int, pick as int),
{
    if bucket == 0 || bucket == 1 {
        if pick == 0 {
            AiMove::Act(Action::Block)
        } else if pick == 1 {
            AiMove::Act(Action::Charge)
        } else {
            AiMove::Act(Action::Walk)
        }
    } else if bucket == 2 {
        if pick == 1 {
            AiMove::Act(Action::Chop)
        } else {
            AiMove::Act(Action::Walk)
        }
    } else if bucket == 3 {
        if pick == 0 {
            AiMove::Act(Action::Charge)
        } else if pick == 1 {
            AiMove::Act(Action::Block)
        } else if pick == 2 {
            AiMove::Act(Action::Chop)
        } else {
            AiMove::Act(Action::Walk)
        }
    } else if bucket == 4 {
        if pick == 0 || pick == 1 {
            AiMove::Act(Action::Charge)
        } else {
            AiMove::Act(Action::Walk)
        }
    } else if bucket == 5 {
        if pick == 0 {
            AiMove::Act(Action::Chop)
        } else if pick == 1 {
            AiMove::SetSpeed(ENEMY_SPEED_MED)
        } else if pick == 3 {
            AiMove::SetSpeed(ENEMY_SPEED_FAST)
        } else {
            AiMove::Act(Action::Walk)
        }
    } else {
        AiMove::Idle
    }
}

/// Applies the enemy's decision for draw `pick` against a player at
/// `player_x`.
pub fn decide_enemy(e: &mut Enemy, player_x: i64, pick: u32)
    ensures
        *final(e) == enemy_decided(*old(e), player_x, pick),
{
    if e.near_player && e.action == Action::Walk {
        let bucket = proximity_bucket(e.body.pos.x, player_x);
        match ai_move(bucket, pick) {
            AiMove::Act(a) => {
                e.action = a;
            },
            AiMove::SetSpeed(s) => {
                e.speed = s;
            },
            AiMove::Idle => {},
        }
    }
}

/// The enemy's periodic decision: an enemy near the player and walking draws
/// from the table of its proximity bucket with `rng`; any other enemy, and
/// one too far away, is left alone.
pub fn ai_enemy(e: &mut Enemy, player_x: i64, rng: &mut StdRng)
    ensures
        ({
            let bucket = bucket_of(old(e).body.pos.x as int, player_x as int);
            if may_decide(*old(e)) && pick_count(bucket) > 0 {
                exists|pick: u32|
                    pick < pick_count(bucket) && *final(e) == #[trigger] enemy_decided(
                        *old(e),
                        player_x,
                        pick,
                    )
            } else {
                *final(e) == *old(e)
            }
        }),
{
    if e.near_player && e.action == Action::Walk {
        let bucket = proximity_bucket(e.body.pos.x, player_x);
        let n = bucket_pick_count(bucket);
        if n > 0 {
            let pick = roll_below(rng, n);
            decide_enemy(e, player_x, pick);
        }
    }
}

/// At the closest proximity an enemy that decides only ever blocks or
/// charges: whatever the draw, neither walking nor chopping comes out.
pub proof fn lemma_closest_bucket_blocks_or_charges(e: Enemy, player_x: i64, pick: u32)
    requires
        may_decide(e),
        bucket_of(e.body.pos.x as int, player_x as int) == 0,
        pick < pick_count(0),
    ensures
        enemy_decided(e, player_x, pick).action is Block || enemy_decided(
            e,
            player_x,
            pick,
        ).action is Charge,
{
}

} // verus!
