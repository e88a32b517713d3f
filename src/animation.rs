use vstd::prelude::*;
use crate::actor::{
    Action, Direction, Enemy, Player, ENEMY_SPEED_FAST, ENEMY_SPEED_SLOW, ENEMY_SPEED_STOP,
    SPEED_SLOW, SPEED_STOP,
};

verus! {

/// Frame shown by an actor whose action has no animation of its own.
pub const IDLE_FRAME: u32 = 18;

/// Frames per animation cycle.
pub const CYCLE_LEN: u32 = 4;

pub const WALK_FIRST: u32 = 18;
pub const CHARGE_FIRST: u32 = 14;
pub const CHOP_FIRST: u32 = 27;
pub const BLOCK_FIRST: u32 = 23;
pub const FLY_FIRST: u32 = 23;
pub const JUMP_FIRST: u32 = 23;

/// First frame of the animation cycle that the player plays for an action,
/// if it has one.
pub open spec fn player_cycle(a: Action) -> Option<u32> {
    match a {
        Action::Walk => Some(WALK_FIRST),
        Action::Charge => Some(CHARGE_FIRST),
        Action::Fly => Some(FLY_FIRST),
        Action::Jump => Some(JUMP_FIRST),
        _ => None,
    }
}

/// First frame of the animation cycle that an enemy plays for an action, if
/// it has one.
pub open spec fn enemy_cycle(a: Action) -> Option<u32> {
    match a {
        Action::Walk => Some(WALK_FIRST),
        Action::Charge => Some(CHARGE_FIRST),
        Action::Chop => Some(CHOP_FIRST),
        Action::Block => Some(BLOCK_FIRST),
        _ => None,
    }
}

/// One step along the cycle `first, first + 1, first + 2, first + 3`: a frame
/// before the last moves one on, any other frame restarts the cycle.
pub open spec fn cycle_step(first: u32, frame: u32) -> u32 {
    if first <= frame && frame < first + CYCLE_LEN - 1 {
        (frame + 1) as u32
    } else {
        first
    }
}

/// Last frame of the cycle that starts at `first`.
pub open spec fn cycle_last(first: u32) -> int {
    first + CYCLE_LEN - 1
}

/// The frame shown after one tick of the cycle that starts at `cycle`, or
/// the idle frame when there is no cycle.
pub open spec fn next_frame(cycle: Option<u32>, frame: u32) -> u32 {
    match cycle {
        Some(first) => cycle_step(first, frame),
        None => IDLE_FRAME,
    }
}

/// The frame after one tick is the last of its cycle.
pub open spec fn ends_cycle(cycle: Option<u32>, frame: u32) -> bool {
    cycle is Some && next_frame(cycle, frame) == cycle_last(cycle->0)
}

/// Actions of the player that end, rather than loop, on their last frame.
pub open spec fn player_one_shot(a: Action) -> bool {
    a is Charge || a is Fly
}

/// Actions of an enemy that end, rather than loop, on their last frame.
pub open spec fn enemy_one_shot(a: Action) -> bool {
    a is Charge || a is Chop || a is Block
}

/// The player after one animation tick. A charge or a flight ends in
/// `Stand` with speed zero on its last frame; a jump ends in `Walk` at
/// walking speed and in `Stand` when still.
pub open spec fn player_animated(p: Player) -> Player {
    let cycle = player_cycle(p.action);
    let frame = next_frame(cycle, p.frame);
    let at_end = ends_cycle(cycle, p.frame);
    if at_end && player_one_shot(p.action) {
        Player { frame, action: Action::Stand, speed: SPEED_STOP, ..p }
    } else if at_end && p.action is Jump && p.speed == SPEED_SLOW {
        Player { frame, action: Action::Walk, ..p }
    } else if at_end && p.action is Jump && p.speed == SPEED_STOP {
        Player { frame, action: Action::Stand, ..p }
    } else {
        Player { frame, ..p }
    }
}

/// The speed an enemy's action sets while it plays.
pub open spec fn enemy_action_speed(a: Action, speed: u32) -> u32 {
    match a {
        Action::Walk => ENEMY_SPEED_SLOW,
        Action::Charge => ENEMY_SPEED_FAST,
        Action::Block => ENEMY_SPEED_STOP,
        _ => speed,
    }
}

/// The enemy after one animation tick. Walking sets the slow speed, charging
/// the fast one, blocking stops it; a charge, chop or block ends in `Stand`
/// with speed zero on its last frame.
pub open spec fn enemy_animated(e: Enemy) -> Enemy {
    let cycle = enemy_cycle(e.action);
    let frame = next_frame(cycle, e.frame);
    if ends_cycle(cycle, e.frame) && enemy_one_shot(e.action) {
        Enemy { frame, action: Action::Stand, speed: ENEMY_SPEED_STOP, ..e }
    } else {
        Enemy { frame, speed: enemy_action_speed(e.action, e.speed), ..e }
    }
}

/// Whether the sprite is drawn mirrored: an actor facing left is.
pub fn facing_mirrored(d: Direction) -> (r: bool)
    ensures
        r == (d is Left),
{
    match d {
        Direction::Left => true,
        _ => false,
    }
}

/// The player's animation cycle for an action.
pub fn player_cycle_of(a: Action) -> (r: Option<u32>)
    ensures
        r == player_cycle(a),
{
    match a {
        Action::Walk => Some(WALK_FIRST),
        Action::Charge => Some(CHARGE_FIRST),
        Action::Fly => Some(FLY_FIRST),
        Action::Jump => Some(JUMP_FIRST),
        _ => None,
    }
}

/// An enemy's animation cycle for an action.
pub fn enemy_cycle_of(a: Action) -> (r: Option<u32>)
    ensures
        r == enemy_cycle(a),
{
    match a {
        Action::Walk => Some(WALK_FIRST),
        Action::Charge => Some(CHARGE_FIRST),
        Action::Chop => Some(CHOP_FIRST),
        Action::Block => Some(BLOCK_FIRST),
        _ => None,
    }
}

/// Advances `frame` by one tick of the cycle that starts at `cycle`; also
/// tells whether the new frame is the last of the cycle.
pub fn advance_frame(cycle: Option<u32>, frame: u32) -> (r: (u32, bool))
    requires
        cycle matches Some(first) ==> first + CYCLE_LEN <= u32::MAX,
    ensures
        r.0 == next_frame(cycle, frame),
        r.1 == ends_cycle(cycle, frame),
{
    match cycle {
        Some(first) => {
            let next = if first <= frame && frame < first + CYCLE_LEN - 1 {
                frame + 1
            } else {
                first
            };
            (next, next == first + CYCLE_LEN - 1)
        },
        None => (IDLE_FRAME, false),
    }
}

/// One animation tick of the player.
pub fn animate_player(p: &mut Player)
    ensures
        *final(p) == player_animated(*old(p)),
{
    let (frame, at_end) = advance_frame(player_cycle_of(p.action), p.frame);
    p.frame = frame;
    match p.action {
        Action::Charge | Action::Fly => {
            if at_end {
                p.speed = SPEED_STOP;
                p.action = Action::Stand;
            }
        },
        Action::Jump => {
            if at_end {
                if p.speed == SPEED_SLOW {
                    p.action = Action::Walk;
                } else if p.speed == SPEED_STOP {
                    p.action = Action::Stand;
                }
            }
        },
        _ => {},
    }
}

/// One animation tick of an enemy.
pub fn animate_enemy(e: &mut Enemy)
    ensures
        *final(e) == enemy_animated(*old(e)),
{
    let (frame, at_end) = advance_frame(enemy_cycle_of(e.action), e.frame);
    e.frame = frame;
    match e.action {
        Action::Walk => {
            e.speed = ENEMY_SPEED_SLOW;
        },
        Action::Charge | Action::Chop | Action::Block => {
            if let Action::Charge = e.action {
                e.speed = ENEMY_SPEED_FAST;
            } else if let Action::Block = e.action {
                e.speed = ENEMY_SPEED_STOP;
            }
            if at_end {
                e.speed = ENEMY_SPEED_STOP;
                e.action = Action::Stand;
            }
        },
        _ => {},
    }
}

/// The player after `n` animation ticks with nothing else happening.
pub open spec fn player_ticks(p: Player, n: nat) -> Player
    decreases n,
{
    if n == 0 {
        p
    } else {
        player_ticks(player_animated(p), (n - 1) as nat)
    }
}

/// The enemy after `n` animation ticks with nothing else happening.
pub open spec fn enemy_ticks(e: Enemy, n: nat) -> Enemy
    decreases n,
{
    if n == 0 {
        e
    } else {
        enemy_ticks(enemy_animated(e), (n - 1) as nat)
    }
}

/// Ticks from `frame` until the cycle that starts at `first` shows its last
/// frame.
pub open spec fn ticks_to_last(first: u32, frame: u32) -> nat {
    if first <= frame && frame < first + CYCLE_LEN - 1 {
        (first + CYCLE_LEN - 1 - frame) as nat
    } else {
        CYCLE_LEN as nat
    }
}

/// A charge or a flight of the player, from whatever frame it is at, ends
/// within one cycle in `Stand` with speed zero.
pub proof fn lemma_player_one_shot_ends(p: Player)
    requires
        player_one_shot(p.action),
    ensures
        ticks_to_last(player_cycle(p.action)->0, p.frame) <= CYCLE_LEN,
        player_ticks(p, ticks_to_last(player_cycle(p.action)->0, p.frame)).action == Action::Stand,
        player_ticks(p, ticks_to_last(player_cycle(p.action)->0, p.frame)).speed == SPEED_STOP,
    decreases ticks_to_last(player_cycle(p.action)->0, p.frame),
{
    let first = player_cycle(p.action)->0;
    let n = ticks_to_last(first, p.frame);
    let q = player_animated(p);
    assert(player_ticks(p, n) == player_ticks(q, (n - 1) as nat));
    if n > 1 {
        assert(q.action == p.action);
        assert(ticks_to_last(first, q.frame) == n - 1);
        lemma_player_one_shot_ends(q);
    }
}

/// A charge, chop or block of an enemy, from whatever frame it is at, ends
/// within one cycle in `Stand` with speed zero.
pub proof fn lemma_enemy_one_shot_ends(e: Enemy)
    requires
        enemy_one_shot(e.action),
    ensures
        ticks_to_last(enemy_cycle(e.action)->0, e.frame) <= CYCLE_LEN,
        enemy_ticks(e, ticks_to_last(enemy_cycle(e.action)->0, e.frame)).action == Action::Stand,
        enemy_ticks(e, ticks_to_last(enemy_cycle(e.action)->0, e.frame)).speed == ENEMY_SPEED_STOP,
    decreases ticks_to_last(enemy_cycle(e.action)->0, e.frame),
{
    let first = enemy_cycle(e.action)->0;
    let n = ticks_to_last(first, e.frame);
    let q = enemy_animated(e);
    assert(enemy_ticks(e, n) == enemy_ticks(q, (n - 1) as nat));
    if n > 1 {
        assert(q.action == e.action);
        assert(ticks_to_last(first, q.frame) == n - 1);
        lemma_enemy_one_shot_ends(q);
    }
}

} // verus!
