use vstd::prelude::*;
use crate::actor::{Action, Body, Direction, Enemy, Player, Position, Velocity, SPEED_MED};
use crate::geometry::{fits_i64, MICROS_PER_UNIT};

verus! {

/// Downward acceleration of gravity, in units per second squared: over `s`
/// milliseconds it takes `GRAVITY * s` milli-units per second off the
/// vertical velocity.
pub const GRAVITY: i64 = 1600;

/// Longest time step that gravity integrates at once, in milliseconds.
pub const MAX_STEP_MS: u32 = 300;

/// Lift that takes a jumping or bumped player off its platform.
pub const PLAYER_LIFT: i64 = 10 * MICROS_PER_UNIT;

/// Sideways shove that takes a bumped player off its platform.
pub const PLAYER_SHOVE: i64 = 10 * MICROS_PER_UNIT;

/// Upward velocity of a jump, in milli-units per second.
pub const JUMP_VELOCITY: i64 = 333_000;

/// Upward velocity of a bumped actor, in milli-units per second.
pub const BUMP_VELOCITY: i64 = 30_000;

/// Lift that takes a bumped enemy off the player.
pub const ENEMY_LIFT: i64 = 30 * MICROS_PER_UNIT;

/// Sideways shove of a bumped enemy, away from the player.
pub const ENEMY_SHOVE: i64 = 40 * MICROS_PER_UNIT;

/// The time step that gravity integrates: the frame time, capped.
pub open spec fn capped_step(dt_ms: u32) -> int {
    if dt_ms < MAX_STEP_MS { dt_ms as int } else { MAX_STEP_MS as int }
}

/// Whether one gravity step on `b` keeps every coordinate in range.
pub open spec fn gravity_fits(b: Body, dt_ms: u32) -> bool {
    let s = capped_step(dt_ms);
    b.falling ==> {
        &&& fits_i64(b.pos.x + b.vel.x * s)
        &&& fits_i64(b.pos.y + b.vel.y * s)
        &&& fits_i64(b.vel.y - GRAVITY * s)
    }
}

/// The body after one gravity step of `dt_ms`: a falling body moves by its
/// velocity over the capped step, then gravity lowers its vertical velocity;
/// a body that does not fall is left alone.
pub open spec fn gravity_applied(b: Body, dt_ms: u32) -> Body {
    let s = capped_step(dt_ms);
    if b.falling {
        Body {
            pos: Position {
                x: (b.pos.x + b.vel.x * s) as i64,
                y: (b.pos.y + b.vel.y * s) as i64,
                ..b.pos
            },
            vel: Velocity { y: (b.vel.y - GRAVITY * s) as i64, ..b.vel },
            ..b
        }
    } else {
        b
    }
}

proof fn lemma_step_product(v: i64, s: i128)
    requires
        0 <= s <= MAX_STEP_MS,
    ensures
        -0x100_0000_0000_0000_0000 <= v * s <= 0x100_0000_0000_0000_0000,
{
    assert(-0x100_0000_0000_0000_0000 <= v * s <= 0x100_0000_0000_0000_0000) by (nonlinear_arith)
        requires
            0 <= s <= 300,
            i64::MIN <= v <= i64::MAX,
    ;
}

/// Whether one gravity step on the body keeps it in range.
pub fn gravity_in_range(b: &Body, dt_ms: u32) -> (r: bool)
    ensures
        r == gravity_fits(*b, dt_ms),
{
    if !b.falling {
        return true;
    }
    let s: i128 = if dt_ms < MAX_STEP_MS { dt_ms as i128 } else { MAX_STEP_MS as i128 };
    proof {
        lemma_step_product(b.vel.x, s);
        lemma_step_product(b.vel.y, s);
        assert(0 <= GRAVITY * s <= 480_000) by (nonlinear_arith)
            requires
                0 <= s <= 300,
                GRAVITY == 1600,
        ;
    }
    let x = b.pos.x as i128 + b.vel.x as i128 * s;
    let y = b.pos.y as i128 + b.vel.y as i128 * s;
    let vy = b.vel.y as i128 - GRAVITY as i128 * s;
    let lo = i64::MIN as i128;
    let hi = i64::MAX as i128;
    lo <= x && x <= hi && lo <= y && y <= hi && lo <= vy && vy <= hi
}

/// One gravity step of `dt_ms` milliseconds on a body.
pub fn gravity_all(b: &mut Body, dt_ms: u32)
    requires
        gravity_fits(*old(b), dt_ms),
    ensures
        *final(b) == gravity_applied(*old(b), dt_ms),
{
    if b.falling {
        let s: i64 = if dt_ms < MAX_STEP_MS { dt_ms as i64 } else { MAX_STEP_MS as i64 };
        let x = b.pos.x as i128 + b.vel.x as i128 * s as i128;
        let y = b.pos.y as i128 + b.vel.y as i128 * s as i128;
        let vy = b.vel.y as i128 - GRAVITY as i128 * s as i128;
        b.pos.x = x as i64;
        b.pos.y = y as i64;
        b.vel.y = vy as i64;
    }
}

/// One gravity step of a falling body: its position moves by the velocity
/// it had over the frame time capped at `MAX_STEP_MS`, and then its vertical
/// velocity drops by `GRAVITY` over that same capped time.
pub proof fn lemma_gravity_step(b: Body, dt_ms: u32)
    requires
        b.falling,
        gravity_fits(b, dt_ms),
    ensures
        capped_step(dt_ms) == (if dt_ms < MAX_STEP_MS { dt_ms as int } else { MAX_STEP_MS as int }),
        gravity_applied(b, dt_ms).pos.x == b.pos.x + b.vel.x * capped_step(dt_ms),
        gravity_applied(b, dt_ms).pos.y == b.pos.y + b.vel.y * capped_step(dt_ms),
        gravity_applied(b, dt_ms).pos.z == b.pos.z,
        gravity_applied(b, dt_ms).vel.x == b.vel.x,
        gravity_applied(b, dt_ms).vel.y == b.vel.y - GRAVITY * capped_step(dt_ms),
        gravity_applied(b, dt_ms).falling,
{
}

/// Whether the player's reaction to its action keeps its position in range.
pub open spec fn control_fits(p: Player) -> bool {
    &&& (p.action is Jump || p.action is Bumped) ==> fits_i64(p.body.pos.y + PLAYER_LIFT)
    &&& p.action is Bumped ==> fits_i64(p.body.pos.x + PLAYER_SHOVE) && fits_i64(
        p.body.pos.x - PLAYER_SHOVE,
    )
}

/// The player after reacting to its action. A jump from solid ground lifts
/// it off and launches it upward; a bump lifts it, turns it round, shoves it
/// the way it now faces and sends it flying at medium speed.
pub open spec fn player_controlled(p: Player) -> Player {
    let b = p.body;
    if p.action is Jump && !b.falling {
        Player {
            body: Body {
                pos: Position { y: (b.pos.y + PLAYER_LIFT) as i64, ..b.pos },
                vel: Velocity { y: JUMP_VELOCITY, ..b.vel },
                falling: true,
                ..b
            },
            ..p
        }
    } else if p.action is Bumped {
        let turned_right = p.direction is Left;
        Player {
            body: Body {
                pos: Position {
                    x: (if turned_right {
                        b.pos.x + PLAYER_SHOVE
                    } else {
                        b.pos.x - PLAYER_SHOVE
                    }) as i64,
                    y: (b.pos.y + PLAYER_LIFT) as i64,
                    ..b.pos
                },
                vel: Velocity { y: BUMP_VELOCITY, ..b.vel },
                falling: true,
                ..b
            },
            direction: if turned_right { Direction::Right } else { Direction::Left },
            speed: SPEED_MED,
            action: Action::Fly,
            ..p
        }
    } else {
        p
    }
}

/// Whether the player's reaction to its action keeps it in range.
pub fn control_in_range(p: &Player) -> (r: bool)
    ensures
        r == control_fits(*p),
{
    let x = p.body.pos.x as i128;
    let y = p.body.pos.y as i128;
    let lo = i64::MIN as i128;
    let hi = i64::MAX as i128;
    let lifts = match p.action {
        Action::Jump | Action::Bumped => y + PLAYER_LIFT as i128 <= hi,
        _ => true,
    };
    let shoves = match p.action {
        Action::Bumped => x + PLAYER_SHOVE as i128 <= hi && lo <= x - PLAYER_SHOVE as i128,
        _ => true,
    };
    lifts && shoves
}

/// The player reacts to its action: it takes off on a jump, and is knocked
/// away when bumped.
pub fn control_player(p: &mut Player)
    requires
        control_fits(*old(p)),
    ensures
        *final(p) == player_controlled(*old(p)),
{
    match p.action {
        Action::Jump => {
            if !p.body.falling {
                p.body.pos.y = p.body.pos.y + PLAYER_LIFT;
                p.body.vel.y = JUMP_VELOCITY;
                p.body.falling = true;
            }
        },
        Action::Bumped => {
            p.body.pos.y = p.body.pos.y + PLAYER_LIFT;
            p.body.vel.y = BUMP_VELOCITY;
            p.body.falling = true;
            if p.direction == Direction::Left {
                p.direction = Direction::Right;
                p.body.pos.x = p.body.pos.x + PLAYER_SHOVE;
            } else {
                p.direction = Direction::Left;
                p.body.pos.x = p.body.pos.x - PLAYER_SHOVE;
            }
            p.speed = SPEED_MED;
            p.action = Action::Fly;
        },
        _ => {},
    }
}

/// Whether a bumped enemy's knock keeps its position in range.
pub open spec fn knock_fits(e: Enemy) -> bool {
    e.action is Bumped ==> {
        &&& fits_i64(e.body.pos.y + ENEMY_LIFT)
        &&& fits_i64(e.body.pos.x + ENEMY_SHOVE)
        &&& fits_i64(e.body.pos.x - ENEMY_SHOVE)
    }
}

/// A bumped enemy launched away: lifted, sent upward and falling, shoved the
/// way the player faces, and standing again. It is `None` when the enemy is
/// not bumped.
pub open spec fn enemy_knocked(e: Enemy, player_dir: Direction) -> Option<Enemy> {
    if e.action is Bumped {
        let b = e.body;
        Some(
            Enemy {
                body: Body {
                    pos: Position {
                        x: (if player_dir is Left {
                            b.pos.x - ENEMY_SHOVE
                        } else {
                            b.pos.x + ENEMY_SHOVE
                        }) as i64,
                        y: (b.pos.y + ENEMY_LIFT) as i64,
                        ..b.pos
                    },
                    vel: Velocity { y: BUMP_VELOCITY, ..b.vel },
                    falling: true,
                    ..b
                },
                action: Action::Stand,
                ..e
            },
        )
    } else {
        None
    }
}

/// Whether a bumped enemy's knock keeps it in range.
pub fn knock_in_range(e: &Enemy) -> (r: bool)
    ensures
        r == knock_fits(*e),
{
    match e.action {
        Action::Bumped => {
            let x = e.body.pos.x as i128;
            let y = e.body.pos.y as i128;
            y + ENEMY_LIFT as i128 <= i64::MAX as i128 && x + ENEMY_SHOVE as i128 <= i64::MAX as i128
                && i64::MIN as i128 <= x - ENEMY_SHOVE as i128
        },
        _ => true,
    }
}

/// A bumped enemy is launched away from the player, and the player's attack
/// that bumped it is over. Nothing happens to an enemy that is not bumped.
pub fn control_enemy(e: &mut Enemy, p: &mut Player)
    requires
        knock_fits(*old(e)),
    ensures
        match enemy_knocked(*old(e), old(p).direction) {
            Some(k) => *final(e) == k && *final(p) == (Player { attacking: false, ..*old(p) }),
            None => *final(e) == *old(e) && *final(p) == *old(p),
        },
{
    if e.action == Action::Bumped {
        p.attacking = false;
        e.body.pos.y = e.body.pos.y + ENEMY_LIFT;
        e.body.vel.y = BUMP_VELOCITY;
        e.body.falling = true;
        if p.direction == Direction::Left {
            e.body.pos.x = e.body.pos.x - ENEMY_SHOVE;
        } else {
            e.body.pos.x = e.body.pos.x + ENEMY_SHOVE;
        }
        e.action = Action::Stand;
    }
}

} // verus!
