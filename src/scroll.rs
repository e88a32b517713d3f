use vstd::prelude::*;
use crate::actor::{Action, Body, Direction, Enemy, Player, Position, WinSize};
use crate::collision::Platform;
use crate::geometry::{fits_i64, Rect};

verus! {

/// A background layer: where it stands, how it scrolls (depth coefficient
/// in thousandths, and the scale of its scroll velocity, zero for one that
/// stays put), its width, and which picture it shows.
#[derive(Clone, Copy, Debug, PartialEq, Eq, Structural)]
pub struct ScrollLayer {
    pub x: i64,
    pub y: i64,
    pub depth: u32,
    pub scroll_factor: i16,
    pub width: i64,
    pub art: u32,
}

/// The world moves against the player: right is -1, left is +1, and no
/// motion is 0.
pub open spec fn direction_sign(d: Direction) -> int {
    match d {
        Direction::Right => -1,
        Direction::Left => 1,
        Direction::NotMoving => 0,
    }
}

/// The scroll velocity the player's motion gives the world, in units per
/// second.
pub open spec fn world_velocity(p: Player) -> int {
    match p.direction {
        Direction::Right => -(p.speed as int),
        Direction::Left => p.speed as int,
        Direction::NotMoving => 0,
    }
}

/// How far something at depth `depth` (thousandths) with scroll scale
/// `factor` moves in `dt_ms` milliseconds at `vel` units per second, in
/// micro-units.
pub open spec fn scroll_offset(vel: int, depth: u32, factor: i16, dt_ms: u32) -> int {
    vel * depth * factor * dt_ms
}

/// Bound on a scroll velocity, in units per second, which the sum of a
/// player's and an enemy's speed modifiers stays within.
pub const VEL_LIMIT: i64 = 0x4_0000_0000;

proof fn lemma_offset_bound(vel: int, depth: u32, factor: i16, dt_ms: u32)
    requires
        -VEL_LIMIT <= vel <= VEL_LIMIT,
    ensures
        -0x4_0000_0000_0000_0000 <= vel * depth <= 0x4_0000_0000_0000_0000,
        -0x2_0000_0000_0000_0000_0000 <= vel * depth * factor <= 0x2_0000_0000_0000_0000_0000,
        -0x2_0000_0000_0000_0000_0000_0000_0000 <= scroll_offset(vel, depth, factor, dt_ms)
            <= 0x2_0000_0000_0000_0000_0000_0000_0000,
{
    let z = depth as int;
    let f = factor as int;
    let t = dt_ms as int;
    let a = vel * z;
    assert(-0x4_0000_0000_0000_0000 <= a <= 0x4_0000_0000_0000_0000) by (nonlinear_arith)
        requires
            -0x4_0000_0000 <= vel <= 0x4_0000_0000,
            0 <= z < 0x1_0000_0000,
            a == vel * z,
    ;
    let b = a * f;
    assert(-0x2_0000_0000_0000_0000_0000 <= b <= 0x2_0000_0000_0000_0000_0000) by (nonlinear_arith)
        requires
            -0x4_0000_0000_0000_0000 <= a <= 0x4_0000_0000_0000_0000,
            -0x8000 <= f < 0x8000,
            b == a * f,
    ;
    let c = b * t;
    assert(-0x2_0000_0000_0000_0000_0000_0000_0000 <= c <= 0x2_0000_0000_0000_0000_0000_0000_0000)
        by (nonlinear_arith)
        requires
            -0x2_0000_0000_0000_0000_0000 <= b <= 0x2_0000_0000_0000_0000_0000,
            0 <= t < 0x1_0000_0000,
            c == b * t,
    ;
}

/// Whether `x` moved by the scroll offset stays in range.
fn shift_in_range(x: i64, vel: i64, depth: u32, factor: i16, dt_ms: u32) -> (r: bool)
    requires
        -VEL_LIMIT <= vel <= VEL_LIMIT,
    ensures
        r == fits_i64(x + scroll_offset(vel as int, depth, factor, dt_ms)),
{
    proof {
        lemma_offset_bound(vel as int, depth, factor, dt_ms);
    }
    let c = vel as i128 * depth as i128 * factor as i128 * dt_ms as i128;
    let moved = x as i128 + c;
    i64::MIN as i128 <= moved && moved <= i64::MAX as i128
}

/// `x` moved by the scroll offset.
fn shift(x: i64, vel: i64, depth: u32, factor: i16, dt_ms: u32) -> (r: i64)
    requires
        -VEL_LIMIT <= vel <= VEL_LIMIT,
        fits_i64(x + scroll_offset(vel as int, depth, factor, dt_ms)),
    ensures
        r == x + scroll_offset(vel as int, depth, factor, dt_ms),
{
    proof {
        lemma_offset_bound(vel as int, depth, factor, dt_ms);
    }
    let a = vel as i128 * depth as i128;
    let b = a * factor as i128;
    let c = b * dt_ms as i128;
    (x as i128 + c) as i64
}

/// The scroll velocity the player's motion gives the world.
pub fn player_world_velocity(p: &Player) -> (r: i64)
    ensures
        r == world_velocity(*p),
{
    match p.direction {
        Direction::Right => -(p.speed as i64),
        Direction::Left => p.speed as i64,
        Direction::NotMoving => 0,
    }
}

/// The layer after one frame of `dt_ms` against the player's motion.
pub open spec fn layer_scrolled(l: ScrollLayer, p: Player, dt_ms: u32) -> ScrollLayer {
    ScrollLayer {
        x: (l.x + scroll_offset(world_velocity(p), l.depth, l.scroll_factor, dt_ms)) as i64,
        ..l
    }
}

/// Whether one frame of scrolling keeps the layer in range.
pub fn layer_scroll_in_range(l: &ScrollLayer, p: &Player, dt_ms: u32) -> (r: bool)
    ensures
        r == fits_i64(l.x + scroll_offset(world_velocity(*p), l.depth, l.scroll_factor, dt_ms)),
{
    shift_in_range(l.x, player_world_velocity(p), l.depth, l.scroll_factor, dt_ms)
}

/// Whether one frame of scrolling keeps the platform in range.
pub fn platform_scroll_in_range(pl: &Platform, p: &Player, dt_ms: u32) -> (r: bool)
    ensures
        r == fits_i64(pl.rect.x + scroll_offset(world_velocity(*p), pl.depth, pl.scroll_factor, dt_ms)),
{
    shift_in_range(pl.rect.x, player_world_velocity(p), pl.depth, pl.scroll_factor, dt_ms)
}

/// Scrolls a background layer against the player's motion for one frame.
pub fn scroll_backgrounds(l: &mut ScrollLayer, p: &Player, dt_ms: u32)
    requires
        fits_i64(old(l).x + scroll_offset(world_velocity(*p), old(l).depth, old(l).scroll_factor, dt_ms)),
    ensures
        *final(l) == layer_scrolled(*old(l), *p, dt_ms),
{
    let vel = player_world_velocity(p);
    l.x = shift(l.x, vel, l.depth, l.scroll_factor, dt_ms);
}

/// Scrolls a platform against the player's motion for one frame.
pub fn scroll_platform(pl: &mut Platform, p: &Player, dt_ms: u32)
    requires
        fits_i64(old(pl).rect.x + scroll_offset(world_velocity(*p), old(pl).depth, old(pl).scroll_factor, dt_ms)),
    ensures
        *final(pl) == platform_scrolled(*old(pl), *p, dt_ms),
{
    let vel = player_world_velocity(p);
    pl.rect.x = shift(pl.rect.x, vel, pl.depth, pl.scroll_factor, dt_ms);
}

/// Scrolling adds up: over the layers that successive frames of `dt_ms` at
/// the player's unchanging motion produce, the last lies `n` times one
/// frame's offset from the first, `n` being the number of frames; that
/// offset is `dt * speed * depth * sign` (times the layer's scroll scale).
pub proof fn lemma_scroll_linear(ls: Seq<ScrollLayer>, p: Player, dt_ms: u32)
    requires
        ls.len() >= 1,
        forall|i: int|
            #![trigger ls[i]]
            0 <= i < ls.len() - 1 ==> fits_i64(
                ls[i].x + scroll_offset(world_velocity(p), ls[i].depth, ls[i].scroll_factor, dt_ms),
            ) && ls[i + 1] == layer_scrolled(ls[i], p, dt_ms),
    ensures
        ls.last().depth == ls[0].depth,
        ls.last().scroll_factor == ls[0].scroll_factor,
        ls.last().x == ls[0].x + (ls.len() - 1) * scroll_offset(
            world_velocity(p),
            ls[0].depth,
            ls[0].scroll_factor,
            dt_ms,
        ),
        scroll_offset(world_velocity(p), ls[0].depth, ls[0].scroll_factor, dt_ms) == direction_sign(
            p.direction,
        ) * p.speed * ls[0].depth * ls[0].scroll_factor * dt_ms,
    decreases ls.len(),
{
    let off = scroll_offset(world_velocity(p), ls[0].depth, ls[0].scroll_factor, dt_ms);
    assert(world_velocity(p) == direction_sign(p.direction) * p.speed);
    let n = ls.len() - 1;
    if n == 0 {
        assert(n * off == 0) by (nonlinear_arith)
            requires
                n == 0,
        ;
    } else {
        let ys = ls.drop_last();
        assert forall|i: int| #![trigger ys[i]] 0 <= i < ys.len() - 1 implies fits_i64(
            ys[i].x + scroll_offset(world_velocity(p), ys[i].depth, ys[i].scroll_factor, dt_ms),
        ) && ys[i + 1] == layer_scrolled(ys[i], p, dt_ms) by {
            assert(ls[i + 1] == layer_scrolled(ls[i], p, dt_ms));
        }
        assert(ys.len() == n && ys.len() >= 1);
        lemma_scroll_linear(ys, p, dt_ms);
        assert(ls[n] == layer_scrolled(ls[n - 1], p, dt_ms));
        assert(ls[n - 1] == ys.last());
        let prev = ls[n - 1].x as int;
        assert(prev == ls[0].x + (n - 1) * off);
        assert(ls[n].x == prev + off);
        assert(ls[n].x == ls[0].x + n * off) by (nonlinear_arith)
            requires
                ls[n].x == prev + off,
                prev == ls[0].x + (n - 1) * off,
        ;
    }
}

/// The platform after one frame of `dt_ms` against the player's motion.
pub open spec fn platform_scrolled(pl: Platform, p: Player, dt_ms: u32) -> Platform {
    Platform {
        rect: Rect {
            x: (pl.rect.x + scroll_offset(world_velocity(p), pl.depth, pl.scroll_factor, dt_ms)) as i64,
            ..pl.rect
        },
        ..pl
    }
}

/// Platforms scroll as layers do: over the platforms that successive frames
/// produce, the last lies `n` frames' offsets from the first, `n` being the
/// number of frames; one that does not scroll, as the ground, stays put.
pub proof fn lemma_platform_scroll_linear(ps: Seq<Platform>, p: Player, dt_ms: u32)
    requires
        ps.len() >= 1,
        forall|i: int|
            #![trigger ps[i]]
            0 <= i < ps.len() - 1 ==> fits_i64(
                ps[i].rect.x + scroll_offset(
                    world_velocity(p),
                    ps[i].depth,
                    ps[i].scroll_factor,
                    dt_ms,
                ),
            ) && ps[i + 1] == platform_scrolled(ps[i], p, dt_ms),
    ensures
        ps.last().depth == ps[0].depth,
        ps.last().scroll_factor == ps[0].scroll_factor,
        ps.last().rect == (Rect { x: ps.last().rect.x, ..ps[0].rect }),
        ps.last().rect.x == ps[0].rect.x + (ps.len() - 1) * scroll_offset(
            world_velocity(p),
            ps[0].depth,
            ps[0].scroll_factor,
            dt_ms,
        ),
        scroll_offset(world_velocity(p), ps[0].depth, ps[0].scroll_factor, dt_ms) == direction_sign(
            p.direction,
        ) * p.speed * ps[0].depth * ps[0].scroll_factor * dt_ms,
        ps[0].scroll_factor == 0 ==> ps.last().rect.x == ps[0].rect.x,
    decreases ps.len(),
{
    let off = scroll_offset(world_velocity(p), ps[0].depth, ps[0].scroll_factor, dt_ms);
    assert(world_velocity(p) == direction_sign(p.direction) * p.speed);
    if ps[0].scroll_factor == 0 {
        let v = world_velocity(p);
        let z = ps[0].depth as int;
        let t = dt_ms as int;
        assert(v * z * 0 * t == 0) by (nonlinear_arith);
    }
    let n = ps.len() - 1;
    if n == 0 {
        assert(n * off == 0) by (nonlinear_arith)
            requires
                n == 0,
        ;
    } else {
        let ys = ps.drop_last();
        assert forall|i: int| #![trigger ys[i]] 0 <= i < ys.len() - 1 implies fits_i64(
            ys[i].rect.x + scroll_offset(
                world_velocity(p),
                ys[i].depth,
                ys[i].scroll_factor,
                dt_ms,
            ),
        ) && ys[i + 1] == platform_scrolled(ys[i], p, dt_ms) by {
            assert(ps[i + 1] == platform_scrolled(ps[i], p, dt_ms));
        }
        assert(ys.len() == n && ys.len() >= 1);
        lemma_platform_scroll_linear(ys, p, dt_ms);
        assert(ps[n] == platform_scrolled(ps[n - 1], p, dt_ms));
        assert(ps[n - 1] == ys.last());
        let prev = ps[n - 1].rect.x as int;
        assert(prev == ps[0].rect.x + (n - 1) * off);
        assert(ps[n].rect.x == prev + off);
        assert(ps[n].rect.x == ps[0].rect.x + n * off) by (nonlinear_arith)
            requires
                ps[n].rect.x == prev + off,
                prev == ps[0].rect.x + (n - 1) * off,
        ;
        if ps[0].scroll_factor == 0 {
            assert(n * off == 0) by (nonlinear_arith)
                requires
                    off == 0,
            ;
        }
    }
}

/// Whether wrapping the layer round, if it wraps, keeps its position in
/// range.
pub open spec fn flip_fits(l: ScrollLayer, d: Direction) -> bool {
    &&& (d is Right && l.x < -l.width) ==> fits_i64(l.x + 2 * l.width)
    &&& (d is Left && l.x > l.width) ==> fits_i64(l.x - 2 * l.width)
}

/// The layer after wrap-around: one that has scrolled past its own width
/// off the side the player walks towards is moved twice its width the other
/// way, back into view.
pub open spec fn layer_flipped(l: ScrollLayer, d: Direction) -> ScrollLayer {
    if d is Right && l.x < -l.width {
        ScrollLayer { x: (l.x + 2 * l.width) as i64, ..l }
    } else if d is Left && l.x > l.width {
        ScrollLayer { x: (l.x - 2 * l.width) as i64, ..l }
    } else {
        l
    }
}

/// Whether wrapping the layer round keeps it in range.
pub fn flip_in_range(l: &ScrollLayer, p: &Player) -> (r: bool)
    ensures
        r == flip_fits(*l, p.direction),
{
    let x = l.x as i128;
    let w = l.width as i128;
    if p.direction == Direction::Right && x < -w {
        i64::MIN as i128 <= x + 2 * w && x + 2 * w <= i64::MAX as i128
    } else if p.direction == Direction::Left && x > w {
        i64::MIN as i128 <= x - 2 * w && x - 2 * w <= i64::MAX as i128
    } else {
        true
    }
}

/// Wraps a background layer that has scrolled out of view round to the
/// other side.
pub fn flip_backgrounds(l: &mut ScrollLayer, p: &Player)
    requires
        flip_fits(*old(l), p.direction),
    ensures
        *final(l) == layer_flipped(*old(l), p.direction),
{
    let w = l.width as i128;
    let x = l.x as i128;
    if p.direction == Direction::Right && x < -w {
        l.x = (x + 2 * w) as i64;
    }
    if p.direction == Direction::Left && x > w {
        l.x = (x - 2 * w) as i64;
    }
}

/// Wrap-around does not wrap twice: a layer inside the visible bound is left
/// alone, and wrapping again right after a wrap changes nothing. A layer more
/// than three widths out, which one wrap cannot bring back, is left out.
pub proof fn lemma_flip_idempotent(l: ScrollLayer, d: Direction)
    requires
        !(d is Right && l.x < -3 * l.width),
        !(d is Left && l.x > 3 * l.width),
    ensures
        layer_flipped(layer_flipped(l, d), d) == layer_flipped(l, d),
        flip_fits(layer_flipped(l, d), d),
        -l.width <= l.x <= l.width ==> layer_flipped(l, d) == l,
{
}

/// Records where the player is, for the enemies to close in on.
pub fn track_player(p: &mut Player)
    ensures
        *final(p) == (Player { current_x: old(p).body.pos.x, ..*old(p) }),
{
    p.current_x = p.body.pos.x;
}

/// The enemy is within the player's visible window: less than half the
/// window's width away.
pub open spec fn in_window(e: Enemy, player_x: i64, win: WinSize) -> bool {
    let d = e.body.pos.x - player_x;
    -win.w < 2 * d < win.w
}

/// Marks whether the enemy is within the player's visible window.
pub fn near_player(e: &mut Enemy, player_x: i64, win: &WinSize)
    ensures
        *final(e) == (Enemy { near_player: in_window(*old(e), player_x, *win), ..*old(e) }),
{
    let d2 = 2 * (e.body.pos.x as i128 - player_x as i128);
    e.near_player = -(win.w as i128) < d2 && d2 < win.w as i128;
}

/// Which way the enemy closes in on the player's tracked x: -1 towards the
/// left, +1 towards the right, 0 when it is not near the player or already
/// within half the player's body height of it, the margin that the player's
/// box is given for its targeting.
pub open spec fn approach_side(e: Enemy, p: Player) -> int {
    if !e.near_player {
        0
    } else if 2 * e.body.pos.x > 2 * p.current_x + p.body.strike.h {
        -1
    } else if 2 * e.body.pos.x < 2 * p.current_x - p.body.strike.h {
        1
    } else {
        0
    }
}

/// The enemy's own horizontal velocity: its speed, the way it closes in.
pub open spec fn approach_velocity(e: Enemy, p: Player) -> int {
    if approach_side(e, p) < 0 {
        -(e.speed as int)
    } else if approach_side(e, p) > 0 {
        e.speed as int
    } else {
        0
    }
}

/// The enemy after one frame of scrolling: it moves with the world and by
/// its own approach, scaled by its depth and scroll scale; near the player
/// it faces the way it closes in and a standing enemy starts to walk.
pub open spec fn enemy_scrolled(e: Enemy, p: Player, dt_ms: u32) -> Enemy {
    let vel = world_velocity(p) + approach_velocity(e, p);
    let x = e.body.pos.x + scroll_offset(vel, e.body.pos.z, e.scroll_factor, dt_ms);
    let body = Body {
        pos: Position { x: x as i64, ..e.body.pos },
        ..e.body
    };
    let direction = if approach_side(e, p) < 0 {
        Direction::Left
    } else if approach_side(e, p) > 0 {
        Direction::Right
    } else {
        e.direction
    };
    let action = if e.near_player && e.action is Stand {
        Action::Walk
    } else {
        e.action
    };
    Enemy { body, direction, action, ..e }
}

/// The enemy's own horizontal velocity.
fn enemy_approach_velocity(e: &Enemy, p: &Player) -> (r: i64)
    ensures
        r == approach_velocity(*e, *p),
{
    if e.near_player {
        let ex = 2 * (e.body.pos.x as i128);
        let cx = 2 * (p.current_x as i128);
        let half = p.body.strike.h as i128;
        if ex > cx + half {
            -(e.speed as i64)
        } else if ex < cx - half {
            e.speed as i64
        } else {
            0
        }
    } else {
        0
    }
}

/// Whether one frame of the enemy's motion keeps it in range.
pub fn enemy_scroll_in_range(e: &Enemy, p: &Player, dt_ms: u32) -> (r: bool)
    ensures
        r == fits_i64(
            e.body.pos.x + scroll_offset(
                world_velocity(*p) + approach_velocity(*e, *p),
                e.body.pos.z,
                e.scroll_factor,
                dt_ms,
            ),
        ),
{
    let vel = player_world_velocity(p) + enemy_approach_velocity(e, p);
    shift_in_range(e.body.pos.x, vel, e.body.pos.z, e.scroll_factor, dt_ms)
}

/// Moves an enemy for one frame: with the world against the player's motion,
/// and near the player also towards it.
pub fn scroll_enemy(e: &mut Enemy, p: &Player, dt_ms: u32)
    requires
        fits_i64(
            old(e).body.pos.x + scroll_offset(
                world_velocity(*p) + approach_velocity(*old(e), *p),
                old(e).body.pos.z,
                old(e).scroll_factor,
                dt_ms,
            ),
        ),
    ensures
        *final(e) == enemy_scrolled(*old(e), *p, dt_ms),
{
    let mut vel = player_world_velocity(p);
    if e.near_player {
        let ex = 2 * (e.body.pos.x as i128);
        let cx = 2 * (p.current_x as i128);
        let half = p.body.strike.h as i128;
        if ex > cx + half {
            vel = vel - e.speed as i64;
            e.direction = Direction::Left;
        } else if ex < cx - half {
            vel = vel + e.speed as i64;
            e.direction = Direction::Right;
        }
        if e.action == Action::Stand {
            e.action = Action::Walk;
        }
    }
    e.body.pos.x = shift(e.body.pos.x, vel, e.body.pos.z, e.scroll_factor, dt_ms);
}

} // verus!
