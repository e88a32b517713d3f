use vstd::prelude::*;
use crate::geometry::Rect;

verus! {

/// Player speeds, in whole units per second.
pub const SPEED_FAST: u32 = 300;
pub const SPEED_MED: u32 = 200;
pub const SPEED_SLOW: u32 = 100;
pub const SPEED_STOP: u32 = 0;

/// Enemy speeds, in whole units per second. These are tuning values chosen
/// for this game: slower than the player's matching speeds.
pub const ENEMY_SPEED_FAST: u32 = 150;
pub const ENEMY_SPEED_MED: u32 = 100;
pub const ENEMY_SPEED_SLOW: u32 = 50;
pub const ENEMY_SPEED_STOP: u32 = 0;

/// The gameplay behaviour an actor is engaged in. Being an enum, exactly one
/// of them is active at a time.
#[derive(Clone, Copy, Debug, PartialEq, Eq, Structural)]
pub enum Action {
    Stand,
    Walk,
    Charge,
    Chop,
    Jump,
    Fly,
    Bumped,
    Block,
}

/// Where an actor faces, or that it does not move.
#[derive(Clone, Copy, Debug, PartialEq, Eq, Structural)]
pub enum Direction {
    Left,
    Right,
    NotMoving,
}

/// A point of the world; `z` is the depth coefficient in thousandths, which
/// both orders drawing and scales parallax scrolling.
#[derive(Clone, Copy, Debug, PartialEq, Eq, Structural)]
pub struct Position {
    pub x: i64,
    pub y: i64,
    pub z: u32,
}

/// A velocity in milli-units per second.
#[derive(Clone, Copy, Debug, PartialEq, Eq, Structural)]
pub struct Velocity {
    pub x: i64,
    pub y: i64,
}

/// The body box of an actor and the box its attacks reach, both centred on
/// the actor.
#[derive(Clone, Copy, Debug, PartialEq, Eq, Structural)]
pub struct StrikeBox {
    pub w: i64,
    pub h: i64,
    pub attack_w: i64,
    pub attack_h: i64,
}

/// What physics and collision act on: where an actor is, how it moves,
/// whether gravity pulls it, and its boxes.
#[derive(Clone, Copy, Debug, PartialEq, Eq, Structural)]
pub struct Body {
    pub pos: Position,
    pub vel: Velocity,
    pub falling: bool,
    pub strike: StrikeBox,
}

/// The one player.
#[derive(Clone, Copy, Debug, PartialEq, Eq, Structural)]
pub struct Player {
    pub body: Body,
    pub action: Action,
    pub direction: Direction,
    /// Speed modifier, in units per second.
    pub speed: u32,
    /// Last known x of the player, which enemies close in on.
    pub current_x: i64,
    pub attacking: bool,
    /// Sprite-atlas frame shown.
    pub frame: u32,
}

/// An enemy.
#[derive(Clone, Copy, Debug, PartialEq, Eq, Structural)]
pub struct Enemy {
    pub body: Body,
    pub action: Action,
    pub direction: Direction,
    /// Speed modifier, in units per second.
    pub speed: u32,
    /// Scale of the enemy's scroll velocity (the base velocity of its layer).
    pub scroll_factor: i16,
    pub near_player: bool,
    pub attacking: bool,
    /// Sprite-atlas frame shown.
    pub frame: u32,
}

/// Size of the game window.
#[derive(Clone, Copy, Debug, PartialEq, Eq, Structural)]
pub struct WinSize {
    pub w: i64,
    pub h: i64,
}

/// The body box of the actor, where it stands.
pub open spec fn body_rect(b: Body) -> Rect {
    Rect { x: b.pos.x, y: b.pos.y, w: b.strike.w, h: b.strike.h }
}

/// The box that the actor's attacks reach, where it stands.
pub open spec fn attack_rect(b: Body) -> Rect {
    Rect { x: b.pos.x, y: b.pos.y, w: b.strike.attack_w, h: b.strike.attack_h }
}

impl Body {
    pub fn body_rect(&self) -> (r: Rect)
        ensures
            r == body_rect(*self),
    {
        Rect { x: self.pos.x, y: self.pos.y, w: self.strike.w, h: self.strike.h }
    }

    pub fn attack_rect(&self) -> (r: Rect)
        ensures
            r == attack_rect(*self),
    {
        Rect { x: self.pos.x, y: self.pos.y, w: self.strike.attack_w, h: self.strike.attack_h }
    }
}

/// How many actions `a` holds active: one for each variant that it is.
pub open spec fn active_count(a: Action) -> int {
    (if a is Stand { 1int } else { 0int }) + (if a is Walk { 1int } else { 0int }) + (if a is Charge {
        1int
    } else {
        0int
    }) + (if a is Chop { 1int } else { 0int }) + (if a is Jump { 1int } else { 0int }) + (if a is Fly {
        1int
    } else {
        0int
    }) + (if a is Bumped { 1int } else { 0int }) + (if a is Block { 1int } else { 0int })
}

/// An actor never holds two actions at once, nor none: exactly one is active.
pub proof fn lemma_one_action_active(a: Action)
    ensures
        active_count(a) == 1,
{
}

} // verus!
