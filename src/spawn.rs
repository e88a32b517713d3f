use vstd::prelude::*;
use crate::actor::{
    Action, Body, Direction, Enemy, Player, Position, StrikeBox, Velocity, WinSize,
    ENEMY_SPEED_STOP, SPEED_STOP,
};
use crate::collision::Platform;
use crate::geometry::{fits_i64, Rect, MICROS_PER_UNIT};
use crate::scroll::ScrollLayer;

verus! {

/// Depth of the player and the enemies, in thousandths.
pub const ACTOR_DEPTH: u32 = 1800;

/// Where the enemy starts, right of the player.
pub const ENEMY_START_X: i64 = 700 * MICROS_PER_UNIT;

/// Width of a background picture.
pub const BG_WIDTH: i64 = 928 * MICROS_PER_UNIT;

/// Number of background layers that come in a side-by-side pair.
pub const BG_PAIRS: u32 = 9;

/// Height of a platform.
pub const PLATFORM_HEIGHT: i64 = 30 * MICROS_PER_UNIT;

/// How far the ground sits below the bottom of the window.
pub const GROUND_DROP: i64 = 5 * MICROS_PER_UNIT;

/// How high the floating platform stands above the bottom of the window.
pub const LEDGE_HEIGHT: i64 = 60 * MICROS_PER_UNIT;

pub const LEDGE_X: i64 = 300 * MICROS_PER_UNIT;

pub const LEDGE_WIDTH: i64 = 90 * MICROS_PER_UNIT;

/// Depth of the floating platform, in thousandths.
pub const LEDGE_DEPTH: u32 = 1900;

/// The player as it enters the game: at the origin, standing, facing right,
/// still and falling. Its body is 9.6 by 7.1 sprite pixels drawn three and a
/// half times larger; its attack box is as wide as its body and ten units
/// taller.
pub open spec fn spawned_player() -> Player {
    Player {
        body: Body {
            pos: Position { x: 0, y: 0, z: ACTOR_DEPTH },
            vel: Velocity { x: 0, y: 0 },
            falling: true,
            strike: StrikeBox {
                w: 33_600_000,
                h: 24_850_000,
                attack_w: 33_600_000,
                attack_h: 34_850_000,
            },
        },
        action: Action::Stand,
        direction: Direction::Right,
        speed: SPEED_STOP,
        current_x: 0,
        attacking: false,
        frame: 0,
    }
}

/// An enemy as it enters the game: right of the player, standing on its
/// spot, still and not yet near the player. Its body is 40 units wide and
/// 115 high; its attack box is as wide and 130 high.
pub open spec fn spawned_enemy() -> Enemy {
    Enemy {
        body: Body {
            pos: Position { x: ENEMY_START_X, y: 0, z: ACTOR_DEPTH },
            vel: Velocity { x: 0, y: 0 },
            falling: false,
            strike: StrikeBox {
                w: 40_000_000,
                h: 115_000_000,
                attack_w: 40_000_000,
                attack_h: 130_000_000,
            },
        },
        action: Action::Stand,
        direction: Direction::Right,
        speed: ENEMY_SPEED_STOP,
        scroll_factor: 1,
        near_player: false,
        attacking: false,
        frame: 0,
    }
}

/// The player as it enters the game.
pub fn player_spawn() -> (r: Player)
    ensures
        r == spawned_player(),
{
    Player {
        body: Body {
            pos: Position { x: 0, y: 0, z: ACTOR_DEPTH },
            vel: Velocity { x: 0, y: 0 },
            falling: true,
            strike: StrikeBox {
                w: 33_600_000,
                h: 24_850_000,
                attack_w: 33_600_000,
                attack_h: 34_850_000,
            },
        },
        action: Action::Stand,
        direction: Direction::Right,
        speed: SPEED_STOP,
        current_x: 0,
        attacking: false,
        frame: 0,
    }
}

/// An enemy as it enters the game.
pub fn enemy_spawn() -> (r: Enemy)
    ensures
        r == spawned_enemy(),
{
    Enemy {
        body: Body {
            pos: Position { x: ENEMY_START_X, y: 0, z: ACTOR_DEPTH },
            vel: Velocity { x: 0, y: 0 },
            falling: false,
            strike: StrikeBox {
                w: 40_000_000,
                h: 115_000_000,
                attack_w: 40_000_000,
                attack_h: 130_000_000,
            },
        },
        action: Action::Stand,
        direction: Direction::Right,
        speed: ENEMY_SPEED_STOP,
        scroll_factor: 1,
        near_player: false,
        attacking: false,
        frame: 0,
    }
}

/// The bottom of the window, half its height below the origin.
pub open spec fn screen_bottom(win: WinSize) -> int {
    -(win.h / 2)
}

/// The ground: as wide as the window, just below its bottom, fixed in place.
pub open spec fn ground(win: WinSize) -> Platform {
    Platform {
        rect: Rect {
            x: 0,
            y: (screen_bottom(win) - GROUND_DROP) as i64,
            w: win.w,
            h: PLATFORM_HEIGHT,
        },
        depth: 0,
        scroll_factor: 0,
    }
}

/// The floating platform, a little above the bottom of the window; it
/// scrolls with the world.
pub open spec fn ledge(win: WinSize) -> Platform {
    Platform {
        rect: Rect {
            x: LEDGE_X,
            y: (screen_bottom(win) + LEDGE_HEIGHT) as i64,
            w: LEDGE_WIDTH,
            h: PLATFORM_HEIGHT,
        },
        depth: LEDGE_DEPTH,
        scroll_factor: 1,
    }
}

/// The platforms of a window: the ground, then the floating platform.
pub fn platform_spawn(win: &WinSize) -> (r: Vec<Platform>)
    requires
        win.h >= 0,
    ensures
        r@ == seq![ground(*win), ledge(*win)],
{
    let bottom = -(win.h / 2);
    let mut r: Vec<Platform> = Vec::new();
    r.push(
        Platform {
            rect: Rect { x: 0, y: bottom - GROUND_DROP, w: win.w, h: PLATFORM_HEIGHT },
            depth: 0,
            scroll_factor: 0,
        },
    );
    r.push(
        Platform {
            rect: Rect { x: LEDGE_X, y: bottom + LEDGE_HEIGHT, w: LEDGE_WIDTH, h: PLATFORM_HEIGHT },
            depth: LEDGE_DEPTH,
            scroll_factor: 1,
        },
    );
    assert(r@ =~= seq![ground(*win), ledge(*win)]);
    r
}

/// Depth, in thousandths, of the `i`-th pair of background layers, from the
/// farthest to the nearest. Pictures that belong together share a depth so
/// that they scroll in lockstep.
pub open spec fn pair_depth(i: int) -> u32 {
    if i == 0 {
        500
    } else if i == 1 {
        700
    } else if i == 2 {
        800
    } else if i == 3 {
        1000
    } else if i == 4 {
        1300
    } else if i == 5 || i == 6 {
        1500
    } else if i == 7 {
        1600
    } else {
        1900
    }
}

fn pair_depth_exec(i: u32) -> (r: u32)
    ensures
        r == pair_depth(i as int),
{
    if i == 0 {
        500
    } else if i == 1 {
        700
    } else if i == 2 {
        800
    } else if i == 3 {
        1000
    } else if i == 4 {
        1300
    } else if i == 5 || i == 6 {
        1500
    } else if i == 7 {
        1600
    } else {
        1900
    }
}

/// The `j`-th background layer. The first is the sky, picture 0, which does
/// not scroll; then each picture from 1 on comes twice, side by side, at
/// its pair's depth.
pub open spec fn background_layer(j: int) -> ScrollLayer {
    if j == 0 {
        ScrollLayer { x: 0, y: 0, depth: 0, scroll_factor: 0, width: BG_WIDTH, art: 0 }
    } else {
        let i = (j - 1) / 2;
        ScrollLayer {
            x: if (j - 1) % 2 == 0 { 0 } else { BG_WIDTH },
            y: 0,
            depth: pair_depth(i),
            scroll_factor: 1,
            width: BG_WIDTH,
            art: (i + 1) as u32,
        }
    }
}

/// The background layers, in drawing order.
pub fn background_spawn() -> (r: Vec<ScrollLayer>)
    ensures
        r@.len() == 1 + 2 * BG_PAIRS,
        forall|j: int| 0 <= j < r@.len() ==> #[trigger] r@[j] == background_layer(j),
{
    let mut r: Vec<ScrollLayer> = Vec::new();
    r.push(ScrollLayer { x: 0, y: 0, depth: 0, scroll_factor: 0, width: BG_WIDTH, art: 0 });
    let mut i: u32 = 0;
    while i < BG_PAIRS
        invariant
            i <= BG_PAIRS,
            r@.len() == 1 + 2 * i,
            forall|j: int| 0 <= j < r@.len() ==> #[trigger] r@[j] == background_layer(j),
        decreases BG_PAIRS - i,
    {
        let depth = pair_depth_exec(i);
        r.push(ScrollLayer { x: 0, y: 0, depth, scroll_factor: 1, width: BG_WIDTH, art: i + 1 });
        r.push(
            ScrollLayer { x: BG_WIDTH, y: 0, depth, scroll_factor: 1, width: BG_WIDTH, art: i + 1 },
        );
        assert((1 + 2 * i - 1) / 2 == i as int && (1 + 2 * i - 1) % 2 == 0);
        assert((2 + 2 * i - 1) / 2 == i as int && (2 + 2 * i - 1) % 2 == 1);
        i = i + 1;
    }
    r
}

} // verus!
