use vstd::prelude::*;
use crate::actor::{attack_rect, body_rect, Action, Body, Enemy, Player};
use crate::geometry::{overlap, rects_overlap, Rect, MICROS_PER_UNIT};

verus! {

/// How far below a platform's centre line the bottom of an actor may be and
/// still rest on it.
pub const LANDING_TOLERANCE: i64 = 5 * MICROS_PER_UNIT;

/// A platform: its rectangle, and how it scrolls (depth coefficient in
/// thousandths, and the scale of its scroll velocity, zero for one that
/// stays put).
#[derive(Clone, Copy, Debug, PartialEq, Eq, Structural)]
pub struct Platform {
    pub rect: Rect,
    pub depth: u32,
    pub scroll_factor: i16,
}

/// The bottom of the body's box, raised by the tolerance, is above the
/// platform's centre line. Lengths are doubled to stay whole.
pub open spec fn rests_above(b: Body, pl: Rect) -> bool {
    2 * b.pos.y - b.strike.h + 2 * LANDING_TOLERANCE > 2 * pl.y
}

/// The body touches the platform and rests on it.
pub open spec fn lands_on(b: Body, pl: Rect) -> bool {
    overlap(body_rect(b), pl) && rests_above(b, pl)
}

/// The body touches the platform without resting on it.
pub open spec fn strikes(b: Body, pl: Rect) -> bool {
    overlap(body_rect(b), pl) && !rests_above(b, pl)
}

/// The body rests on some platform.
pub open spec fn grounded(b: Body, platforms: Seq<Platform>) -> bool {
    exists|i: int| 0 <= i < platforms.len() && lands_on(b, #[trigger] platforms[i].rect)
}

/// The body touches some platform without resting on it.
pub open spec fn struck(b: Body, platforms: Seq<Platform>) -> bool {
    exists|i: int| 0 <= i < platforms.len() && strikes(b, #[trigger] platforms[i].rect)
}

/// Whether the body rests on the platform.
pub fn rests_on(b: &Body, pl: &Rect) -> (r: bool)
    ensures
        r == rests_above(*b, *pl),
{
    2 * (b.pos.y as i128) - (b.strike.h as i128) + 2 * (LANDING_TOLERANCE as i128) > 2 * (
    pl.y as i128)
}

/// Tests the body against every platform: whether it rests on one, and
/// whether it runs into one without resting on it.
pub fn platform_contact(b: &Body, platforms: &Vec<Platform>) -> (r: (bool, bool))
    ensures
        r.0 == grounded(*b, platforms@),
        r.1 == struck(*b, platforms@),
{
    let mut on_something = false;
    let mut hit = false;
    let body = b.body_rect();
    let mut i: usize = 0;
    while i < platforms.len()
        invariant
            i <= platforms@.len(),
            body == body_rect(*b),
            on_something == exists|j: int|
                0 <= j < i && lands_on(*b, #[trigger] platforms@[j].rect),
            hit == exists|j: int| 0 <= j < i && strikes(*b, #[trigger] platforms@[j].rect),
        decreases platforms@.len() - i,
    {
        let pl = &platforms[i];
        if rects_overlap(&body, &pl.rect) {
            if rests_on(b, &pl.rect) {
                on_something = true;
            } else {
                hit = true;
            }
        }
        i = i + 1;
    }
    (on_something, hit)
}

/// The player against the platforms: it falls unless it rests on one, and
/// running into one without resting on it bumps it.
pub fn touching_platform_player(p: &mut Player, platforms: &Vec<Platform>)
    ensures
        final(p).body.falling == !grounded(old(p).body, platforms@),
        final(p).action == (if struck(old(p).body, platforms@) {
            Action::Bumped
        } else {
            old(p).action
        }),
        *final(p) == (Player {
            body: Body { falling: final(p).body.falling, ..old(p).body },
            action: final(p).action,
            ..*old(p)
        }),
{
    let (on_something, hit) = platform_contact(&p.body, platforms);
    if hit {
        p.action = Action::Bumped;
    }
    p.body.falling = !on_something;
}

/// An enemy against the platforms: it falls unless it rests on one, and
/// running into one without resting on it makes it stand.
pub fn touching_platform_enemy(e: &mut Enemy, platforms: &Vec<Platform>)
    ensures
        final(e).body.falling == !grounded(old(e).body, platforms@),
        final(e).action == (if struck(old(e).body, platforms@) {
            Action::Stand
        } else {
            old(e).action
        }),
        *final(e) == (Enemy {
            body: Body { falling: final(e).body.falling, ..old(e).body },
            action: final(e).action,
            ..*old(e)
        }),
{
    let (on_something, hit) = platform_contact(&e.body, platforms);
    if hit {
        e.action = Action::Stand;
    }
    e.body.falling = !on_something;
}

/// Charging and chopping are attacks.
pub open spec fn is_attack(a: Action) -> bool {
    a is Charge || a is Chop
}

/// The enemy's attacking flag follows its action.
pub fn attacking_enemy(e: &mut Enemy)
    ensures
        *final(e) == (Enemy { attacking: is_attack(old(e).action), ..*old(e) }),
{
    e.attacking = match e.action {
        Action::Charge | Action::Chop => true,
        _ => false,
    };
}

/// The player's attacking flag follows its action.
pub fn attacking_player(p: &mut Player)
    ensures
        *final(p) == (Player { attacking: is_attack(old(p).action), ..*old(p) }),
{
    p.attacking = match p.action {
        Action::Charge | Action::Chop => true,
        _ => false,
    };
}

/// The player's attack reaches the enemy's body.
pub open spec fn hits_enemy(p: Player, e: Enemy) -> bool {
    p.attacking && overlap(attack_rect(p.body), body_rect(e.body))
}

/// An attacking player whose attack box overlaps the enemy's body bumps it.
pub fn player_enemy_collision(p: &Player, e: &mut Enemy)
    ensures
        *final(e) == (if hits_enemy(*p, *old(e)) {
            Enemy { action: Action::Bumped, ..*old(e) }
        } else {
            *old(e)
        }),
{
    if p.attacking {
        let reach = p.body.attack_rect();
        let target = e.body.body_rect();
        if rects_overlap(&reach, &target) {
            e.action = Action::Bumped;
        }
    }
}

} // verus!
