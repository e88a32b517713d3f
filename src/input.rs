use vstd::prelude::*;
use crate::actor::{Action, Direction, Player, SPEED_FAST, SPEED_SLOW, SPEED_STOP};

verus! {

/// The state of the four game keys in one frame: left, right, charge and
/// jump. `pressed` and `released` are transitions of this frame, `held` is
/// the key being down.
#[derive(Clone, Copy, Debug, PartialEq, Eq, Structural)]
pub struct KeyEvents {
    pub left_pressed: bool,
    pub left_held: bool,
    pub left_released: bool,
    pub right_pressed: bool,
    pub right_held: bool,
    pub right_released: bool,
    pub charge_pressed: bool,
    pub jump_pressed: bool,
}

/// Walking the way `d` at slow speed.
pub open spec fn walking(p: Player, d: Direction) -> Player {
    Player { direction: d, action: Action::Walk, speed: SPEED_SLOW, ..p }
}

/// Standing still.
pub open spec fn standing(p: Player) -> Player {
    Player { action: Action::Stand, speed: SPEED_STOP, ..p }
}

/// Charging at fast speed.
pub open spec fn charging(p: Player) -> Player {
    Player { action: Action::Charge, speed: SPEED_FAST, ..p }
}

/// The player after this frame's key transitions, taken in the order left,
/// right, charge, jump, a later one overriding an earlier one: pressing a
/// direction walks that way, releasing it stands, the charge key charges
/// and the jump key jumps.
pub open spec fn input_applied(p: Player, k: KeyEvents) -> Player {
    let p1 = if k.left_pressed { walking(p, Direction::Left) } else { p };
    let p2 = if k.left_released { standing(p1) } else { p1 };
    let p3 = if k.right_pressed { walking(p2, Direction::Right) } else { p2 };
    let p4 = if k.right_released { standing(p3) } else { p3 };
    let p5 = if k.charge_pressed { charging(p4) } else { p4 };
    if k.jump_pressed { Player { action: Action::Jump, ..p5 } } else { p5 }
}

/// The player after this frame's keys when a held direction key keeps
/// walking: as `input_applied`, but with held keys in place of presses and
/// no jump.
pub open spec fn moves_applied(p: Player, k: KeyEvents) -> Player {
    let p1 = if k.left_held { walking(p, Direction::Left) } else { p };
    let p2 = if k.left_released { standing(p1) } else { p1 };
    let p3 = if k.right_held { walking(p2, Direction::Right) } else { p2 };
    let p4 = if k.right_released { standing(p3) } else { p3 };
    if k.charge_pressed { charging(p4) } else { p4 }
}

fn walk(p: &mut Player, d: Direction)
    ensures
        *final(p) == walking(*old(p), d),
{
    p.direction = d;
    p.action = Action::Walk;
    p.speed = SPEED_SLOW;
}

fn stand(p: &mut Player)
    ensures
        *final(p) == standing(*old(p)),
{
    p.action = Action::Stand;
    p.speed = SPEED_STOP;
}

fn charge(p: &mut Player)
    ensures
        *final(p) == charging(*old(p)),
{
    p.speed = SPEED_FAST;
    p.action = Action::Charge;
}

/// Maps this frame's key transitions onto the player's intent.
pub fn input_player(p: &mut Player, k: &KeyEvents)
    ensures
        *final(p) == input_applied(*old(p), *k),
{
    if k.left_pressed {
        walk(p, Direction::Left);
    }
    if k.left_released {
        stand(p);
    }
    if k.right_pressed {
        walk(p, Direction::Right);
    }
    if k.right_released {
        stand(p);
    }
    if k.charge_pressed {
        charge(p);
    }
    if k.jump_pressed {
        if p.action != Action::Jump {
            p.action = Action::Jump;
        }
    }
}

/// Maps this frame's keys onto the player's intent, a held direction key
/// walking on every frame.
pub fn move_player(p: &mut Player, k: &KeyEvents)
    ensures
        *final(p) == moves_applied(*old(p), *k),
{
    if k.left_held {
        walk(p, Direction::Left);
    }
    if k.left_released {
        stand(p);
    }
    if k.right_held {
        walk(p, Direction::Right);
    }
    if k.right_released {
        stand(p);
    }
    if k.charge_pressed {
        charge(p);
    }
}

} // verus!
