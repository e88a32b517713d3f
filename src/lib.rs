//! Gameplay core of a side-scrolling action game: the action state machine
//! of the player and the enemies, gravity, platform and strike collisions,
//! parallax scrolling and the enemy's decisions.
//!
//! Every length is an integer count of micro-units (a millionth of a world
//! unit), every velocity is in milli-units per second and every time span is
//! in milliseconds, so that a velocity times a time span is a length exactly.
//! Speed modifiers are whole units per second and depth coefficients are in
//! thousandths, so that a speed times a depth times a time span is again a
//! length in micro-units.
//!
//! A frame runs the systems in a fixed order: the player's keys, gravity,
//! collisions with platforms and between strike boxes, scrolling, the
//! enemies' decisions (once a second) and animation (ten times a second).

pub mod geometry;
pub mod actor;
pub mod animation;
pub mod ai;
pub mod physics;
pub mod input;
pub mod collision;
pub mod scroll;
pub mod spawn;
