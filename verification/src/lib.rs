//! Combat resolution and boss behaviour for a side-scrolling arena fight.
//!
//! The crate holds the rules of the fight as plain data and total functions:
//! which attack hitboxes are armed, which overlaps become hits, how a hit
//! changes hit points and invulnerability, how a dying player moves on to a
//! new body, and how the boss picks and carries out its actions. The engine
//! around it supplies overlaps, input and elapsed time, and applies what the
//! functions here decide.

pub mod animations;
pub mod behaviors;
pub mod character;
pub mod collision;
pub mod constants;
pub mod damage;
pub mod hitbox;
pub mod physics;
pub mod player;
pub mod soul_shift;
pub mod spawn;
pub mod timers;
pub mod timing;
pub mod world;
