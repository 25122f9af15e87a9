//! Tuning values of the fight. Durations are in milliseconds, distances in
//! world units.

use vstd::prelude::*;

verus! {

/// Hit points of a freshly possessed player body.
pub const PLAYER_HP: i32 = 40;

/// Hit points of the boss.
pub const BOSS_HP: i32 = 1000;

/// Damage dealt by every attack hitbox a character is spawned with.
pub const ATTACK_DAMAGE: i32 = 10;

/// How long the attack button has to be held for a charged attack.
pub const CHARGED_ATTACK_HOLD: u32 = 500;

/// Invulnerability granted to the player after a hit that it survives.
pub const PLAYER_HIT_INVULNERABILITY: u32 = 2000;

/// Invulnerability granted to any other combatant after a hit that it
/// survives.
pub const NPC_HIT_INVULNERABILITY: u32 = 500;

/// Invulnerability granted to a body when the player takes it over.
pub const SPAWN_INVULNERABILITY: u32 = 10000;

/// Least time between two smashes that the boss starts.
pub const BOSS_SMASH_COOLDOWN: u32 = 5000;

/// Length of a dash, and the invulnerability that comes with it.
pub const DASH_DURATION: u32 = 200;

pub const DASH_INVULNERABILITY: u32 = 400;

/// Length of a hyper dash, and the invulnerability that comes with it.
pub const HYPER_DASH_DURATION: u32 = 500;

pub const HYPER_DASH_INVULNERABILITY: u32 = 500;

/// Speed factor of a dash and of a hyper dash.
pub const DASH_SPEED: u32 = 100;

pub const HYPER_DASH_SPEED: u32 = 500;

/// Half width, per unit of scale, of the band around the player in which the
/// chasing boss stands still.
pub const BOSS_CLOSE_RANGE: i32 = 40;

/// Height at which a body that the player controls stands, and how far below
/// it a body sinks when the player leaves it.
pub const CHAR_Y: i32 = -60;

pub const DEAD_BODY_DROP: i32 = 5;

/// Number of spectators the fight starts with.
pub const CROWD_SIZE: usize = 50;

} // verus!
