//! The countdowns that a character carries, advanced once per tick.

use crate::character::{
    AttackCharge,
    AttackCooldown,
    Character,
    DashTimer,
    HyperDashTimer,
    Invulnerable,
    Role,
    Steering,
};
use crate::constants::{DASH_SPEED, HYPER_DASH_SPEED};
use crate::timing::{tick_and_expire, tick_expiring};
use vstd::prelude::*;

verus! {

/// The invulnerability window after `delta_ms` more milliseconds: it closes
/// when its time is up.
pub open spec fn window_after(window: Option<Invulnerable>, delta_ms: u32) -> Option<Invulnerable> {
    match window {
        None => None,
        Some(w) => match tick_expiring(Some(w.0), delta_ms) {
            Some(t) => Some(Invulnerable(t)),
            None => None,
        },
    }
}

/// Whether an invulnerable character is shown tinted: during every second
/// full second of its window.
pub open spec fn tinted(window: Option<Invulnerable>) -> bool {
    match window {
        Some(w) => (w.0.elapsed_ms / 1000) % 2 == 1,
        None => false,
    }
}

/// Advances the invulnerability window of a character and drops it when its
/// time is up. Nothing else about the character changes. The result says
/// whether the character is to be shown tinted.
pub fn invulnerability_timer(character: &mut Character, delta_ms: u32) -> (tint: bool)
    ensures
        *final(character) == (Character {
            invulnerable: window_after(old(character).invulnerable, delta_ms),
            ..*old(character)
        }),
        tint == tinted(final(character).invulnerable),
{
    match character.invulnerable {
        None => false,
        Some(window) => match tick_and_expire(Some(window.0), delta_ms) {
            Some(timer) => {
                character.invulnerable = Some(Invulnerable(timer));
                (timer.elapsed_ms / 1000) % 2 == 1
            },
            None => {
                character.invulnerable = None;
                false
            },
        },
    }
}

/// The attack cooldown after `delta_ms` more milliseconds: it ends when its
/// time is up.
pub open spec fn cooldown_after(cooldown: Option<AttackCooldown>, delta_ms: u32) -> Option<
    AttackCooldown,
> {
    match cooldown {
        None => None,
        Some(c) => match tick_expiring(Some(c.0), delta_ms) {
            Some(t) => Some(AttackCooldown(t)),
            None => None,
        },
    }
}

/// Advances the attack cooldown of a character and drops it when its time is
/// up. Nothing else about the character changes.
pub fn cooldown_timer(character: &mut Character, delta_ms: u32)
    ensures
        *final(character) == (Character {
            cooldown: cooldown_after(old(character).cooldown, delta_ms),
            ..*old(character)
        }),
{
    match character.cooldown {
        None => {},
        Some(cooldown) => match tick_and_expire(Some(cooldown.0), delta_ms) {
            Some(timer) => {
                character.cooldown = Some(AttackCooldown(timer));
            },
            None => {
                character.cooldown = None;
            },
        },
    }
}

/// The charge after `delta_ms` more milliseconds: it grows only while the
/// attack is being charged.
pub open spec fn charge_after(charge: AttackCharge, delta_ms: u32) -> AttackCharge {
    if charge.charging {
        AttackCharge { charging: true, timer: charge.timer.ticked(delta_ms) }
    } else {
        charge
    }
}

/// Advances the charge of an attack. Nothing else about the character
/// changes.
pub fn charged_attack(character: &mut Character, delta_ms: u32)
    ensures
        *final(character) == (Character {
            charge: charge_after(old(character).charge, delta_ms),
            ..*old(character)
        }),
{
    if character.charge.charging {
        character.charge.timer.tick(delta_ms);
    }
}

/// The direction in which a character dashes: the way it faces.
pub open spec fn dash_axis(facing_left: bool) -> i8 {
    if facing_left {
        -1i8
    } else {
        1i8
    }
}

/// The dash after `delta_ms` more milliseconds.
pub open spec fn dash_after(dash: Option<DashTimer>, delta_ms: u32) -> Option<DashTimer> {
    match dash {
        None => None,
        Some(d) => match tick_expiring(Some(d.0), delta_ms) {
            Some(t) => Some(DashTimer(t)),
            None => None,
        },
    }
}

/// Whether dashes are played out for the character: for the player and for
/// the boss.
pub open spec fn dashes(character: Character) -> bool {
    character.role == Role::Player || character.role == Role::Boss
}

/// What a dash asks of the legs of a character during the next `delta_ms`
/// milliseconds: to rush the way it faces while the dash lasts, and to halt
/// when its time is up.
pub open spec fn dash_steering(character: Character, delta_ms: u32) -> Steering {
    if !dashes(character) || character.dash is None {
        Steering::Keep
    } else if dash_after(character.dash, delta_ms) is None {
        Steering::Halt
    } else {
        Steering::Rush(dash_axis(character.facing_left), DASH_SPEED)
    }
}

/// Advances the dash of the player or of the boss.
///
/// While the dash lasts the character rushes the way it faces. When its time
/// is up the dash is dropped and the character halts. Without a dash there
/// is nothing to do.
pub fn dash_timer(character: &mut Character, delta_ms: u32) -> (steering: Steering)
    ensures
        *final(character) == (if dashes(*old(character)) {
            Character { dash: dash_after(old(character).dash, delta_ms), ..*old(character) }
        } else {
            *old(character)
        }),
        steering == dash_steering(*old(character), delta_ms),
{
    if !(character.role == Role::Player || character.role == Role::Boss) {
        return Steering::Keep;
    }
    match character.dash {
        None => Steering::Keep,
        Some(dash) => match tick_and_expire(Some(dash.0), delta_ms) {
            Some(timer) => {
                character.dash = Some(DashTimer(timer));
                Steering::Rush(
                    if character.facing_left {
                        -1
                    } else {
                        1
                    },
                    DASH_SPEED,
                )
            },
            None => {
                character.dash = None;
                Steering::Halt
            },
        },
    }
}

/// The hyper dash after `delta_ms` more milliseconds.
pub open spec fn hyper_dash_after(dash: Option<HyperDashTimer>, delta_ms: u32) -> Option<
    HyperDashTimer,
> {
    match dash {
        None => None,
        Some(d) => match tick_expiring(Some(d.0), delta_ms) {
            Some(t) => Some(HyperDashTimer(t)),
            None => None,
        },
    }
}

/// What a hyper dash asks of the legs of a character during the next
/// `delta_ms` milliseconds.
pub open spec fn hyper_dash_steering(character: Character, delta_ms: u32) -> Steering {
    if character.role != Role::Player || character.hyper_dash is None {
        Steering::Keep
    } else if hyper_dash_after(character.hyper_dash, delta_ms) is None {
        Steering::Halt
    } else {
        Steering::Rush(dash_axis(character.facing_left), HYPER_DASH_SPEED)
    }
}

/// Advances the hyper dash of the player, in the way of `dash_timer` and at
/// the speed of a hyper dash.
pub fn hyper_dash_timer(character: &mut Character, delta_ms: u32) -> (steering: Steering)
    ensures
        *final(character) == (if old(character).role == Role::Player {
            Character {
                hyper_dash: hyper_dash_after(old(character).hyper_dash, delta_ms),
                ..*old(character)
            }
        } else {
            *old(character)
        }),
        steering == hyper_dash_steering(*old(character), delta_ms),
{
    if character.role != Role::Player {
        return Steering::Keep;
    }
    match character.hyper_dash {
        None => Steering::Keep,
        Some(dash) => match tick_and_expire(Some(dash.0), delta_ms) {
            Some(timer) => {
                character.hyper_dash = Some(HyperDashTimer(timer));
                Steering::Rush(
                    if character.facing_left {
                        -1
                    } else {
                        1
                    },
                    HYPER_DASH_SPEED,
                )
            },
            None => {
                character.hyper_dash = None;
                Steering::Halt
            },
        },
    }
}

/// A character after `delta_ms` more milliseconds: each of its countdowns
/// has advanced, and those that ran out are gone. For the dead, time stands
/// still.
pub open spec fn aged(character: Character, delta_ms: u32) -> Character {
    if character.dead {
        character
    } else {
        Character {
            invulnerable: window_after(character.invulnerable, delta_ms),
            cooldown: cooldown_after(character.cooldown, delta_ms),
            charge: charge_after(character.charge, delta_ms),
            dash: if dashes(character) {
                dash_after(character.dash, delta_ms)
            } else {
                character.dash
            },
            hyper_dash: if character.role == Role::Player {
                hyper_dash_after(character.hyper_dash, delta_ms)
            } else {
                character.hyper_dash
            },
            ..character
        }
    }
}

/// What the countdowns of a character ask of the engine after a tick.
#[derive(Clone, Copy, Debug, PartialEq, Eq, Structural)]
pub struct Upkeep {
    pub character: u64,
    /// The character is to be shown tinted.
    pub tint: bool,
    pub dash: Steering,
    pub hyper_dash: Steering,
}

/// What the countdowns of a character ask of the engine after `delta_ms`
/// more milliseconds.
pub open spec fn upkeep_of(character: Character, delta_ms: u32) -> Upkeep {
    if character.dead {
        Upkeep {
            character: character.id,
            tint: false,
            dash: Steering::Keep,
            hyper_dash: Steering::Keep,
        }
    } else {
        Upkeep {
            character: character.id,
            tint: tinted(window_after(character.invulnerable, delta_ms)),
            dash: dash_steering(character, delta_ms),
            hyper_dash: hyper_dash_steering(character, delta_ms),
        }
    }
}

/// Advances every countdown of a living character by one tick.
pub fn age(character: &mut Character, delta_ms: u32) -> (upkeep: Upkeep)
    ensures
        *final(character) == aged(*old(character), delta_ms),
        upkeep == upkeep_of(*old(character), delta_ms),
        old(character).wf() ==> final(character).wf(),
{
    let id = character.id;
    if character.dead {
        return Upkeep { character: id, tint: false, dash: Steering::Keep, hyper_dash: Steering::Keep };
    }
    let tint = invulnerability_timer(character, delta_ms);
    cooldown_timer(character, delta_ms);
    charged_attack(character, delta_ms);
    let dash = dash_timer(character, delta_ms);
    let hyper_dash = hyper_dash_timer(character, delta_ms);
    Upkeep { character: id, tint, dash, hyper_dash }
}

/// The characters after `delta_ms` more milliseconds.
pub open spec fn all_aged(characters: Seq<Character>, delta_ms: u32) -> Seq<Character> {
    Seq::new(characters.len(), |i: int| aged(characters[i], delta_ms))
}

/// What the countdowns of the characters ask of the engine.
pub open spec fn all_upkeep(characters: Seq<Character>, delta_ms: u32) -> Seq<Upkeep> {
    Seq::new(characters.len(), |i: int| upkeep_of(characters[i], delta_ms))
}

/// Advances every countdown of every character by one tick.
pub fn age_all(characters: &mut Vec<Character>, delta_ms: u32) -> (upkeep: Vec<Upkeep>)
    ensures
        final(characters)@ == all_aged(old(characters)@, delta_ms),
        upkeep@ == all_upkeep(old(characters)@, delta_ms),
{
    let mut upkeep: Vec<Upkeep> = Vec::new();
    let mut i: usize = 0;
    while i < characters.len()
        invariant
            i <= characters.len(),
            characters.len() == old(characters).len(),
            upkeep.len() == i,
            forall|k: int| 0 <= k < i ==> #[trigger] characters[k] == aged(old(characters)[k], delta_ms),
            forall|k: int| 0 <= k < i ==> #[trigger] upkeep[k] == upkeep_of(old(characters)[k], delta_ms),
            forall|k: int| i <= k < characters.len() ==> #[trigger] characters[k] == old(characters)[k],
        decreases characters.len() - i,
    {
        let mut character = characters[i];
        let u = age(&mut character, delta_ms);
        characters.set(i, character);
        upkeep.push(u);
        i = i + 1;
    }
    upkeep
}

} // verus!
