//! The attack hitbox registry: which shapes strike, whom they belong to, and
//! when they are armed.
//!
//! A character carries attack sensors, and each sensor carries attack
//! hitboxes. A hitbox names its sensor and the sensor names its owner, so the
//! owner is always found through that link and never stored on the hitbox.

use crate::animations::CharacterState;
use crate::character::{find, index_of, Character, Keyed, Role};
use vstd::prelude::*;

verus! {

/// A group of attack hitboxes that hangs on a character at an offset and is
/// mirrored when the character turns round.
#[derive(Clone, Copy, Debug, PartialEq, Eq, Structural)]
pub struct AttackSensor {
    pub id: u64,
    /// The character that the group hangs on.
    pub owner: u64,
    /// Where the group sits, left or right of its owner.
    pub offset_x: i32,
}

/// A shape that strikes while it is armed.
#[derive(Clone, Copy, Debug, PartialEq, Eq, Structural)]
pub struct AttackHitbox {
    pub id: u64,
    /// The group that the shape belongs to.
    pub sensor: u64,
    /// The damage that the shape deals.
    pub damage: i32,
    /// The shape registers hits.
    pub armed: bool,
    /// The shape is part of the boss's smash.
    pub smash: bool,
    /// The shape is part of the boss's fallen-angel strike.
    pub fallen_angel: bool,
}

/// The shape at which a character can be struck.
#[derive(Clone, Copy, Debug, PartialEq, Eq, Structural)]
pub struct CharacterHitbox {
    pub id: u64,
    /// The character that is struck through this shape.
    pub owner: u64,
}

/// A character has turned round: its attack sensors are to be mirrored.
#[derive(Clone, Copy, Debug, PartialEq, Eq, Structural)]
pub struct FlipAttackSensorEvent(pub u64);

impl Keyed for AttackSensor {
    open spec fn key_of(&self) -> u64 {
        self.id
    }

    fn key(&self) -> (k: u64) {
        self.id
    }
}

impl Keyed for AttackHitbox {
    open spec fn key_of(&self) -> u64 {
        self.id
    }

    fn key(&self) -> (k: u64) {
        self.id
    }
}

impl Keyed for CharacterHitbox {
    open spec fn key_of(&self) -> u64 {
        self.id
    }

    fn key(&self) -> (k: u64) {
        self.id
    }
}

/// The character that a hitbox belongs to: the owner of its sensor. A hitbox
/// whose sensor is not registered has no owner.
pub open spec fn owner_of(sensors: Seq<AttackSensor>, hitbox: AttackHitbox) -> Option<u64> {
    match index_of(sensors, hitbox.sensor) {
        Some(i) => Some(sensors[i].owner),
        None => None,
    }
}

/// The record of the character that a hitbox belongs to.
pub open spec fn owning_character(
    sensors: Seq<AttackSensor>,
    characters: Seq<Character>,
    hitbox: AttackHitbox,
) -> Option<Character> {
    match owner_of(sensors, hitbox) {
        Some(owner) => match index_of(characters, owner) {
            Some(i) => Some(characters[i]),
            None => None,
        },
        None => None,
    }
}

/// The attack-active set of a hitbox, as a predicate on its owner's phase.
///
/// Every hitbox of the player is active in the three strike phases. A hitbox
/// of the boss is active in `Attack` if it belongs to the smash alone, and in
/// `SecondAttack` if it belongs to the fallen-angel strike alone; one that
/// belongs to both or to neither is never active. Nobody else strikes.
pub open spec fn attack_active(role: Role, hitbox: AttackHitbox, state: CharacterState) -> bool {
    match role {
        Role::Player => state.is_strike(),
        Role::Boss => (hitbox.smash && !hitbox.fallen_angel && state == CharacterState::Attack)
            || (hitbox.fallen_angel && !hitbox.smash && state == CharacterState::SecondAttack),
        _ => false,
    }
}

/// Whether a hitbox has to be armed: its owner is a registered character and
/// the owner's phase is in the hitbox's attack-active set.
pub open spec fn should_be_armed(
    sensors: Seq<AttackSensor>,
    characters: Seq<Character>,
    hitbox: AttackHitbox,
) -> bool {
    match owning_character(sensors, characters, hitbox) {
        Some(owner) => attack_active(owner.role, hitbox, owner.state),
        None => false,
    }
}

/// What is wrong with a hitbox that can never be armed.
#[derive(Clone, Copy, Debug, PartialEq, Eq, Structural)]
pub enum ArmingFault {
    /// The hitbox has no sensor, or the sensor has no character.
    Orphan,
    /// A hitbox of the boss that belongs to none of its attacks.
    NonIndexed,
    /// A hitbox of the boss that belongs to two attacks at once.
    DoubleIndexed,
}

/// A hitbox that was left disarmed because of a fault.
#[derive(Clone, Copy, Debug, PartialEq, Eq, Structural)]
pub struct ArmingWarning {
    pub hitbox: u64,
    pub fault: ArmingFault,
}

/// The fault of a hitbox, if it has one.
pub open spec fn fault_of(
    sensors: Seq<AttackSensor>,
    characters: Seq<Character>,
    hitbox: AttackHitbox,
) -> Option<ArmingWarning> {
    match owning_character(sensors, characters, hitbox) {
        None => Some(ArmingWarning { hitbox: hitbox.id, fault: ArmingFault::Orphan }),
        Some(owner) => if owner.role == Role::Boss && hitbox.smash && hitbox.fallen_angel {
            Some(ArmingWarning { hitbox: hitbox.id, fault: ArmingFault::DoubleIndexed })
        } else if owner.role == Role::Boss && !hitbox.smash && !hitbox.fallen_angel {
            Some(ArmingWarning { hitbox: hitbox.id, fault: ArmingFault::NonIndexed })
        } else {
            None
        },
    }
}

/// A hitbox with a fault is never to be armed.
pub proof fn lemma_faulty_is_disarmed(
    sensors: Seq<AttackSensor>,
    characters: Seq<Character>,
    hitbox: AttackHitbox,
)
    requires
        fault_of(sensors, characters, hitbox) is Some,
    ensures
        !should_be_armed(sensors, characters, hitbox),
{
}

/// Whether the hitboxes of the player are armed in the given phase.
pub fn player_attack_hitbox_activation(state: CharacterState) -> (armed: bool)
    ensures
        armed == state.is_strike(),
        forall|hitbox: AttackHitbox| armed == attack_active(Role::Player, hitbox, state),
{
    state.striking()
}

/// Whether a hitbox of the boss is armed in the given phase: only the group
/// of the attack that is playing is, and a hitbox that is in both groups or in
/// none is not.
pub fn boss_attack_hitbox_activation(state: CharacterState, hitbox: &AttackHitbox) -> (armed: bool)
    ensures
        armed == attack_active(Role::Boss, *hitbox, state),
{
    if hitbox.smash && !hitbox.fallen_angel {
        state == CharacterState::Attack
    } else if hitbox.fallen_angel && !hitbox.smash {
        state == CharacterState::SecondAttack
    } else {
        false
    }
}

/// Finds the record of the character that a hitbox belongs to.
pub fn find_owner(
    sensors: &Vec<AttackSensor>,
    characters: &Vec<Character>,
    hitbox: &AttackHitbox,
) -> (owner: Option<usize>)
    ensures
        match owner {
            Some(i) => i < characters.len() && owning_character(sensors@, characters@, *hitbox)
                == Some(characters[i as int]) && owner_of(sensors@, *hitbox) == Some(
                characters[i as int].id,
            ),
            None => owning_character(sensors@, characters@, *hitbox) is None,
        },
{
    match find(sensors, hitbox.sensor) {
        None => None,
        Some(s) => find(characters, sensors[s].owner),
    }
}

/// Reads the identity of the character that a hitbox belongs to.
pub fn hitbox_owner(sensors: &Vec<AttackSensor>, hitbox: &AttackHitbox) -> (owner: Option<u64>)
    ensures
        owner == owner_of(sensors@, *hitbox),
{
    match find(sensors, hitbox.sensor) {
        None => None,
        Some(s) => Some(sensors[s].owner),
    }
}

/// A hitbox with its armed flag set to what its owner's phase asks for.
pub open spec fn rearmed(
    sensors: Seq<AttackSensor>,
    characters: Seq<Character>,
    hitbox: AttackHitbox,
) -> AttackHitbox {
    AttackHitbox { armed: should_be_armed(sensors, characters, hitbox), ..hitbox }
}

/// The hitboxes with every armed flag set to what the owner's phase asks
/// for.
pub open spec fn all_rearmed(
    sensors: Seq<AttackSensor>,
    characters: Seq<Character>,
    hitboxes: Seq<AttackHitbox>,
) -> Seq<AttackHitbox> {
    Seq::new(hitboxes.len(), |i: int| rearmed(sensors, characters, hitboxes[i]))
}

/// Arming the hitboxes twice is arming them once: an armed flag has no say
/// in whether the hitbox is to be armed.
pub proof fn lemma_arming_is_idempotent(
    sensors: Seq<AttackSensor>,
    characters: Seq<Character>,
    hitboxes: Seq<AttackHitbox>,
)
    ensures
        all_rearmed(sensors, characters, all_rearmed(sensors, characters, hitboxes))
            == all_rearmed(sensors, characters, hitboxes),
{
    assert(all_rearmed(sensors, characters, all_rearmed(sensors, characters, hitboxes))
        =~= all_rearmed(sensors, characters, hitboxes));
}

/// The warnings for the first `n` hitboxes, in order.
pub open spec fn warnings_among(
    sensors: Seq<AttackSensor>,
    characters: Seq<Character>,
    hitboxes: Seq<AttackHitbox>,
    n: int,
) -> Seq<ArmingWarning>
    decreases n,
{
    if n <= 0 {
        Seq::empty()
    } else {
        let earlier = warnings_among(sensors, characters, hitboxes, n - 1);
        match fault_of(sensors, characters, hitboxes[n - 1]) {
            Some(w) => earlier.push(w),
            None => earlier,
        }
    }
}

fn arm_one(sensors: &Vec<AttackSensor>, characters: &Vec<Character>, hitbox: AttackHitbox) -> (out: (
    AttackHitbox,
    Option<ArmingWarning>,
))
    ensures
        out.0 == rearmed(sensors@, characters@, hitbox),
        out.1 == fault_of(sensors@, characters@, hitbox),
{
    match find_owner(sensors, characters, &hitbox) {
        None => (
            AttackHitbox { armed: false, ..hitbox },
            Some(ArmingWarning { hitbox: hitbox.id, fault: ArmingFault::Orphan }),
        ),
        Some(c) => {
            let owner = characters[c];
            match owner.role {
                Role::Player => (
                    AttackHitbox { armed: player_attack_hitbox_activation(owner.state), ..hitbox },
                    None,
                ),
                Role::Boss => {
                    let armed = boss_attack_hitbox_activation(owner.state, &hitbox);
                    let warning = if hitbox.smash && hitbox.fallen_angel {
                        Some(ArmingWarning { hitbox: hitbox.id, fault: ArmingFault::DoubleIndexed })
                    } else if !hitbox.smash && !hitbox.fallen_angel {
                        Some(ArmingWarning { hitbox: hitbox.id, fault: ArmingFault::NonIndexed })
                    } else {
                        None
                    };
                    (AttackHitbox { armed, ..hitbox }, warning)
                },
                _ => (AttackHitbox { armed: false, ..hitbox }, None),
            }
        },
    }
}

/// Brings the armed flag of every hitbox in line with its owner's phase.
///
/// After the call a hitbox is armed if and only if its owner is a registered
/// character whose phase is in the hitbox's attack-active set. Nothing else
/// about a hitbox changes. Hitboxes that can never be armed (no owner, or a
/// boss hitbox in both attack groups or in none) are left disarmed and
/// reported, in the order of the registry.
pub fn arm_hitboxes(
    hitboxes: &mut Vec<AttackHitbox>,
    sensors: &Vec<AttackSensor>,
    characters: &Vec<Character>,
) -> (warnings: Vec<ArmingWarning>)
    ensures
        final(hitboxes).len() == old(hitboxes).len(),
        forall|i: int|
            0 <= i < old(hitboxes).len() ==> #[trigger] final(hitboxes)[i] == rearmed(
                sensors@,
                characters@,
                old(hitboxes)[i],
            ),
        forall|i: int|
            0 <= i < final(hitboxes).len() ==> (#[trigger] final(hitboxes)[i].armed
                <==> should_be_armed(sensors@, characters@, final(hitboxes)[i])),
        warnings@ == warnings_among(sensors@, characters@, old(hitboxes)@, old(hitboxes).len() as int),
        final(hitboxes)@ == all_rearmed(sensors@, characters@, old(hitboxes)@),
{
    let mut warnings: Vec<ArmingWarning> = Vec::new();
    let mut i: usize = 0;
    while i < hitboxes.len()
        invariant
            i <= hitboxes.len(),
            hitboxes.len() == old(hitboxes).len(),
            forall|k: int|
                0 <= k < i ==> #[trigger] hitboxes[k] == rearmed(
                    sensors@,
                    characters@,
                    old(hitboxes)[k],
                ),
            forall|k: int| i <= k < hitboxes.len() ==> #[trigger] hitboxes[k] == old(hitboxes)[k],
            warnings@ == warnings_among(sensors@, characters@, old(hitboxes)@, i as int),
        decreases hitboxes.len() - i,
    {
        let (armed, warning) = arm_one(sensors, characters, hitboxes[i]);
        hitboxes.set(i, armed);
        match warning {
            Some(w) => warnings.push(w),
            None => {},
        }
        i = i + 1;
    }
    warnings
}

/// Re-arms the hitboxes of one character after its phase has changed.
///
/// A hitbox whose owner is `character` is armed if and only if the
/// character's phase is in the hitbox's attack-active set; every other hitbox
/// is left as it is.
pub fn on_phase_changed(
    hitboxes: &mut Vec<AttackHitbox>,
    sensors: &Vec<AttackSensor>,
    character: &Character,
)
    ensures
        final(hitboxes).len() == old(hitboxes).len(),
        forall|i: int|
            0 <= i < old(hitboxes).len() ==> #[trigger] final(hitboxes)[i] == (if owner_of(
                sensors@,
                old(hitboxes)[i],
            ) == Some(character.id) {
                AttackHitbox {
                    armed: attack_active(character.role, old(hitboxes)[i], character.state),
                    ..old(hitboxes)[i]
                }
            } else {
                old(hitboxes)[i]
            }),
{
    let mut i: usize = 0;
    while i < hitboxes.len()
        invariant
            i <= hitboxes.len(),
            hitboxes.len() == old(hitboxes).len(),
            forall|k: int|
                0 <= k < i ==> #[trigger] hitboxes[k] == (if owner_of(sensors@, old(hitboxes)[k])
                    == Some(character.id) {
                    AttackHitbox {
                        armed: attack_active(character.role, old(hitboxes)[k], character.state),
                        ..old(hitboxes)[k]
                    }
                } else {
                    old(hitboxes)[k]
                }),
            forall|k: int| i <= k < hitboxes.len() ==> #[trigger] hitboxes[k] == old(hitboxes)[k],
        decreases hitboxes.len() - i,
    {
        let hitbox = hitboxes[i];
        let owner = hitbox_owner(sensors, &hitbox);
        if owner == Some(character.id) {
            let armed = match character.role {
                Role::Player => player_attack_hitbox_activation(character.state),
                Role::Boss => boss_attack_hitbox_activation(character.state, &hitbox),
                _ => false,
            };
            hitboxes.set(i, AttackHitbox { armed, ..hitbox });
        }
        i = i + 1;
    }
}

/// An offset mirrored to the other side. The one offset that has no mirror
/// image goes to the far end of the other side.
pub open spec fn mirrored(offset_x: i32) -> i32 {
    if offset_x == i32::MIN {
        i32::MAX
    } else {
        (-offset_x) as i32
    }
}

/// Whether a turn of the character `id` mirrors its sensors: only the player
/// and the boss turn their sensors with them.
pub open spec fn turns_sensors(characters: Seq<Character>, id: u64) -> bool {
    match index_of(characters, id) {
        Some(i) => characters[i].role == Role::Player || characters[i].role == Role::Boss,
        None => false,
    }
}

/// The sensors after the character `id` has turned round.
pub open spec fn turned(
    sensors: Seq<AttackSensor>,
    characters: Seq<Character>,
    id: u64,
) -> Seq<AttackSensor> {
    Seq::new(
        sensors.len(),
        |i: int|
            if turns_sensors(characters, id) && sensors[i].owner == id {
                AttackSensor { offset_x: mirrored(sensors[i].offset_x), ..sensors[i] }
            } else {
                sensors[i]
            },
    )
}

/// Mirrors the attack sensors of a character that has turned round.
///
/// Every sensor of the character changes sides; no other sensor moves. If
/// the character is unknown, or is neither the player nor the boss, nothing
/// moves and the result is `false`.
pub fn flip_attack_sensor(
    sensors: &mut Vec<AttackSensor>,
    characters: &Vec<Character>,
    event: FlipAttackSensorEvent,
) -> (flipped: bool)
    ensures
        flipped == turns_sensors(characters@, event.0),
        final(sensors)@ == turned(old(sensors)@, characters@, event.0),
        final(sensors).len() == old(sensors).len(),
        forall|i: int|
            0 <= i < old(sensors).len() ==> #[trigger] final(sensors)[i] == (if flipped && old(
                sensors,
            )[i].owner == event.0 {
                AttackSensor { offset_x: mirrored(old(sensors)[i].offset_x), ..old(sensors)[i] }
            } else {
                old(sensors)[i]
            }),
{
    let turns = match find(characters, event.0) {
        Some(c) => characters[c].role == Role::Player || characters[c].role == Role::Boss,
        None => false,
    };
    if !turns {
        return false;
    }
    let mut i: usize = 0;
    while i < sensors.len()
        invariant
            i <= sensors.len(),
            sensors.len() == old(sensors).len(),
            forall|k: int|
                0 <= k < i ==> #[trigger] sensors[k] == (if old(sensors)[k].owner == event.0 {
                    AttackSensor { offset_x: mirrored(old(sensors)[k].offset_x), ..old(sensors)[k] }
                } else {
                    old(sensors)[k]
                }),
            forall|k: int| i <= k < sensors.len() ==> #[trigger] sensors[k] == old(sensors)[k],
        decreases sensors.len() - i,
    {
        let sensor = sensors[i];
        if sensor.owner == event.0 {
            let offset_x: i32 = if sensor.offset_x == i32::MIN {
                i32::MAX
            } else {
                -sensor.offset_x
            };
            sensors.set(i, AttackSensor { offset_x, ..sensor });
        }
        i = i + 1;
    }
    true
}

/// The hitbox belongs to a player.
pub open spec fn is_player_hitbox(
    sensors: Seq<AttackSensor>,
    characters: Seq<Character>,
    hitbox: AttackHitbox,
) -> bool {
    match owning_character(sensors, characters, hitbox) {
        Some(owner) => owner.role == Role::Player,
        None => false,
    }
}

/// A hitbox of the player with `bonus` more damage, up to the largest
/// damage there is; any other hitbox as it is.
pub open spec fn boosted(
    sensors: Seq<AttackSensor>,
    characters: Seq<Character>,
    hitbox: AttackHitbox,
    bonus: i32,
) -> AttackHitbox {
    if is_player_hitbox(sensors, characters, hitbox) {
        AttackHitbox {
            damage: if hitbox.damage + bonus > i32::MAX {
                i32::MAX
            } else if hitbox.damage + bonus < i32::MIN {
                i32::MIN
            } else {
                (hitbox.damage + bonus) as i32
            },
            ..hitbox
        }
    } else {
        hitbox
    }
}

/// Raises the damage of every hitbox of the player by `bonus`. No other
/// hitbox changes.
pub fn boost_player_attacks(
    hitboxes: &mut Vec<AttackHitbox>,
    sensors: &Vec<AttackSensor>,
    characters: &Vec<Character>,
    bonus: i32,
)
    ensures
        final(hitboxes).len() == old(hitboxes).len(),
        forall|i: int|
            0 <= i < old(hitboxes).len() ==> #[trigger] final(hitboxes)[i] == boosted(
                sensors@,
                characters@,
                old(hitboxes)[i],
                bonus,
            ),
{
    let mut i: usize = 0;
    while i < hitboxes.len()
        invariant
            i <= hitboxes.len(),
            hitboxes.len() == old(hitboxes).len(),
            forall|k: int|
                0 <= k < i ==> #[trigger] hitboxes[k] == boosted(
                    sensors@,
                    characters@,
                    old(hitboxes)[k],
                    bonus,
                ),
            forall|k: int| i <= k < hitboxes.len() ==> #[trigger] hitboxes[k] == old(hitboxes)[k],
        decreases hitboxes.len() - i,
    {
        let hitbox = hitboxes[i];
        match find_owner(sensors, characters, &hitbox) {
            Some(c) => {
                if characters[c].role == Role::Player {
                    let sum: i64 = hitbox.damage as i64 + bonus as i64;
                    let damage: i32 = if sum > i32::MAX as i64 {
                        i32::MAX
                    } else if sum < i32::MIN as i64 {
                        i32::MIN
                    } else {
                        sum as i32
                    };
                    hitboxes.set(i, AttackHitbox { damage, ..hitbox });
                }
            },
            None => {},
        }
        i = i + 1;
    }
}

} // verus!
