//! From overlaps to hits: which armed hitbox strikes which character in one
//! resolution pass.
//!
//! The physics engine reports which attack hitbox overlaps which hurtbox.
//! The pass walks the hurtboxes in the order of the registry and, for each
//! character that can be struck and has not been struck in this pass, takes
//! the first hitbox, in the order of the registry, that is armed, overlaps
//! the hurtbox and belongs to somebody else.

use crate::character::{find, index_of, lemma_found_by_key, unique_keys, Character, Role};
use crate::hitbox::{
    find_owner,
    hitbox_owner,
    owner_of,
    owning_character,
    AttackHitbox,
    AttackSensor,
    CharacterHitbox,
};
use vstd::prelude::*;

verus! {

/// An attack hitbox and a hurtbox whose shapes overlap.
#[derive(Clone, Copy, Debug, PartialEq, Eq, Structural)]
pub struct Overlap {
    pub hitbox: u64,
    pub hurtbox: u64,
}

/// A hit: the hitbox that struck, which holds the damage, and the character
/// that was struck.
#[derive(Clone, Copy, Debug, PartialEq, Eq, Structural)]
pub struct DamageHitEvent {
    pub attack_hitbox: u64,
    pub target: u64,
}

/// The engine reported that the two shapes overlap.
pub open spec fn overlapping(overlaps: Seq<Overlap>, hitbox: u64, hurtbox: u64) -> bool {
    overlaps.contains(Overlap { hitbox, hurtbox })
}

/// The hitbox strikes through the hurtbox: it is armed, the shapes overlap,
/// and its owner is known and is not the character behind the hurtbox.
pub open spec fn strikes(
    sensors: Seq<AttackSensor>,
    overlaps: Seq<Overlap>,
    hitbox: AttackHitbox,
    hurtbox: CharacterHitbox,
) -> bool {
    &&& hitbox.armed
    &&& overlapping(overlaps, hitbox.id, hurtbox.id)
    &&& owner_of(sensors, hitbox) is Some
    &&& owner_of(sensors, hitbox) != Some(hurtbox.owner)
}

/// The first hitbox at or after `from` that strikes through the hurtbox.
pub open spec fn first_strike(
    sensors: Seq<AttackSensor>,
    overlaps: Seq<Overlap>,
    hitboxes: Seq<AttackHitbox>,
    hurtbox: CharacterHitbox,
    from: int,
) -> Option<int>
    decreases hitboxes.len() - from,
{
    if from < 0 || from >= hitboxes.len() {
        None
    } else if strikes(sensors, overlaps, hitboxes[from], hurtbox) {
        Some(from)
    } else {
        first_strike(sensors, overlaps, hitboxes, hurtbox, from + 1)
    }
}

/// The character behind the hurtbox is registered and can be struck.
pub open spec fn target_open(characters: Seq<Character>, hurtbox: CharacterHitbox) -> bool {
    match index_of(characters, hurtbox.owner) {
        Some(i) => characters[i].can_be_hit(),
        None => false,
    }
}

/// One of the hits is on `target`.
pub open spec fn struck(events: Seq<DamageHitEvent>, target: u64) -> bool {
    exists|k: int| 0 <= k < events.len() && (#[trigger] events[k]).target == target
}

/// The hit, if any, that the hurtbox adds to the hits found before it.
pub open spec fn hit_through(
    sensors: Seq<AttackSensor>,
    hitboxes: Seq<AttackHitbox>,
    characters: Seq<Character>,
    overlaps: Seq<Overlap>,
    hurtbox: CharacterHitbox,
    earlier: Seq<DamageHitEvent>,
) -> Option<DamageHitEvent> {
    if target_open(characters, hurtbox) && !struck(earlier, hurtbox.owner) {
        match first_strike(sensors, overlaps, hitboxes, hurtbox, 0) {
            Some(i) => Some(
                DamageHitEvent { attack_hitbox: hitboxes[i].id, target: hurtbox.owner },
            ),
            None => None,
        }
    } else {
        None
    }
}

/// The hits of a pass over the first `n` hurtboxes.
pub open spec fn hits_among(
    sensors: Seq<AttackSensor>,
    hitboxes: Seq<AttackHitbox>,
    hurtboxes: Seq<CharacterHitbox>,
    characters: Seq<Character>,
    overlaps: Seq<Overlap>,
    n: int,
) -> Seq<DamageHitEvent>
    decreases n,
{
    if n <= 0 {
        Seq::empty()
    } else {
        let earlier = hits_among(sensors, hitboxes, hurtboxes, characters, overlaps, n - 1);
        match hit_through(sensors, hitboxes, characters, overlaps, hurtboxes[n - 1], earlier) {
            Some(event) => earlier.push(event),
            None => earlier,
        }
    }
}

/// The hits of a whole pass.
pub open spec fn damage_events(
    sensors: Seq<AttackSensor>,
    hitboxes: Seq<AttackHitbox>,
    hurtboxes: Seq<CharacterHitbox>,
    characters: Seq<Character>,
    overlaps: Seq<Overlap>,
) -> Seq<DamageHitEvent> {
    hits_among(sensors, hitboxes, hurtboxes, characters, overlaps, hurtboxes.len() as int)
}

/// The hit comes from an armed hitbox whose owner is somebody other than the
/// character that was struck.
pub open spec fn harms_another(
    sensors: Seq<AttackSensor>,
    hitboxes: Seq<AttackHitbox>,
    event: DamageHitEvent,
) -> bool {
    exists|i: int|
        0 <= i < hitboxes.len() && (#[trigger] hitboxes[i]).id == event.attack_hitbox
            && hitboxes[i].armed && owner_of(sensors, hitboxes[i]) is Some && owner_of(
            sensors,
            hitboxes[i],
        ) != Some(event.target)
}

/// The hitbox that the hit names, the first in the registry with that
/// identity and so the one whose damage is applied, is armed and belongs to
/// somebody other than the character that was struck.
pub open spec fn struck_by_another(
    sensors: Seq<AttackSensor>,
    hitboxes: Seq<AttackHitbox>,
    event: DamageHitEvent,
) -> bool {
    match index_of(hitboxes, event.attack_hitbox) {
        Some(i) => hitboxes[i].armed && owner_of(sensors, hitboxes[i]) is Some && owner_of(
            sensors,
            hitboxes[i],
        ) != Some(event.target),
        None => false,
    }
}

/// Where no two hitboxes share an identity, a hit that comes from a hitbox
/// of somebody else names that hitbox and no other.
pub proof fn lemma_named_hitbox_harms_another(
    sensors: Seq<AttackSensor>,
    hitboxes: Seq<AttackHitbox>,
    event: DamageHitEvent,
)
    requires
        unique_keys(hitboxes),
        harms_another(sensors, hitboxes, event),
    ensures
        struck_by_another(sensors, hitboxes, event),
{
    let i = choose|i: int|
        0 <= i < hitboxes.len() && (#[trigger] hitboxes[i]).id == event.attack_hitbox
            && hitboxes[i].armed && owner_of(sensors, hitboxes[i]) is Some && owner_of(
            sensors,
            hitboxes[i],
        ) != Some(event.target);
    lemma_found_by_key(hitboxes, i);
}

/// The character that was struck is registered and could be struck.
pub open spec fn lands_on_open_target(characters: Seq<Character>, event: DamageHitEvent) -> bool {
    match index_of(characters, event.target) {
        Some(i) => characters[i].can_be_hit(),
        None => false,
    }
}

/// What `first_strike` finds is the first hitbox that strikes, and it finds
/// nothing only where none strikes.
pub proof fn lemma_first_strike(
    sensors: Seq<AttackSensor>,
    overlaps: Seq<Overlap>,
    hitboxes: Seq<AttackHitbox>,
    hurtbox: CharacterHitbox,
    from: int,
)
    requires
        0 <= from,
    ensures
        match first_strike(sensors, overlaps, hitboxes, hurtbox, from) {
            Some(i) => {
                &&& from <= i < hitboxes.len()
                &&& strikes(sensors, overlaps, hitboxes[i], hurtbox)
                &&& forall|k: int|
                    from <= k < i ==> !strikes(sensors, overlaps, #[trigger] hitboxes[k], hurtbox)
            },
            None => forall|k: int|
                from <= k < hitboxes.len() ==> !strikes(
                    sensors,
                    overlaps,
                    #[trigger] hitboxes[k],
                    hurtbox,
                ),
        },
    decreases hitboxes.len() - from,
{
    if from < hitboxes.len() && !strikes(sensors, overlaps, hitboxes[from], hurtbox) {
        lemma_first_strike(sensors, overlaps, hitboxes, hurtbox, from + 1);
    }
}

fn overlap_reported(overlaps: &Vec<Overlap>, hitbox: u64, hurtbox: u64) -> (yes: bool)
    ensures
        yes == overlapping(overlaps@, hitbox, hurtbox),
{
    let mut i: usize = 0;
    while i < overlaps.len()
        invariant
            i <= overlaps.len(),
            forall|k: int| 0 <= k < i ==> overlaps[k] != (Overlap { hitbox, hurtbox }),
        decreases overlaps.len() - i,
    {
        if overlaps[i].hitbox == hitbox && overlaps[i].hurtbox == hurtbox {
            return true;
        }
        i = i + 1;
    }
    false
}

fn already_struck(events: &Vec<DamageHitEvent>, target: u64) -> (yes: bool)
    ensures
        yes == struck(events@, target),
{
    let mut i: usize = 0;
    while i < events.len()
        invariant
            i <= events.len(),
            forall|k: int| 0 <= k < i ==> (#[trigger] events[k]).target != target,
        decreases events.len() - i,
    {
        if events[i].target == target {
            return true;
        }
        i = i + 1;
    }
    false
}

fn first_striking(
    sensors: &Vec<AttackSensor>,
    overlaps: &Vec<Overlap>,
    hitboxes: &Vec<AttackHitbox>,
    hurtbox: &CharacterHitbox,
) -> (found: Option<usize>)
    ensures
        match found {
            Some(i) => first_strike(sensors@, overlaps@, hitboxes@, *hurtbox, 0) == Some(i as int)
                && i < hitboxes.len(),
            None => first_strike(sensors@, overlaps@, hitboxes@, *hurtbox, 0) is None,
        },
{
    let mut i: usize = 0;
    while i < hitboxes.len()
        invariant
            i <= hitboxes.len(),
            first_strike(sensors@, overlaps@, hitboxes@, *hurtbox, 0) == first_strike(
                sensors@,
                overlaps@,
                hitboxes@,
                *hurtbox,
                i as int,
            ),
        decreases hitboxes.len() - i,
    {
        let hitbox = hitboxes[i];
        if hitbox.armed && overlap_reported(overlaps, hitbox.id, hurtbox.id) {
            match hitbox_owner(sensors, &hitbox) {
                Some(owner) => {
                    if owner != hurtbox.owner {
                        return Some(i);
                    }
                },
                None => {},
            }
        }
        i = i + 1;
    }
    None
}

/// Resolves one pass: turns the overlaps that the engine reported into hits.
///
/// The result is exactly `damage_events`: the hurtboxes are taken in order,
/// a character that cannot be struck or was already struck in this pass is
/// passed over, and of the hitboxes that strike through a hurtbox the first
/// in the registry wins. It follows, and is stated, that
/// - no hit comes from a hitbox of the character it lands on; where no two
///   hitboxes share an identity, this holds of the very hitbox that the hit
///   names;
/// - no character is struck twice in one pass;
/// - every hit lands on a registered character that is neither
///   invulnerable, nor dead, nor in the middle of a soul shift;
/// - a character that can be struck, and through whose hurtbox some hitbox
///   strikes, is struck.
pub fn attack_collision(
    sensors: &Vec<AttackSensor>,
    hitboxes: &Vec<AttackHitbox>,
    hurtboxes: &Vec<CharacterHitbox>,
    characters: &Vec<Character>,
    overlaps: &Vec<Overlap>,
) -> (events: Vec<DamageHitEvent>)
    ensures
        events@ == damage_events(sensors@, hitboxes@, hurtboxes@, characters@, overlaps@),
        forall|k: int|
            0 <= k < events.len() ==> harms_another(sensors@, hitboxes@, #[trigger] events[k]),
        unique_keys(hitboxes@) ==> forall|k: int|
            0 <= k < events.len() ==> struck_by_another(
                sensors@,
                hitboxes@,
                #[trigger] events[k],
            ),
        forall|k: int, l: int|
            0 <= k < l < events.len() ==> (#[trigger] events[k]).target != (
            #[trigger] events[l]).target,
        forall|k: int|
            0 <= k < events.len() ==> lands_on_open_target(characters@, #[trigger] events[k]),
        forall|j: int, i: int|
            0 <= j < hurtboxes.len() && 0 <= i < hitboxes.len() && target_open(
                characters@,
                #[trigger] hurtboxes[j],
            ) && strikes(sensors@, overlaps@, #[trigger] hitboxes[i], hurtboxes[j]) ==> struck(
                events@,
                hurtboxes[j].owner,
            ),
{
    let mut events: Vec<DamageHitEvent> = Vec::new();
    let mut j: usize = 0;
    while j < hurtboxes.len()
        invariant
            j <= hurtboxes.len(),
            events@ == hits_among(sensors@, hitboxes@, hurtboxes@, characters@, overlaps@, j as int),
            forall|k: int|
                0 <= k < events.len() ==> harms_another(sensors@, hitboxes@, #[trigger] events[k]),
            forall|k: int, l: int|
                0 <= k < l < events.len() ==> (#[trigger] events[k]).target != (
                #[trigger] events[l]).target,
            forall|k: int|
                0 <= k < events.len() ==> lands_on_open_target(characters@, #[trigger] events[k]),
            forall|h: int, i: int|
                0 <= h < j && 0 <= i < hitboxes.len() && target_open(
                    characters@,
                    #[trigger] hurtboxes[h],
                ) && strikes(sensors@, overlaps@, #[trigger] hitboxes[i], hurtboxes[h]) ==> struck(
                    events@,
                    hurtboxes[h].owner,
                ),
        decreases hurtboxes.len() - j,
    {
        let hurtbox = hurtboxes[j];
        let ghost before = events@;
        let open = match find(characters, hurtbox.owner) {
            Some(c) => characters[c].vulnerable(),
            None => false,
        };
        if open && !already_struck(&events, hurtbox.owner) {
            proof {
                lemma_first_strike(sensors@, overlaps@, hitboxes@, hurtbox, 0);
            }
            match first_striking(sensors, overlaps, hitboxes, &hurtbox) {
                Some(i) => {
                    let event = DamageHitEvent {
                        attack_hitbox: hitboxes[i].id,
                        target: hurtbox.owner,
                    };
                    events.push(event);
                    proof {
                        assert(events[events.len() - 1] == event);
                    }
                },
                None => {},
            }
        }
        proof {
            assert forall|t: u64| struck(before, t) implies struck(events@, t) by {
                let k = choose|k: int| 0 <= k < before.len() && (#[trigger] before[k]).target == t;
                assert(events[k] == before[k]);
            }
        }
        j = j + 1;
    }
    proof {
        if unique_keys(hitboxes@) {
            assert forall|k: int| 0 <= k < events.len() implies struck_by_another(
                sensors@,
                hitboxes@,
                #[trigger] events[k],
            ) by {
                lemma_named_hitbox_harms_another(sensors@, hitboxes@, events[k]);
            }
        }
    }
    events
}

/// The hitbox belongs to a boss.
pub open spec fn is_boss_hitbox(
    sensors: Seq<AttackSensor>,
    characters: Seq<Character>,
    hitbox: AttackHitbox,
) -> bool {
    match owning_character(sensors, characters, hitbox) {
        Some(owner) => owner.role == Role::Boss,
        None => false,
    }
}

/// The first hitbox at or after `from` that belongs to a boss.
pub open spec fn first_boss_hitbox(
    sensors: Seq<AttackSensor>,
    characters: Seq<Character>,
    hitboxes: Seq<AttackHitbox>,
    from: int,
) -> Option<int>
    decreases hitboxes.len() - from,
{
    if from < 0 || from >= hitboxes.len() {
        None
    } else if is_boss_hitbox(sensors, characters, hitboxes[from]) {
        Some(from)
    } else {
        first_boss_hitbox(sensors, characters, hitboxes, from + 1)
    }
}

/// The hit that the test key deals: the first hitbox of a boss strikes the
/// player `target`, whether they overlap or not. It takes the key, a player
/// that is alive and not invulnerable, and a hitbox of a boss.
pub open spec fn bam(
    pressed: bool,
    sensors: Seq<AttackSensor>,
    hitboxes: Seq<AttackHitbox>,
    characters: Seq<Character>,
    target: Character,
) -> Option<DamageHitEvent> {
    if pressed && target.role == Role::Player && !target.dead && target.invulnerable is None {
        match first_boss_hitbox(sensors, characters, hitboxes, 0) {
            Some(h) => Some(DamageHitEvent { attack_hitbox: hitboxes[h].id, target: target.id }),
            None => None,
        }
    } else {
        None
    }
}

/// Deals the hit of the test key.
pub fn bam_the_player(
    pressed: bool,
    sensors: &Vec<AttackSensor>,
    hitboxes: &Vec<AttackHitbox>,
    characters: &Vec<Character>,
    target: &Character,
) -> (event: Option<DamageHitEvent>)
    ensures
        event == bam(pressed, sensors@, hitboxes@, characters@, *target),
{
    if !(pressed && target.role == Role::Player && !target.dead && target.invulnerable.is_none()) {
        return None;
    }
    let mut i: usize = 0;
    while i < hitboxes.len()
        invariant
            i <= hitboxes.len(),
            pressed && target.role == Role::Player && !target.dead && target.invulnerable is None,
            first_boss_hitbox(sensors@, characters@, hitboxes@, 0) == first_boss_hitbox(
                sensors@,
                characters@,
                hitboxes@,
                i as int,
            ),
        decreases hitboxes.len() - i,
    {
        let hitbox = hitboxes[i];
        match find_owner(sensors, characters, &hitbox) {
            Some(c) => {
                if characters[c].role == Role::Boss {
                    return Some(DamageHitEvent { attack_hitbox: hitbox.id, target: target.id });
                }
            },
            None => {},
        }
        i = i + 1;
    }
    None
}

} // verus!
