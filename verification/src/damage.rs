//! Damage application: what a hit does to the character it lands on.
//!
//! A hit that the target survives lowers its hit points and opens a fresh
//! invulnerability window. A hit that it does not survive sets its hit points
//! to zero and is reported, so that the death of the player or of the boss
//! can be played out.

use crate::animations::CharacterState;
use crate::character::{find, index_of, Character, Hp, Invulnerable, Role};
use crate::collision::DamageHitEvent;
use crate::constants::{NPC_HIT_INVULNERABILITY, PLAYER_HIT_INVULNERABILITY};
use crate::hitbox::AttackHitbox;
use crate::timing::Countdown;
use vstd::prelude::*;

verus! {

/// What became of one hit.
#[derive(Clone, Copy, Debug, PartialEq, Eq, Structural)]
pub enum HitOutcome {
    /// The hitbox that is said to have struck is not registered: the hit is
    /// dropped.
    UnknownHitbox,
    /// The target is not registered, or could not be struck any more when
    /// the hit was applied: the hit is dropped.
    Spared,
    /// The target lost hit points and is invulnerable for a while.
    Wounded,
    /// The player was struck down.
    PlayerSlain,
    /// The boss was struck down.
    BossSlain,
    /// A blow that would have been lethal fell on a body that is neither the
    /// player nor the boss: the hit is dropped.
    Unclaimed,
}

/// A character takes hits only if it can be struck and is not a spectator.
pub open spec fn takes_damage(target: Character) -> bool {
    target.can_be_hit() && target.role != Role::CrowdMember
}

/// Hit points after a blow: zero if the blow is at least as large as what is
/// left, else what is left less the blow, and never more than the maximum.
pub open spec fn hp_after(hp: Hp, damage: i32) -> Hp {
    if hp.current <= damage {
        Hp { current: 0, max: hp.max }
    } else if hp.current - damage > hp.max {
        Hp { current: hp.max, max: hp.max }
    } else {
        Hp { current: (hp.current - damage) as i32, max: hp.max }
    }
}

/// The length of the invulnerability window after a hit: long for the
/// player, short for everybody else.
pub open spec fn hit_invulnerability(role: Role) -> u32 {
    if role == Role::Player {
        PLAYER_HIT_INVULNERABILITY
    } else {
        NPC_HIT_INVULNERABILITY
    }
}

/// What became of a blow of `damage` on `target`.
pub open spec fn outcome_of(target: Character, damage: i32) -> HitOutcome {
    if !takes_damage(target) {
        HitOutcome::Spared
    } else if target.hp.current <= damage {
        match target.role {
            Role::Player => HitOutcome::PlayerSlain,
            Role::Boss => HitOutcome::BossSlain,
            _ => HitOutcome::Unclaimed,
        }
    } else {
        HitOutcome::Wounded
    }
}

/// The target after a blow of `damage`.
///
/// A wounded target has its hit points lowered and a new invulnerability
/// window, which replaces any older one. A slain player or boss has no hit
/// points left. In every other case the target is unchanged.
pub open spec fn wounded(target: Character, damage: i32) -> Character {
    match outcome_of(target, damage) {
        HitOutcome::Wounded => Character {
            hp: hp_after(target.hp, damage),
            invulnerable: Some(
                Invulnerable(
                    Countdown { elapsed_ms: 0, duration_ms: hit_invulnerability(target.role) },
                ),
            ),
            ..target
        },
        HitOutcome::PlayerSlain | HitOutcome::BossSlain => Character {
            hp: Hp { current: 0, max: target.hp.max },
            ..target
        },
        _ => target,
    }
}

/// Hit points stay in range under any blow, a lethal blow leaves exactly
/// zero, and a blow that is not negative never raises them.
pub proof fn lemma_hp_clamp(target: Character, damage: i32)
    requires
        target.hp.wf(),
    ensures
        wounded(target, damage).hp.wf(),
        wounded(target, damage).hp.max == target.hp.max,
        outcome_of(target, damage) == HitOutcome::PlayerSlain || outcome_of(target, damage)
            == HitOutcome::BossSlain ==> wounded(target, damage).hp.current == 0,
        outcome_of(target, damage) == HitOutcome::Wounded && damage >= 0 ==> wounded(
            target,
            damage,
        ).hp.current == target.hp.current - damage,
        damage >= 0 ==> wounded(target, damage).hp.current <= target.hp.current,
{
}

/// Applies a blow of `damage` to `target`.
pub fn strike(target: Character, damage: i32) -> (out: (Character, HitOutcome))
    ensures
        out.0 == wounded(target, damage),
        out.1 == outcome_of(target, damage),
        target.hp.wf() ==> out.0.hp.wf(),
        target.wf() ==> out.0.wf(),
        out.0.id == target.id,
        out.0.role == target.role,
        out.0.state == target.state,
        out.0.dead == target.dead,
        target.dead ==> out.0 == target,
{
    if !(target.vulnerable() && target.role != Role::CrowdMember) {
        return (target, HitOutcome::Spared);
    }
    if target.hp.current <= damage {
        match target.role {
            Role::Player => (
                Character { hp: Hp { current: 0, max: target.hp.max }, ..target },
                HitOutcome::PlayerSlain,
            ),
            Role::Boss => (
                Character { hp: Hp { current: 0, max: target.hp.max }, ..target },
                HitOutcome::BossSlain,
            ),
            _ => (target, HitOutcome::Unclaimed),
        }
    } else {
        let left: i64 = target.hp.current as i64 - damage as i64;
        let current: i32 = if left > target.hp.max as i64 {
            target.hp.max
        } else {
            left as i32
        };
        let window: u32 = if target.role == Role::Player {
            PLAYER_HIT_INVULNERABILITY
        } else {
            NPC_HIT_INVULNERABILITY
        };
        (
            Character {
                hp: Hp { current, max: target.hp.max },
                invulnerable: Some(Invulnerable(Countdown::from_millis(window))),
                ..target
            },
            HitOutcome::Wounded,
        )
    }
}

/// What became of the hit `event` among the given characters.
pub open spec fn outcome_of_hit(
    hitboxes: Seq<AttackHitbox>,
    characters: Seq<Character>,
    event: DamageHitEvent,
) -> HitOutcome {
    match index_of(hitboxes, event.attack_hitbox) {
        None => HitOutcome::UnknownHitbox,
        Some(h) => match index_of(characters, event.target) {
            None => HitOutcome::Spared,
            Some(c) => outcome_of(characters[c], hitboxes[h].damage),
        },
    }
}

/// The characters after the hit `event`: the target, found by its identity,
/// takes the damage of the hitbox, found by its identity. A hit whose hitbox
/// or target is not registered changes nothing.
pub open spec fn after_hit(
    hitboxes: Seq<AttackHitbox>,
    characters: Seq<Character>,
    event: DamageHitEvent,
) -> Seq<Character> {
    match index_of(hitboxes, event.attack_hitbox) {
        None => characters,
        Some(h) => match index_of(characters, event.target) {
            None => characters,
            Some(c) => characters.update(c, wounded(characters[c], hitboxes[h].damage)),
        },
    }
}

/// The characters after the first `n` hits, applied in order.
pub open spec fn after_hits(
    hitboxes: Seq<AttackHitbox>,
    characters: Seq<Character>,
    events: Seq<DamageHitEvent>,
    n: int,
) -> Seq<Character>
    decreases n,
{
    if n <= 0 {
        characters
    } else {
        after_hit(hitboxes, after_hits(hitboxes, characters, events, n - 1), events[n - 1])
    }
}

/// Applies the hits of one pass, in order.
///
/// Each hit is applied to the characters as the hits before it left them, so
/// a second hit on a target that the first one wounded finds it invulnerable
/// and is dropped. The result tells, hit by hit, what became of it.
/// Hit points that were in range stay in range; identities, roles and phases
/// do not change.
pub fn damage_hit(
    events: &Vec<DamageHitEvent>,
    hitboxes: &Vec<AttackHitbox>,
    characters: &mut Vec<Character>,
) -> (outcomes: Vec<HitOutcome>)
    ensures
        final(characters)@ == after_hits(
            hitboxes@,
            old(characters)@,
            events@,
            events.len() as int,
        ),
        outcomes.len() == events.len(),
        forall|k: int|
            0 <= k < events.len() ==> #[trigger] outcomes[k] == outcome_of_hit(
                hitboxes@,
                after_hits(hitboxes@, old(characters)@, events@, k),
                events[k],
            ),
        final(characters).len() == old(characters).len(),
        forall|i: int|
            0 <= i < old(characters).len() ==> {
                &&& (#[trigger] final(characters)[i]).id == old(characters)[i].id
                &&& final(characters)[i].role == old(characters)[i].role
                &&& final(characters)[i].state == old(characters)[i].state
                &&& final(characters)[i].dead == old(characters)[i].dead
                &&& old(characters)[i].dead ==> final(characters)[i] == old(characters)[i]
                &&& final(characters)[i].hp.max == old(characters)[i].hp.max
                &&& old(characters)[i].hp.wf() ==> final(characters)[i].hp.wf()
                &&& old(characters)[i].wf() ==> final(characters)[i].wf()
            },
{
    let mut outcomes: Vec<HitOutcome> = Vec::new();
    let mut k: usize = 0;
    while k < events.len()
        invariant
            k <= events.len(),
            characters@ == after_hits(hitboxes@, old(characters)@, events@, k as int),
            outcomes.len() == k,
            forall|n: int|
                0 <= n < k ==> #[trigger] outcomes[n] == outcome_of_hit(
                    hitboxes@,
                    after_hits(hitboxes@, old(characters)@, events@, n),
                    events[n],
                ),
            characters.len() == old(characters).len(),
            forall|i: int|
                0 <= i < old(characters).len() ==> {
                    &&& (#[trigger] characters[i]).id == old(characters)[i].id
                    &&& characters[i].role == old(characters)[i].role
                    &&& characters[i].state == old(characters)[i].state
                    &&& characters[i].dead == old(characters)[i].dead
                    &&& old(characters)[i].dead ==> characters[i] == old(characters)[i]
                    &&& characters[i].hp.max == old(characters)[i].hp.max
                    &&& old(characters)[i].hp.wf() ==> characters[i].hp.wf()
                    &&& old(characters)[i].wf() ==> characters[i].wf()
                },
        decreases events.len() - k,
    {
        let event = events[k];
        let outcome = match find(hitboxes, event.attack_hitbox) {
            None => HitOutcome::UnknownHitbox,
            Some(h) => match find(characters, event.target) {
                None => HitOutcome::Spared,
                Some(c) => {
                    let (struck, outcome) = strike(characters[c], hitboxes[h].damage);
                    characters.set(c, struck);
                    outcome
                },
            },
        };
        outcomes.push(outcome);
        k = k + 1;
    }
    outcomes
}

/// The hit points of every character, in the order of the registry.
pub open spec fn hp_of(characters: Seq<Character>) -> Seq<Hp> {
    Seq::new(characters.len(), |i: int| characters[i].hp)
}

/// Records the hit points of every character.
pub fn hit_points(characters: &Vec<Character>) -> (hps: Vec<Hp>)
    ensures
        hps@ == hp_of(characters@),
{
    let mut hps: Vec<Hp> = Vec::new();
    let mut i: usize = 0;
    while i < characters.len()
        invariant
            i <= characters.len(),
            hps.len() == i,
            forall|k: int| 0 <= k < i ==> #[trigger] hps[k] == characters[k].hp,
        decreases characters.len() - i,
    {
        hps.push(characters[i].hp);
        i = i + 1;
    }
    hps
}

/// A character whose hit points have changed, in either direction, flinches:
/// it enters `Hit`. Not so a character that has died or is in its final
/// phase: `Dead` is never left. Everybody else stays as they are.
pub open spec fn flinched(character: Character, previous: Hp) -> Character {
    if character.hp != previous && !character.dead && character.state != CharacterState::Dead {
        Character { state: CharacterState::Hit, ..character }
    } else {
        character
    }
}

/// Makes every character flinch whose hit points differ from those recorded
/// in `previous`, unless it has died or is in phase `Dead`. A character
/// without a record is left alone.
pub fn damage_animation(characters: &mut Vec<Character>, previous: &Vec<Hp>)
    ensures
        final(characters).len() == old(characters).len(),
        forall|i: int|
            0 <= i < old(characters).len() ==> #[trigger] final(characters)[i] == (if i
                < previous.len() {
                flinched(old(characters)[i], previous[i])
            } else {
                old(characters)[i]
            }),
{
    let mut i: usize = 0;
    while i < characters.len() && i < previous.len()
        invariant
            characters.len() == old(characters).len(),
            i <= characters.len(),
            i <= previous.len(),
            forall|k: int|
                0 <= k < i ==> #[trigger] characters[k] == flinched(old(characters)[k], previous[k]),
            forall|k: int| i <= k < characters.len() ==> #[trigger] characters[k] == old(characters)[k],
        decreases characters.len() - i,
    {
        let character = characters[i];
        let before = previous[i];
        if (character.hp.current != before.current || character.hp.max != before.max)
            && !character.dead && character.state != CharacterState::Dead {
            characters.set(i, Character { state: CharacterState::Hit, ..character });
        }
        i = i + 1;
    }
}

} // verus!
