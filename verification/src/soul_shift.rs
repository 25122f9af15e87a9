//! Death and what follows it.
//!
//! When the player is struck down its soul moves on: the nearest spectator
//! becomes the new player and the old body stays behind, dead. Whatever hung
//! on a body that has died is taken off the registry.

use crate::animations::CharacterState;
use crate::character::{find, index_of, AttackCharge, Character, Hp, Invulnerable, Position, Role};
use crate::constants::{CHAR_Y, DEAD_BODY_DROP, PLAYER_HP, SPAWN_INVULNERABILITY};
use crate::hitbox::{hitbox_owner, owner_of, AttackHitbox, AttackSensor, CharacterHitbox};
use crate::player::controlled;
use crate::timing::Countdown;
use vstd::prelude::*;

verus! {

/// The player has no hit points left: its soul is to move on.
#[derive(Clone, Copy, Debug, PartialEq, Eq, Structural)]
pub struct SoulShiftEvent(pub u64);

/// The soul has left this body: the body is to die.
#[derive(Clone, Copy, Debug, PartialEq, Eq, Structural)]
pub struct PlayerDeathEvent(pub u64);

/// The soul has entered this body: it is to be fitted out as the player.
#[derive(Clone, Copy, Debug, PartialEq, Eq, Structural)]
pub struct CreatePlayerEvent(pub u64);

/// The boss has no hit points left: it is to die.
#[derive(Clone, Copy, Debug, PartialEq, Eq, Structural)]
pub struct BossDeathEvent(pub u64);

/// How many bodies the player has used up.
#[derive(Clone, Copy, Debug, PartialEq, Eq, Structural)]
pub struct PossesionCount(pub i32);

/// The square of the distance between two places.
pub open spec fn distance_squared(a: Position, b: Position) -> int {
    (a.x - b.x) * (a.x - b.x) + (a.y - b.y) * (a.y - b.y)
}

/// The character is a spectator that the player can take over.
pub open spec fn is_spare(character: Character) -> bool {
    character.role == Role::CrowdMember && !character.dead
}

/// The character at index `i` is the spectator nearest to `origin`: no
/// spectator is nearer, and of several that are equally near it is the first.
pub open spec fn is_nearest(characters: Seq<Character>, origin: Position, i: int) -> bool {
    &&& 0 <= i < characters.len()
    &&& is_spare(characters[i])
    &&& forall|j: int|
        0 <= j < characters.len() && is_spare(#[trigger] characters[j]) ==> distance_squared(
            origin,
            characters[i].position,
        ) <= distance_squared(origin, characters[j].position)
    &&& forall|j: int|
        0 <= j < i && is_spare(#[trigger] characters[j]) ==> distance_squared(
            origin,
            characters[i].position,
        ) < distance_squared(origin, characters[j].position)
}

/// There is no spectator left.
pub open spec fn crowd_is_empty(characters: Seq<Character>) -> bool {
    forall|j: int| 0 <= j < characters.len() ==> !is_spare(#[trigger] characters[j])
}

/// At most one index is that of the nearest spectator.
pub proof fn lemma_nearest_is_unique(characters: Seq<Character>, origin: Position, i: int, j: int)
    requires
        is_nearest(characters, origin, i),
        is_nearest(characters, origin, j),
    ensures
        i == j,
{
}

fn squared_distance(a: Position, b: Position) -> (d: u128)
    ensures
        d == distance_squared(a, b),
{
    let dx: i128 = a.x as i128 - b.x as i128;
    let dy: i128 = a.y as i128 - b.y as i128;
    assert(0 <= dx * dx <= 0x1_0000_0000 * 0x1_0000_0000) by (nonlinear_arith)
        requires
            -0x1_0000_0000 <= dx <= 0x1_0000_0000,
    ;
    assert(0 <= dy * dy <= 0x1_0000_0000 * 0x1_0000_0000) by (nonlinear_arith)
        requires
            -0x1_0000_0000 <= dy <= 0x1_0000_0000,
    ;
    (dx * dx + dy * dy) as u128
}

/// Finds the spectator nearest to `origin`.
pub fn nearest_crowd_member(characters: &Vec<Character>, origin: Position) -> (nearest: Option<
    usize,
>)
    ensures
        match nearest {
            Some(i) => is_nearest(characters@, origin, i as int),
            None => crowd_is_empty(characters@),
        },
{
    let mut best: Option<usize> = None;
    let mut least: u128 = 0;
    let mut i: usize = 0;
    while i < characters.len()
        invariant
            i <= characters.len(),
            match best {
                Some(b) => {
                    &&& b < i
                    &&& is_spare(characters[b as int])
                    &&& least == distance_squared(origin, characters[b as int].position)
                    &&& forall|j: int|
                        0 <= j < i && is_spare(#[trigger] characters[j]) ==> least
                            <= distance_squared(origin, characters[j].position)
                    &&& forall|j: int|
                        0 <= j < b && is_spare(#[trigger] characters[j]) ==> least
                            < distance_squared(origin, characters[j].position)
                },
                None => forall|j: int| 0 <= j < i ==> !is_spare(#[trigger] characters[j]),
            },
        decreases characters.len() - i,
    {
        if characters[i].role == Role::CrowdMember && !characters[i].dead {
            let d = squared_distance(origin, characters[i].position);
            if best.is_none() || d < least {
                best = Some(i);
                least = d;
            }
        }
        i = i + 1;
    }
    best
}

/// The record is that of a player whose soul can move on: a living player
/// that is not already on the move.
pub open spec fn can_shift(player: Character) -> bool {
    controlled(player) && !player.soul_shifting
}

/// How a soul shift went.
#[derive(Clone, Copy, Debug, PartialEq, Eq, Structural)]
pub enum SoulShift {
    /// The character is unknown, is not the player, or has been dealt with
    /// already: nothing was done.
    Ignored,
    /// The player still has hit points: nothing was done.
    NotDying,
    /// No spectator is left to take over: the fight is lost. Nothing was
    /// done.
    NoLivesLeft,
    /// The soul moved from one body into another.
    Shifted(PlayerDeathEvent, CreatePlayerEvent),
}

/// The body that the soul leaves: nobody's, in its final phase, sunk a
/// little, and marked as on the move until its death has been played out.
pub open spec fn left_behind(body: Character) -> Character {
    Character {
        role: Role::Vacant,
        state: CharacterState::Dead,
        soul_shifting: true,
        position: Position {
            x: body.position.x,
            y: (CHAR_Y - DEAD_BODY_DROP) as i32,
        },
        ..body
    }
}

/// The body that the soul enters: the player's from now on, raised to where
/// the fight takes place, and marked as on the move until it is fitted out.
pub open spec fn entered(body: Character) -> Character {
    Character {
        role: Role::Player,
        soul_shifting: true,
        position: Position { x: body.position.x, y: CHAR_Y },
        ..body
    }
}

/// The index of the spectator nearest to `origin`, where there is one.
pub open spec fn nearest_of(characters: Seq<Character>, origin: Position) -> int {
    choose|n: int| is_nearest(characters, origin, n)
}

/// How the soul shift that `event` asks for goes among `characters`.
pub open spec fn shift_of(characters: Seq<Character>, event: SoulShiftEvent) -> SoulShift {
    match index_of(characters, event.0) {
        None => SoulShift::Ignored,
        Some(p) => if !can_shift(characters[p]) {
            SoulShift::Ignored
        } else if characters[p].hp.current != 0 {
            SoulShift::NotDying
        } else if crowd_is_empty(characters) {
            SoulShift::NoLivesLeft
        } else {
            SoulShift::Shifted(
                PlayerDeathEvent(event.0),
                CreatePlayerEvent(characters[nearest_of(characters, characters[p].position)].id),
            )
        },
    }
}

/// The characters after the soul shift that `event` asks for: where the
/// shift takes place, the old body is left behind and the nearest spectator
/// is entered; where it does not, nothing changes.
pub open spec fn shifted(characters: Seq<Character>, event: SoulShiftEvent) -> Seq<Character> {
    match shift_of(characters, event) {
        SoulShift::Shifted(_, _) => {
            let p = index_of(characters, event.0).unwrap();
            let n = nearest_of(characters, characters[p].position);
            characters.update(p, left_behind(characters[p])).update(n, entered(characters[n]))
        },
        _ => characters,
    }
}

/// Where spectators are left, `nearest_of` is the nearest of them.
pub proof fn lemma_nearest_of(characters: Seq<Character>, origin: Position)
    requires
        !crowd_is_empty(characters),
    ensures
        is_nearest(characters, origin, nearest_of(characters, origin)),
    decreases characters.len(),
{
    let c = choose|j: int| 0 <= j < characters.len() && is_spare(#[trigger] characters[j]);
    lemma_nearest_exists(characters, origin, characters.len() as int, c);
}

/// Among the first `upto` characters, of which the one at `c` is a
/// spectator, one spectator is the nearest of all of them that come before
/// `upto`; at `upto == len` it is the nearest of all.
proof fn lemma_nearest_exists(characters: Seq<Character>, origin: Position, upto: int, c: int)
    requires
        0 <= c < upto <= characters.len(),
        is_spare(characters[c]),
    ensures
        exists|n: int| is_nearest(characters.take(upto), origin, n),
        upto == characters.len() ==> exists|n: int| is_nearest(characters, origin, n),
    decreases upto,
{
    let prefix = characters.take(upto);
    if forall|j: int| 0 <= j < upto - 1 ==> !is_spare(#[trigger] characters[j]) {
        assert(is_nearest(prefix, origin, upto - 1));
    } else {
        let e = choose|j: int| 0 <= j < upto - 1 && is_spare(#[trigger] characters[j]);
        lemma_nearest_exists(characters, origin, upto - 1, e);
        let shorter = characters.take(upto - 1);
        let m = choose|n: int| is_nearest(shorter, origin, n);
        let last = prefix[upto - 1];
        if is_spare(last) && distance_squared(origin, last.position) < distance_squared(
            origin,
            prefix[m].position,
        ) {
            assert(is_nearest(prefix, origin, upto - 1));
        } else {
            assert(is_nearest(prefix, origin, m));
        }
    }
    if upto == characters.len() {
        assert(prefix =~= characters);
    }
}

/// Moves the soul of a player that was struck down into the nearest
/// spectator.
///
/// The shift takes place only for a registered, living player that is not
/// already on the move and has no hit points left, and only while a
/// spectator is left. Then the old body is left behind, the spectator that
/// is nearest to it (the first of several that are equally near) is
/// entered, and nothing else changes. In every other case nothing changes
/// at all, and the result says why.
pub fn start_soul_shift(characters: &mut Vec<Character>, event: SoulShiftEvent) -> (shift:
    SoulShift)
    ensures
        shift == shift_of(old(characters)@, event),
        final(characters)@ == shifted(old(characters)@, event),
        final(characters).len() == old(characters).len(),
        shift matches SoulShift::Shifted(death, birth) ==> {
            &&& death.0 == event.0
            &&& index_of(old(characters)@, event.0) matches Some(p) && is_nearest(
                old(characters)@,
                old(characters)[p].position,
                nearest_of(old(characters)@, old(characters)[p].position),
            )
        },
        forall|i: int|
            0 <= i < old(characters).len() ==> {
                &&& (#[trigger] final(characters)[i]).id == old(characters)[i].id
                &&& final(characters)[i].hp == old(characters)[i].hp
                &&& old(characters)[i].wf() ==> final(characters)[i].wf()
            },
{
    let p = match find(characters, event.0) {
        None => {
            return SoulShift::Ignored;
        },
        Some(p) => p,
    };
    let body = characters[p];
    if !(body.role == Role::Player && !body.dead && !body.soul_shifting) {
        return SoulShift::Ignored;
    }
    if body.hp.current != 0 {
        return SoulShift::NotDying;
    }
    let n = match nearest_crowd_member(characters, body.position) {
        None => {
            return SoulShift::NoLivesLeft;
        },
        Some(n) => n,
    };
    proof {
        lemma_nearest_of(characters@, body.position);
        lemma_nearest_is_unique(
            characters@,
            body.position,
            n as int,
            nearest_of(characters@, body.position),
        );
    }
    let heir = characters[n];
    characters.set(
        p,
        Character {
            role: Role::Vacant,
            state: CharacterState::Dead,
            soul_shifting: true,
            position: Position { x: body.position.x, y: CHAR_Y - DEAD_BODY_DROP },
            ..body
        },
    );
    characters.set(
        n,
        Character {
            role: Role::Player,
            soul_shifting: true,
            position: Position { x: heir.position.x, y: CHAR_Y },
            ..heir
        },
    );
    SoulShift::Shifted(PlayerDeathEvent(event.0), CreatePlayerEvent(heir.id))
}

/// Whether a death can be played out on the record: it is not that of a
/// spectator and has not died before.
pub open spec fn can_die(body: Character) -> bool {
    body.role != Role::CrowdMember && !body.dead
}

/// The body after its death has been played out: dead, in its final phase,
/// nobody's if it was the player's, without invulnerability and no longer on
/// the move. A body that cannot die is unchanged.
pub open spec fn died(body: Character) -> Character {
    if can_die(body) {
        Character {
            role: if body.role == Role::Player {
                Role::Vacant
            } else {
                body.role
            },
            state: CharacterState::Dead,
            invulnerable: None,
            soul_shifting: false,
            dead: true,
            ..body
        }
    } else {
        body
    }
}

/// The count of used-up bodies after one more, which stops at the largest
/// number it can hold.
pub open spec fn counted(count: PossesionCount) -> PossesionCount {
    if count.0 == i32::MAX {
        count
    } else {
        PossesionCount((count.0 + 1) as i32)
    }
}

/// The characters after the death that `event` asks for has been played
/// out.
pub open spec fn with_death(characters: Seq<Character>, event: PlayerDeathEvent) -> Seq<Character> {
    match index_of(characters, event.0) {
        Some(b) => characters.update(b, died(characters[b])),
        None => characters,
    }
}

/// Whether the death that `event` asks for is a death at all: the body is
/// registered and can die.
pub open spec fn death_counts(characters: Seq<Character>, event: PlayerDeathEvent) -> bool {
    match index_of(characters, event.0) {
        Some(b) => can_die(characters[b]),
        None => false,
    }
}

/// Plays out the death of a body that the soul has left.
///
/// The first time it dies and is counted, and the result is `true`. A body
/// that has died already, a spectator, or an unknown character changes
/// nothing, neither the body nor the count, and the result is `false`.
pub fn player_death_event(
    characters: &mut Vec<Character>,
    possesion_count: &mut PossesionCount,
    event: PlayerDeathEvent,
) -> (played: bool)
    ensures
        played == death_counts(old(characters)@, event),
        final(characters)@ == with_death(old(characters)@, event),
        *final(possesion_count) == (if played {
            counted(*old(possesion_count))
        } else {
            *old(possesion_count)
        }),
        final(characters).len() == old(characters).len(),
        forall|i: int|
            0 <= i < old(characters).len() ==> {
                &&& (#[trigger] final(characters)[i]).id == old(characters)[i].id
                &&& final(characters)[i].hp == old(characters)[i].hp
                &&& old(characters)[i].wf() ==> final(characters)[i].wf()
            },
{
    match find(characters, event.0) {
        None => false,
        Some(b) => {
            let body = characters[b];
            if body.role == Role::CrowdMember || body.dead {
                return false;
            }
            characters.set(
                b,
                Character {
                    role: if body.role == Role::Player {
                        Role::Vacant
                    } else {
                        body.role
                    },
                    state: CharacterState::Dead,
                    invulnerable: None,
                    soul_shifting: false,
                    dead: true,
                    ..body
                },
            );
            if possesion_count.0 < i32::MAX {
                possesion_count.0 = possesion_count.0 + 1;
            }
            true
        },
    }
}

/// Dying twice is dying once.
pub proof fn lemma_death_is_idempotent(body: Character)
    ensures
        died(died(body)) == died(body),
        !can_die(died(body)),
{
}

/// The characters after the body that `event` names has been fitted out as
/// the player.
pub open spec fn with_player(characters: Seq<Character>, event: CreatePlayerEvent) -> Seq<
    Character,
> {
    match index_of(characters, event.0) {
        Some(b) => characters.update(b, characters[b].possessed()),
        None => characters,
    }
}

/// Fits out the body that the soul has entered.
///
/// The body becomes a player at full health, idle, invulnerable for the
/// first moments, with a fresh charge, and is no longer on the move. An
/// unknown character changes nothing and the result is `false`.
pub fn create_player(characters: &mut Vec<Character>, event: CreatePlayerEvent) -> (created: bool)
    ensures
        created == (index_of(old(characters)@, event.0) is Some),
        final(characters)@ == with_player(old(characters)@, event),
        final(characters).len() == old(characters).len(),
        forall|i: int|
            0 <= i < old(characters).len() ==> {
                &&& (#[trigger] final(characters)[i]).id == old(characters)[i].id
                &&& old(characters)[i].wf() ==> final(characters)[i].wf()
            },
{
    match find(characters, event.0) {
        None => false,
        Some(b) => {
            let body = characters[b];
            characters.set(
                b,
                Character {
                    role: Role::Player,
                    hp: Hp::new(PLAYER_HP),
                    state: CharacterState::Idle,
                    invulnerable: Some(
                        Invulnerable(Countdown::from_millis(SPAWN_INVULNERABILITY)),
                    ),
                    charge: AttackCharge::new(),
                    soul_shifting: false,
                    dead: false,
                    ..body
                },
            );
            true
        },
    }
}

/// The player after it has given up its body: without hit points.
pub open spec fn given_up(player: Character, pressed: bool) -> Character {
    if pressed && controlled(player) {
        Character { hp: Hp { current: 0, max: player.hp.max }, ..player }
    } else {
        player
    }
}

/// The player gives up its body to move on.
///
/// On the key, a living player loses all its hit points and its soul is to
/// move on. Anything else is left as it is.
pub fn suicide_to_soul_shift(player: &mut Character, pressed: bool) -> (event: Option<
    SoulShiftEvent,
>)
    ensures
        *final(player) == given_up(*old(player), pressed),
        event == (if pressed && controlled(*old(player)) {
            Some(SoulShiftEvent(old(player).id))
        } else {
            None
        }),
        old(player).wf() ==> final(player).wf(),
{
    if pressed && player.role == Role::Player && !player.dead {
        player.hp.current = 0;
        Some(SoulShiftEvent(player.id))
    } else {
        None
    }
}

/// Adding an element to a list adds it to what a filter keeps of the list,
/// or not, as the filter decides.
pub proof fn lemma_filter_push<T>(s: Seq<T>, x: T, keep: spec_fn(T) -> bool)
    ensures
        s.push(x).filter(keep) == (if keep(x) {
            s.filter(keep).push(x)
        } else {
            s.filter(keep)
        }),
{
    reveal(Seq::filter);
    assert(s.push(x).drop_last() =~= s);
}

/// The hitboxes that do not hang on the character `body`.
pub open spec fn hitbox_off(sensors: Seq<AttackSensor>, body: u64) -> spec_fn(AttackHitbox) -> bool {
    |h: AttackHitbox| owner_of(sensors, h) != Some(body)
}

/// The sensors that do not hang on the character `body`.
pub open spec fn sensor_off(body: u64) -> spec_fn(AttackSensor) -> bool {
    |s: AttackSensor| s.owner != body
}

/// The hurtboxes that are not that of the character `body`.
pub open spec fn hurtbox_off(body: u64) -> spec_fn(CharacterHitbox) -> bool {
    |h: CharacterHitbox| h.owner != body
}

/// What hangs on a body is taken away when the body has died: its hurtbox,
/// its attack sensors and the hitboxes on them. Everything else stays, in
/// its order.
pub fn clean_up_dead_bodies(
    sensors: &mut Vec<AttackSensor>,
    hitboxes: &mut Vec<AttackHitbox>,
    hurtboxes: &mut Vec<CharacterHitbox>,
    body: u64,
)
    ensures
        final(hitboxes)@ == old(hitboxes)@.filter(hitbox_off(old(sensors)@, body)),
        final(sensors)@ == old(sensors)@.filter(sensor_off(body)),
        final(hurtboxes)@ == old(hurtboxes)@.filter(hurtbox_off(body)),
{
    let ghost keep_hitbox = hitbox_off(old(sensors)@, body);
    let ghost keep_sensor = sensor_off(body);
    let ghost keep_hurtbox = hurtbox_off(body);
    let mut kept_hitboxes: Vec<AttackHitbox> = Vec::new();
    let mut i: usize = 0;
    proof {
        reveal(Seq::filter);
    }
    while i < hitboxes.len()
        invariant
            i <= hitboxes.len(),
            hitboxes@ == old(hitboxes)@,
            sensors@ == old(sensors)@,
            keep_hitbox == hitbox_off(old(sensors)@, body),
            kept_hitboxes@ == hitboxes@.take(i as int).filter(keep_hitbox),
        decreases hitboxes.len() - i,
    {
        let hitbox = hitboxes[i];
        proof {
            lemma_filter_push(hitboxes@.take(i as int), hitbox, keep_hitbox);
            assert(hitboxes@.take(i + 1) =~= hitboxes@.take(i as int).push(hitbox));
        }
        if hitbox_owner(sensors, &hitbox) != Some(body) {
            kept_hitboxes.push(hitbox);
        }
        i = i + 1;
    }
    let mut kept_sensors: Vec<AttackSensor> = Vec::new();
    let mut i: usize = 0;
    proof {
        assert(hitboxes@.take(hitboxes.len() as int) =~= hitboxes@);
    }
    while i < sensors.len()
        invariant
            i <= sensors.len(),
            sensors@ == old(sensors)@,
            keep_sensor == sensor_off(body),
            kept_sensors@ == sensors@.take(i as int).filter(keep_sensor),
        decreases sensors.len() - i,
    {
        let sensor = sensors[i];
        proof {
            lemma_filter_push(sensors@.take(i as int), sensor, keep_sensor);
            assert(sensors@.take(i + 1) =~= sensors@.take(i as int).push(sensor));
        }
        if sensor.owner != body {
            kept_sensors.push(sensor);
        }
        i = i + 1;
    }
    let mut kept_hurtboxes: Vec<CharacterHitbox> = Vec::new();
    let mut i: usize = 0;
    proof {
        assert(sensors@.take(sensors.len() as int) =~= sensors@);
    }
    while i < hurtboxes.len()
        invariant
            i <= hurtboxes.len(),
            hurtboxes@ == old(hurtboxes)@,
            keep_hurtbox == hurtbox_off(body),
            kept_hurtboxes@ == hurtboxes@.take(i as int).filter(keep_hurtbox),
        decreases hurtboxes.len() - i,
    {
        let hurtbox = hurtboxes[i];
        proof {
            lemma_filter_push(hurtboxes@.take(i as int), hurtbox, keep_hurtbox);
            assert(hurtboxes@.take(i + 1) =~= hurtboxes@.take(i as int).push(hurtbox));
        }
        if hurtbox.owner != body {
            kept_hurtboxes.push(hurtbox);
        }
        i = i + 1;
    }
    proof {
        assert(hurtboxes@.take(hurtboxes.len() as int) =~= hurtboxes@);
    }
    *hitboxes = kept_hitboxes;
    *sensors = kept_sensors;
    *hurtboxes = kept_hurtboxes;
}

} // verus!
