//! The combat record of a character, and how records are found by identity.

use crate::animations::CharacterState;
use crate::constants::{CHARGED_ATTACK_HOLD, PLAYER_HP, SPAWN_INVULNERABILITY};
use crate::timing::Countdown;
use vstd::prelude::*;

verus! {

/// Hit points: `current` out of `max`.
#[derive(Clone, Copy, Debug, PartialEq, Eq, Structural)]
pub struct Hp {
    pub current: i32,
    pub max: i32,
}

impl Hp {
    /// Hit points never leave the range from zero to the maximum.
    pub open spec fn wf(self) -> bool {
        0 <= self.current <= self.max
    }

    /// A hundred hit points out of a hundred.
    pub fn default() -> (hp: Hp)
        ensures
            hp == (Hp { current: 100, max: 100 }),
            hp.wf(),
    {
        Hp { current: 100, max: 100 }
    }

    /// Full hit points with the given maximum.
    pub fn new(max: i32) -> (hp: Hp)
        ensures
            hp == (Hp { current: max, max }),
            max >= 0 ==> hp.wf(),
    {
        Hp { current: max, max }
    }
}

/// Who a character is in the fight.
#[derive(Clone, Copy, Debug, PartialEq, Eq, Structural)]
pub enum Role {
    /// The body that the player controls.
    Player,
    /// The boss.
    Boss,
    /// A spectator that the player may take over.
    CrowdMember,
    /// A body that nobody controls any more.
    Vacant,
}

/// A place in the arena, in whole world units.
#[derive(Clone, Copy, Debug, PartialEq, Eq, Structural)]
pub struct Position {
    pub x: i32,
    pub y: i32,
}

/// The window after a hit, or during a dash, in which nothing can hit the
/// character.
#[derive(Clone, Copy, Debug, PartialEq, Eq, Structural)]
pub struct Invulnerable(pub Countdown);

/// The time the boss has to let pass before it starts another attack.
#[derive(Clone, Copy, Debug, PartialEq, Eq, Structural)]
pub struct AttackCooldown(pub Countdown);

/// A dash that is under way.
#[derive(Clone, Copy, Debug, PartialEq, Eq, Structural)]
pub struct DashTimer(pub Countdown);

/// A hyper dash that is under way.
#[derive(Clone, Copy, Debug, PartialEq, Eq, Structural)]
pub struct HyperDashTimer(pub Countdown);

/// How long the attack button has been held.
#[derive(Clone, Copy, Debug, PartialEq, Eq, Structural)]
pub struct AttackCharge {
    pub charging: bool,
    pub timer: Countdown,
}

impl AttackCharge {
    /// A charge that has not been started.
    pub fn new() -> (charge: AttackCharge)
        ensures
            charge == (AttackCharge {
                charging: false,
                timer: Countdown { elapsed_ms: 0, duration_ms: CHARGED_ATTACK_HOLD },
            }),
    {
        AttackCharge { charging: false, timer: Countdown::from_millis(CHARGED_ATTACK_HOLD) }
    }
}

/// The combat state of one combatant.
#[derive(Clone, Copy, Debug, PartialEq, Eq, Structural)]
pub struct Character {
    pub id: u64,
    pub role: Role,
    pub hp: Hp,
    pub state: CharacterState,
    pub invulnerable: Option<Invulnerable>,
    pub cooldown: Option<AttackCooldown>,
    pub dash: Option<DashTimer>,
    pub hyper_dash: Option<HyperDashTimer>,
    pub charge: AttackCharge,
    pub position: Position,
    /// The character looks to the left.
    pub facing_left: bool,
    /// The character is rooted, and the scenery stands still with it.
    pub frozen: bool,
    /// The player is on its way out of this body or into it.
    pub soul_shifting: bool,
    /// The character has died; what is left is a body.
    pub dead: bool,
}

impl Character {
    /// The record keeps the invariants of the data model: hit points in
    /// range, and a dead character in its final phase.
    pub open spec fn wf(self) -> bool {
        &&& self.hp.wf()
        &&& self.dead ==> self.state == CharacterState::Dead
    }

    /// The character can be struck: it is alive, it is not invulnerable and
    /// the player is not on the move out of or into it.
    pub open spec fn can_be_hit(self) -> bool {
        &&& self.invulnerable is None
        &&& !self.soul_shifting
        &&& !self.dead
    }

    /// The record of a character as it enters the fight, idle and unhurt.
    pub open spec fn spawned(id: u64, role: Role, max_hp: i32, position: Position) -> Character {
        Character {
            id,
            role,
            hp: Hp { current: max_hp, max: max_hp },
            state: CharacterState::Idle,
            invulnerable: None,
            cooldown: None,
            dash: None,
            hyper_dash: None,
            charge: AttackCharge {
                charging: false,
                timer: Countdown { elapsed_ms: 0, duration_ms: CHARGED_ATTACK_HOLD },
            },
            position,
            facing_left: false,
            frozen: false,
            soul_shifting: false,
            dead: false,
        }
    }

    /// This body once the player has taken it over: a player at full health,
    /// idle, out of reach of any hit for the first moments, with every timer
    /// cleared. Identity, place and facing stay.
    pub open spec fn possessed(self) -> Character {
        Character {
            role: Role::Player,
            hp: Hp { current: PLAYER_HP, max: PLAYER_HP },
            state: CharacterState::Idle,
            invulnerable: Some(
                Invulnerable(Countdown { elapsed_ms: 0, duration_ms: SPAWN_INVULNERABILITY }),
            ),
            charge: AttackCharge {
                charging: false,
                timer: Countdown { elapsed_ms: 0, duration_ms: CHARGED_ATTACK_HOLD },
            },
            soul_shifting: false,
            dead: false,
            ..self
        }
    }

    /// Makes the record of a character that enters the fight.
    pub fn spawn(id: u64, role: Role, max_hp: i32, position: Position) -> (character: Character)
        ensures
            character == Character::spawned(id, role, max_hp, position),
            max_hp >= 0 ==> character.wf(),
            character.can_be_hit(),
    {
        Character {
            id,
            role,
            hp: Hp::new(max_hp),
            state: CharacterState::Idle,
            invulnerable: None,
            cooldown: None,
            dash: None,
            hyper_dash: None,
            charge: AttackCharge::new(),
            position,
            facing_left: false,
            frozen: false,
            soul_shifting: false,
            dead: false,
        }
    }

    /// Whether the character can be struck.
    pub fn vulnerable(&self) -> (yes: bool)
        ensures
            yes == self.can_be_hit(),
    {
        self.invulnerable.is_none() && !self.soul_shifting && !self.dead
    }
}

/// What a rule asks of the legs of a character. The engine turns it into a
/// velocity.
#[derive(Clone, Copy, Debug, PartialEq, Eq, Structural)]
pub enum Steering {
    /// The rule has no say: the character moves as it did.
    Keep,
    /// Stand still.
    Halt,
    /// Walk along the x axis at the character's own speed: `-1` to the left,
    /// `1` to the right, `0` on the spot.
    Advance(i8),
    /// Rush along the x axis, to the left (`-1`) or to the right (`1`), at
    /// the given speed.
    Rush(i8, u32),
}

/// A record with an identity.
pub trait Keyed {
    /// The identity of the record.
    spec fn key_of(&self) -> u64;

    /// Reads the identity of the record.
    fn key(&self) -> (k: u64)
        ensures
            k == self.key_of(),
    ;
}

impl Keyed for Character {
    open spec fn key_of(&self) -> u64 {
        self.id
    }

    fn key(&self) -> (k: u64) {
        self.id
    }
}

/// The index of the first record at or after `from` whose identity is `id`.
pub open spec fn index_from<T: Keyed>(records: Seq<T>, id: u64, from: int) -> Option<int>
    decreases records.len() - from,
{
    if from < 0 || from >= records.len() {
        None
    } else if records[from].key_of() == id {
        Some(from)
    } else {
        index_from(records, id, from + 1)
    }
}

/// The index of the first record whose identity is `id`.
pub open spec fn index_of<T: Keyed>(records: Seq<T>, id: u64) -> Option<int> {
    index_from(records, id, 0)
}

/// What `index_from` finds is the first match, and it finds nothing only
/// where there is no match.
pub proof fn lemma_index_from<T: Keyed>(records: Seq<T>, id: u64, from: int)
    requires
        0 <= from,
    ensures
        match index_from(records, id, from) {
            Some(i) => {
                &&& from <= i < records.len()
                &&& records[i].key_of() == id
                &&& forall|j: int| from <= j < i ==> records[j].key_of() != id
            },
            None => forall|j: int| from <= j < records.len() ==> records[j].key_of() != id,
        },
    decreases records.len() - from,
{
    if from < records.len() && records[from].key_of() != id {
        lemma_index_from(records, id, from + 1);
    }
}

/// `index_of` gives the first record with the identity, if there is one.
pub proof fn lemma_index_of<T: Keyed>(records: Seq<T>, id: u64)
    ensures
        match index_of(records, id) {
            Some(i) => {
                &&& 0 <= i < records.len()
                &&& records[i].key_of() == id
                &&& forall|j: int| 0 <= j < i ==> records[j].key_of() != id
            },
            None => forall|j: int| 0 <= j < records.len() ==> records[j].key_of() != id,
        },
{
    lemma_index_from(records, id, 0);
}

/// Two lists with the same identities in the same places find the same index.
pub proof fn lemma_index_of_same_keys<T: Keyed>(a: Seq<T>, b: Seq<T>, id: u64, from: int)
    requires
        0 <= from,
        a.len() == b.len(),
        forall|i: int| 0 <= i < a.len() ==> a[i].key_of() == b[i].key_of(),
    ensures
        index_from(a, id, from) == index_from(b, id, from),
    decreases a.len() - from,
{
    if from < a.len() && a[from].key_of() != id {
        lemma_index_of_same_keys(a, b, id, from + 1);
    }
}

/// No two records share an identity.
pub open spec fn unique_keys<T: Keyed>(records: Seq<T>) -> bool {
    forall|i: int, j: int|
        0 <= i < j < records.len() ==> (#[trigger] records[i]).key_of() != (
        #[trigger] records[j]).key_of()
}

/// Among records with identities of their own, each is found by its
/// identity.
pub proof fn lemma_found_by_key<T: Keyed>(records: Seq<T>, i: int)
    requires
        unique_keys(records),
        0 <= i < records.len(),
    ensures
        index_of(records, records[i].key_of()) == Some(i),
{
    lemma_index_of(records, records[i].key_of());
}

/// A record with a new identity keeps the identities apart, and a further
/// identity that was not taken before is taken afterwards only if it is the
/// new one.
pub proof fn lemma_push_keeps_keys_unique<T: Keyed>(records: Seq<T>, record: T, other: u64)
    requires
        unique_keys(records),
        index_of(records, record.key_of()) is None,
    ensures
        unique_keys(records.push(record)),
        index_of(records, other) is None && other != record.key_of() ==> index_of(
            records.push(record),
            other,
        ) is None,
{
    lemma_index_of(records, record.key_of());
    lemma_index_of(records, other);
    lemma_index_of(records.push(record), other);
}

/// What a filter keeps of records with identities of their own has
/// identities of its own.
pub proof fn lemma_filter_keeps_keys_unique<T: Keyed>(records: Seq<T>, keep: spec_fn(T) -> bool)
    requires
        unique_keys(records),
    ensures
        unique_keys(records.filter(keep)),
    decreases records.len(),
{
    reveal(Seq::filter);
    if records.len() > 0 {
        let shorter = records.drop_last();
        let last = records.last();
        lemma_filter_keeps_keys_unique(shorter, keep);
        let kept = shorter.filter(keep);
        assert forall|i: int| 0 <= i < kept.len() implies (#[trigger] kept[i]).key_of()
            != last.key_of() by {
            shorter.lemma_filter_contains_rev(keep, kept[i]);
            let j = choose|j: int| 0 <= j < shorter.len() && shorter[j] == kept[i];
            assert(records[j] == shorter[j]);
            assert(records[records.len() - 1] == last);
        }
    }
}

/// Finds the first record whose identity is `id`.
pub fn find<T: Keyed>(records: &Vec<T>, id: u64) -> (found: Option<usize>)
    ensures
        match found {
            Some(i) => index_of(records@, id) == Some(i as int) && i < records.len()
                && records[i as int].key_of() == id,
            None => index_of(records@, id) is None,
        },
{
    let mut i: usize = 0;
    while i < records.len()
        invariant
            i <= records.len(),
            index_of(records@, id) == index_from(records@, id, i as int),
        decreases records.len() - i,
    {
        if records[i].key() == id {
            return Some(i);
        }
        i = i + 1;
    }
    None
}

} // verus!
