//! Bringing characters into the fight, with the shapes that hang on them.
//!
//! The engine creates the entities and hands their identities over; the
//! records that go with them are made here, so that whoever takes part in a
//! tick conforms to the data model.

use crate::animations::CharacterState;
use crate::character::{
    find,
    index_of,
    lemma_index_of,
    lemma_index_of_same_keys,
    lemma_push_keeps_keys_unique,
    AttackCharge,
    Character,
    Hp,
    Invulnerable,
    Position,
    Role,
};
use crate::constants::{
    ATTACK_DAMAGE,
    BOSS_HP,
    PLAYER_HP,
    SPAWN_INVULNERABILITY,
};
use crate::hitbox::{AttackHitbox, AttackSensor, CharacterHitbox};
use crate::timing::Countdown;
use crate::world::{after_arming, arming_is_correct, unique_ids, Fight, World};
use vstd::prelude::*;

verus! {

/// Where the attack sensors of a player sit, right of it when it looks to the
/// right.
pub const BOTTOM_WHIP_OFFSET: i32 = 10;

pub const FRONT_WHIP_OFFSET: i32 = 30;

/// Where the attack sensors of the boss sit.
pub const SMASH_TOP_OFFSET: i32 = 42;

pub const SMASH_BOTTOM_OFFSET: i32 = 20;

pub const FALLEN_ANGEL_OFFSET: i32 = 0;

/// The identities of the shapes that hang on a player.
#[derive(Clone, Copy, Debug, PartialEq, Eq, Structural)]
pub struct PlayerKit {
    pub hurtbox: u64,
    pub bottom_whip_sensor: u64,
    pub bottom_whip_hitbox: u64,
    pub front_whip_sensor: u64,
    pub front_whip_hitbox: u64,
}

/// The identities of the shapes that hang on the boss.
#[derive(Clone, Copy, Debug, PartialEq, Eq, Structural)]
pub struct BossKit {
    pub hurtbox: u64,
    pub smash_top_sensor: u64,
    pub smash_top_hitbox: u64,
    pub smash_bottom_sensor: u64,
    pub smash_bottom_hitbox: u64,
    pub fallen_angel_sensor: u64,
    pub fallen_angel_hitbox: u64,
}

/// The record of the boss as it enters the fight: at full health, idle, and
/// free to strike at once.
pub open spec fn boss_record(id: u64, position: Position) -> Character {
    Character::spawned(id, Role::Boss, BOSS_HP, position)
}

/// The record of the first body of the player.
pub open spec fn player_record(id: u64, position: Position) -> Character {
    Character::spawned(id, Role::Player, PLAYER_HP, position).possessed()
}

/// A disarmed hitbox of a player.
pub open spec fn whip(id: u64, sensor: u64) -> AttackHitbox {
    AttackHitbox {
        id,
        sensor,
        damage: ATTACK_DAMAGE,
        armed: false,
        smash: false,
        fallen_angel: false,
    }
}

/// A disarmed hitbox of the boss, of the smash or else of the fallen-angel
/// strike.
pub open spec fn boss_hitbox(id: u64, sensor: u64, smash: bool) -> AttackHitbox {
    AttackHitbox { id, sensor, damage: ATTACK_DAMAGE, armed: false, smash, fallen_angel: !smash }
}

/// The fight with the shapes of a player hung on the character `owner`: a
/// hurtbox and two attack sensors with one hitbox each, none of them armed.
pub open spec fn with_player_kit(fight: Fight, owner: u64, kit: PlayerKit) -> Fight {
    Fight {
        hurtboxes: fight.hurtboxes.push(CharacterHitbox { id: kit.hurtbox, owner }),
        sensors: fight.sensors.push(
            AttackSensor { id: kit.bottom_whip_sensor, owner, offset_x: BOTTOM_WHIP_OFFSET },
        ).push(AttackSensor { id: kit.front_whip_sensor, owner, offset_x: FRONT_WHIP_OFFSET }),
        hitboxes: fight.hitboxes.push(whip(kit.bottom_whip_hitbox, kit.bottom_whip_sensor)).push(
            whip(kit.front_whip_hitbox, kit.front_whip_sensor),
        ),
        ..fight
    }
}

/// The fight with the shapes of the boss hung on the character `owner`: a
/// hurtbox, two sensors for the smash and one for the fallen-angel strike,
/// each with one hitbox of its attack, none of them armed.
pub open spec fn with_boss_kit(fight: Fight, owner: u64, kit: BossKit) -> Fight {
    Fight {
        hurtboxes: fight.hurtboxes.push(CharacterHitbox { id: kit.hurtbox, owner }),
        sensors: fight.sensors.push(
            AttackSensor { id: kit.smash_top_sensor, owner, offset_x: SMASH_TOP_OFFSET },
        ).push(
            AttackSensor { id: kit.smash_bottom_sensor, owner, offset_x: SMASH_BOTTOM_OFFSET },
        ).push(AttackSensor { id: kit.fallen_angel_sensor, owner, offset_x: FALLEN_ANGEL_OFFSET }),
        hitboxes: fight.hitboxes.push(
            boss_hitbox(kit.smash_top_hitbox, kit.smash_top_sensor, true),
        ).push(boss_hitbox(kit.smash_bottom_hitbox, kit.smash_bottom_sensor, true)).push(
            boss_hitbox(kit.fallen_angel_hitbox, kit.fallen_angel_sensor, false),
        ),
        ..fight
    }
}

/// None of the identities of the kit is taken in the fight, and the kit does
/// not use one identity for two shapes of a kind.
pub open spec fn player_kit_is_fresh(fight: Fight, kit: PlayerKit) -> bool {
    &&& index_of(fight.hurtboxes, kit.hurtbox) is None
    &&& index_of(fight.sensors, kit.bottom_whip_sensor) is None
    &&& index_of(fight.sensors, kit.front_whip_sensor) is None
    &&& kit.bottom_whip_sensor != kit.front_whip_sensor
    &&& index_of(fight.hitboxes, kit.bottom_whip_hitbox) is None
    &&& index_of(fight.hitboxes, kit.front_whip_hitbox) is None
    &&& kit.bottom_whip_hitbox != kit.front_whip_hitbox
}

/// None of the identities of the kit is taken in the fight, and the kit does
/// not use one identity for two shapes of a kind.
pub open spec fn boss_kit_is_fresh(fight: Fight, kit: BossKit) -> bool {
    &&& index_of(fight.hurtboxes, kit.hurtbox) is None
    &&& index_of(fight.sensors, kit.smash_top_sensor) is None
    &&& index_of(fight.sensors, kit.smash_bottom_sensor) is None
    &&& index_of(fight.sensors, kit.fallen_angel_sensor) is None
    &&& kit.smash_top_sensor != kit.smash_bottom_sensor
    &&& kit.smash_top_sensor != kit.fallen_angel_sensor
    &&& kit.smash_bottom_sensor != kit.fallen_angel_sensor
    &&& index_of(fight.hitboxes, kit.smash_top_hitbox) is None
    &&& index_of(fight.hitboxes, kit.smash_bottom_hitbox) is None
    &&& index_of(fight.hitboxes, kit.fallen_angel_hitbox) is None
    &&& kit.smash_top_hitbox != kit.smash_bottom_hitbox
    &&& kit.smash_top_hitbox != kit.fallen_angel_hitbox
    &&& kit.smash_bottom_hitbox != kit.fallen_angel_hitbox
}

/// The fight with one more character, unless its identity is taken.
pub open spec fn with_character(fight: Fight, character: Character) -> Fight {
    if index_of(fight.characters, character.id) is None {
        Fight { characters: fight.characters.push(character), ..fight }
    } else {
        fight
    }
}

/// A new identity keeps the identities apart.
pub proof fn lemma_push_keeps_ids_unique(characters: Seq<Character>, character: Character)
    requires
        unique_ids(characters),
        index_of(characters, character.id) is None,
    ensures
        unique_ids(characters.push(character)),
{
    lemma_index_of(characters, character.id);
}

impl World {
    /// Brings a character into the fight.
    ///
    /// A character whose identity is taken is turned away, and the result is
    /// `false`. Otherwise it joins at the end of the cast, and the hitboxes
    /// are armed anew.
    pub fn spawn(&mut self, character: Character) -> (spawned: bool)
        ensures
            spawned == (index_of(old(self)@.characters, character.id) is None),
            spawned ==> final(self)@ == after_arming(with_character(old(self)@, character)),
            !spawned ==> final(self)@ == old(self)@,
            old(self).wf() && character.wf() ==> final(self).wf(),
            spawned ==> arming_is_correct(final(self)@),
    {
        match find(&self.characters, character.id) {
            Some(_) => false,
            None => {
                proof {
                    if old(self).wf() {
                        lemma_push_keeps_ids_unique(old(self)@.characters, character);
                    }
                }
                self.characters.push(character);
                self.arm();
                true
            },
        }
    }

    /// Hangs the shapes of a player on the character `owner` and arms the
    /// hitboxes anew. With a kit of fresh identities the fight keeps its
    /// invariants.
    pub fn equip_player(&mut self, owner: u64, kit: PlayerKit)
        ensures
            final(self)@ == after_arming(with_player_kit(old(self)@, owner, kit)),
            arming_is_correct(final(self)@),
            final(self).characters == old(self).characters,
            old(self).wf() && player_kit_is_fresh(old(self)@, kit) ==> final(self).wf(),
    {
        proof {
            if old(self).wf() && player_kit_is_fresh(old(self)@, kit) {
                let bottom = AttackSensor {
                    id: kit.bottom_whip_sensor,
                    owner,
                    offset_x: BOTTOM_WHIP_OFFSET,
                };
                let front = AttackSensor {
                    id: kit.front_whip_sensor,
                    owner,
                    offset_x: FRONT_WHIP_OFFSET,
                };
                lemma_push_keeps_keys_unique(
                    self.hurtboxes@,
                    CharacterHitbox { id: kit.hurtbox, owner },
                    kit.hurtbox,
                );
                lemma_push_keeps_keys_unique(self.sensors@, bottom, kit.front_whip_sensor);
                lemma_push_keeps_keys_unique(
                    self.sensors@.push(bottom),
                    front,
                    kit.front_whip_sensor,
                );
                lemma_push_keeps_keys_unique(
                    self.hitboxes@,
                    whip(kit.bottom_whip_hitbox, kit.bottom_whip_sensor),
                    kit.front_whip_hitbox,
                );
                lemma_push_keeps_keys_unique(
                    self.hitboxes@.push(whip(kit.bottom_whip_hitbox, kit.bottom_whip_sensor)),
                    whip(kit.front_whip_hitbox, kit.front_whip_sensor),
                    kit.front_whip_hitbox,
                );
            }
        }
        self.hurtboxes.push(CharacterHitbox { id: kit.hurtbox, owner });
        self.sensors.push(
            AttackSensor { id: kit.bottom_whip_sensor, owner, offset_x: BOTTOM_WHIP_OFFSET },
        );
        self.sensors.push(
            AttackSensor { id: kit.front_whip_sensor, owner, offset_x: FRONT_WHIP_OFFSET },
        );
        self.hitboxes.push(
            AttackHitbox {
                id: kit.bottom_whip_hitbox,
                sensor: kit.bottom_whip_sensor,
                damage: ATTACK_DAMAGE,
                armed: false,
                smash: false,
                fallen_angel: false,
            },
        );
        self.hitboxes.push(
            AttackHitbox {
                id: kit.front_whip_hitbox,
                sensor: kit.front_whip_sensor,
                damage: ATTACK_DAMAGE,
                armed: false,
                smash: false,
                fallen_angel: false,
            },
        );
        self.arm();
    }

    /// Hangs the shapes of the boss on the character `owner` and arms the
    /// hitboxes anew. With a kit of fresh identities the fight keeps its
    /// invariants.
    pub fn equip_boss(&mut self, owner: u64, kit: BossKit)
        ensures
            final(self)@ == after_arming(with_boss_kit(old(self)@, owner, kit)),
            arming_is_correct(final(self)@),
            final(self).characters == old(self).characters,
            old(self).wf() && boss_kit_is_fresh(old(self)@, kit) ==> final(self).wf(),
    {
        proof {
            if old(self).wf() && boss_kit_is_fresh(old(self)@, kit) {
                let top = AttackSensor {
                    id: kit.smash_top_sensor,
                    owner,
                    offset_x: SMASH_TOP_OFFSET,
                };
                let bottom = AttackSensor {
                    id: kit.smash_bottom_sensor,
                    owner,
                    offset_x: SMASH_BOTTOM_OFFSET,
                };
                let angel = AttackSensor {
                    id: kit.fallen_angel_sensor,
                    owner,
                    offset_x: FALLEN_ANGEL_OFFSET,
                };
                let smash_top = boss_hitbox(kit.smash_top_hitbox, kit.smash_top_sensor, true);
                let smash_bottom = boss_hitbox(
                    kit.smash_bottom_hitbox,
                    kit.smash_bottom_sensor,
                    true,
                );
                let fallen = boss_hitbox(kit.fallen_angel_hitbox, kit.fallen_angel_sensor, false);
                lemma_push_keeps_keys_unique(
                    self.hurtboxes@,
                    CharacterHitbox { id: kit.hurtbox, owner },
                    kit.hurtbox,
                );
                lemma_push_keeps_keys_unique(self.sensors@, top, kit.smash_bottom_sensor);
                lemma_push_keeps_keys_unique(self.sensors@, top, kit.fallen_angel_sensor);
                lemma_push_keeps_keys_unique(
                    self.sensors@.push(top),
                    bottom,
                    kit.fallen_angel_sensor,
                );
                lemma_push_keeps_keys_unique(
                    self.sensors@.push(top).push(bottom),
                    angel,
                    kit.fallen_angel_sensor,
                );
                lemma_push_keeps_keys_unique(self.hitboxes@, smash_top, kit.smash_bottom_hitbox);
                lemma_push_keeps_keys_unique(self.hitboxes@, smash_top, kit.fallen_angel_hitbox);
                lemma_push_keeps_keys_unique(
                    self.hitboxes@.push(smash_top),
                    smash_bottom,
                    kit.fallen_angel_hitbox,
                );
                lemma_push_keeps_keys_unique(
                    self.hitboxes@.push(smash_top).push(smash_bottom),
                    fallen,
                    kit.fallen_angel_hitbox,
                );
            }
        }
        self.hurtboxes.push(CharacterHitbox { id: kit.hurtbox, owner });
        self.sensors.push(
            AttackSensor { id: kit.smash_top_sensor, owner, offset_x: SMASH_TOP_OFFSET },
        );
        self.sensors.push(
            AttackSensor { id: kit.smash_bottom_sensor, owner, offset_x: SMASH_BOTTOM_OFFSET },
        );
        self.sensors.push(
            AttackSensor { id: kit.fallen_angel_sensor, owner, offset_x: FALLEN_ANGEL_OFFSET },
        );
        self.hitboxes.push(
            AttackHitbox {
                id: kit.smash_top_hitbox,
                sensor: kit.smash_top_sensor,
                damage: ATTACK_DAMAGE,
                armed: false,
                smash: true,
                fallen_angel: false,
            },
        );
        self.hitboxes.push(
            AttackHitbox {
                id: kit.smash_bottom_hitbox,
                sensor: kit.smash_bottom_sensor,
                damage: ATTACK_DAMAGE,
                armed: false,
                smash: true,
                fallen_angel: false,
            },
        );
        self.hitboxes.push(
            AttackHitbox {
                id: kit.fallen_angel_hitbox,
                sensor: kit.fallen_angel_sensor,
                damage: ATTACK_DAMAGE,
                armed: false,
                smash: false,
                fallen_angel: true,
            },
        );
        self.arm();
    }

    /// Brings the boss into the fight, with its shapes.
    ///
    /// The boss enters at full health, idle, and with no cooldown running:
    /// it may strike as soon as the player is close. If the identity is
    /// taken nothing happens and the result is `false`. With a kit of fresh
    /// identities the fight keeps its invariants.
    pub fn setup_boss(&mut self, id: u64, position: Position, kit: BossKit) -> (spawned: bool)
        ensures
            spawned == (index_of(old(self)@.characters, id) is None),
            spawned ==> final(self)@ == after_arming(
                with_boss_kit(
                    after_arming(with_character(old(self)@, boss_record(id, position))),
                    id,
                    kit,
                ),
            ),
            !spawned ==> final(self)@ == old(self)@,
            old(self).wf() && boss_kit_is_fresh(old(self)@, kit) ==> final(self).wf(),
    {
        let boss = Character::spawn(id, Role::Boss, BOSS_HP, position);
        if self.spawn(boss) {
            proof {
                let before = old(self)@.hitboxes;
                lemma_index_of_same_keys(before, self@.hitboxes, kit.smash_top_hitbox, 0);
                lemma_index_of_same_keys(before, self@.hitboxes, kit.smash_bottom_hitbox, 0);
                lemma_index_of_same_keys(before, self@.hitboxes, kit.fallen_angel_hitbox, 0);
            }
            self.equip_boss(id, kit);
            true
        } else {
            false
        }
    }

    /// Brings the first body of the player into the fight, with its shapes.
    ///
    /// The player enters at full health, idle, and out of reach of any hit
    /// for the first moments. If the identity is taken nothing happens and
    /// the result is `false`. With a kit of fresh identities the fight keeps
    /// its invariants.
    pub fn spawn_first_player(&mut self, id: u64, position: Position, kit: PlayerKit) -> (spawned:
        bool)
        ensures
            spawned == (index_of(old(self)@.characters, id) is None),
            spawned ==> final(self)@ == after_arming(
                with_player_kit(
                    after_arming(with_character(old(self)@, player_record(id, position))),
                    id,
                    kit,
                ),
            ),
            !spawned ==> final(self)@ == old(self)@,
            old(self).wf() && player_kit_is_fresh(old(self)@, kit) ==> final(self).wf(),
    {
        let player = Character {
            role: Role::Player,
            hp: Hp::new(PLAYER_HP),
            state: CharacterState::Idle,
            invulnerable: Some(Invulnerable(Countdown::from_millis(SPAWN_INVULNERABILITY))),
            charge: AttackCharge::new(),
            soul_shifting: false,
            dead: false,
            ..Character::spawn(id, Role::Player, PLAYER_HP, position)
        };
        if self.spawn(player) {
            proof {
                let before = old(self)@.hitboxes;
                lemma_index_of_same_keys(before, self@.hitboxes, kit.bottom_whip_hitbox, 0);
                lemma_index_of_same_keys(before, self@.hitboxes, kit.front_whip_hitbox, 0);
            }
            self.equip_player(id, kit);
            true
        } else {
            false
        }
    }
}

} // verus!
