//! The whole fight as one state, advanced one tick at a time.
//!
//! A tick runs the stages of the fight in a fixed order, each on what the
//! stage before it left:
//!
//! 1. countdowns advance;
//! 2. phases whose strip of frames has been played to its end give way to
//!    the phases that follow, and the boss finishes the action that a phase
//!    ends;
//! 3. the player's input and the boss's rules set phases and start
//!    cooldowns;
//! 4. the attack sensors of those who turned round are mirrored, and the
//!    attack hitboxes are armed by the phases of their owners;
//! 5. overlaps become hits; whether a character can be struck is read as it
//!    was when the tick began;
//! 6. hits are applied;
//! 7. deaths are played out;
//! 8. characters whose hit points changed flinch, and the hitboxes are
//!    armed once more by the phases that the tick ends with.

use crate::animations::{
    animation_frames,
    next_phase,
    Archetype,
    BossLastFrameEvent,
    CharacterState,
};
use crate::behaviors::{
    boss_actions_completed,
    boss_alive,
    boss_death,
    boss_dying,
    boss_last_frame,
    boss_think,
    intent_of,
    last_frame_of,
    phase_matches_head,
    thought,
    BossAction,
    BossActions,
    BossBehavior,
    BossIntent,
    BossMind,
    BossSenses,
};
use crate::character::{
    find,
    index_of,
    lemma_filter_keeps_keys_unique,
    lemma_index_of,
    lemma_index_of_same_keys,
    unique_keys,
    Character,
    Hp,
    Role,
};
use crate::collision::{
    attack_collision,
    bam,
    bam_the_player,
    damage_events,
    harms_another,
    lands_on_open_target,
    strikes,
    struck,
    struck_by_another,
    target_open,
    DamageHitEvent,
    Overlap,
};
use crate::damage::{
    after_hits,
    damage_animation,
    damage_hit,
    flinched,
    hit_points,
    hp_of,
    outcome_of_hit,
    HitOutcome,
};
use crate::hitbox::{
    all_rearmed,
    arm_hitboxes,
    flip_attack_sensor,
    should_be_armed,
    turned,
    warnings_among,
    ArmingWarning,
    AttackHitbox,
    AttackSensor,
    CharacterHitbox,
    FlipAttackSensorEvent,
};
use crate::player::{commanded, player_intent_of, PlayerInput, PlayerIntent};
use crate::soul_shift::{
    clean_up_dead_bodies,
    counted,
    create_player,
    death_counts,
    hitbox_off,
    hurtbox_off,
    lemma_nearest_of,
    nearest_of,
    player_death_event,
    sensor_off,
    shift_of,
    shifted,
    start_soul_shift,
    with_death,
    with_player,
    BossDeathEvent,
    PossesionCount,
    SoulShift,
    SoulShiftEvent,
};
use crate::timers::{age_all, all_aged, all_upkeep, Upkeep};
use crate::timing::Countdown;
use vstd::prelude::*;

verus! {

/// The state of the fight.
pub struct World {
    pub characters: Vec<Character>,
    pub sensors: Vec<AttackSensor>,
    pub hitboxes: Vec<AttackHitbox>,
    pub hurtboxes: Vec<CharacterHitbox>,
    pub boss_actions: BossActions,
    pub boss_behavior: BossBehavior,
    /// The countdown of a `Wait` that the boss is carrying out.
    pub boss_wait: Option<Countdown>,
    pub possesion_count: PossesionCount,
}

/// The state of the fight as plain values.
pub struct Fight {
    pub characters: Seq<Character>,
    pub sensors: Seq<AttackSensor>,
    pub hitboxes: Seq<AttackHitbox>,
    pub hurtboxes: Seq<CharacterHitbox>,
    /// The queue of the boss, head first.
    pub queue: Seq<BossAction>,
    pub behavior: BossBehavior,
    pub wait: Option<Countdown>,
    pub possesion_count: PossesionCount,
}

impl View for World {
    type V = Fight;

    open spec fn view(&self) -> Fight {
        Fight {
            characters: self.characters@,
            sensors: self.sensors@,
            hitboxes: self.hitboxes@,
            hurtboxes: self.hurtboxes@,
            queue: self.boss_actions.queue(),
            behavior: self.boss_behavior,
            wait: self.boss_wait,
            possesion_count: self.possesion_count,
        }
    }
}

/// The strip of frames of a phase of `character` has been played to its end.
#[derive(Clone, Copy, Debug, PartialEq, Eq, Structural)]
pub struct PhaseFinished {
    pub character: u64,
    pub phase: CharacterState,
}

/// The table of phases that a character follows.
pub open spec fn archetype_of(role: Role) -> Archetype {
    match role {
        Role::Boss => Archetype::Boss,
        Role::CrowdMember => Archetype::Spectator,
        _ => Archetype::Player,
    }
}

/// Picks the table of phases that a character follows.
pub fn archetype(role: Role) -> (kind: Archetype)
    ensures
        kind == archetype_of(role),
{
    match role {
        Role::Boss => Archetype::Boss,
        Role::CrowdMember => Archetype::Spectator,
        _ => Archetype::Player,
    }
}

/// The index of the first living character at or after `from` that has the
/// given role.
pub open spec fn first_alive(characters: Seq<Character>, role: Role, from: int) -> Option<int>
    decreases characters.len() - from,
{
    if from < 0 || from >= characters.len() {
        None
    } else if characters[from].role == role && !characters[from].dead {
        Some(from)
    } else {
        first_alive(characters, role, from + 1)
    }
}

/// The body that the player controls: the first living character that is a
/// player.
pub open spec fn player_of(characters: Seq<Character>) -> Option<int> {
    first_alive(characters, Role::Player, 0)
}

/// The boss: the first living character that is a boss.
pub open spec fn boss_of(characters: Seq<Character>) -> Option<int> {
    first_alive(characters, Role::Boss, 0)
}

/// What `first_alive` finds is in range, alive and of the role.
pub proof fn lemma_first_alive(characters: Seq<Character>, role: Role, from: int)
    requires
        0 <= from,
    ensures
        first_alive(characters, role, from) matches Some(i) ==> from <= i < characters.len()
            && characters[i].role == role && !characters[i].dead,
    decreases characters.len() - from,
{
    if from < characters.len() && !(characters[from].role == role && !characters[from].dead) {
        lemma_first_alive(characters, role, from + 1);
    }
}

/// Finds the first living character that has the given role.
pub fn find_alive(characters: &Vec<Character>, role: Role) -> (found: Option<usize>)
    ensures
        match found {
            Some(i) => first_alive(characters@, role, 0) == Some(i as int) && i
                < characters.len() && characters[i as int].role == role
                && !characters[i as int].dead,
            None => first_alive(characters@, role, 0) is None,
        },
{
    let mut i: usize = 0;
    while i < characters.len()
        invariant
            i <= characters.len(),
            first_alive(characters@, role, 0) == first_alive(characters@, role, i as int),
        decreases characters.len() - i,
    {
        if characters[i].role == role && !characters[i].dead {
            return Some(i);
        }
        i = i + 1;
    }
    None
}

/// The fight after the strip of frames of one phase has been played to its
/// end.
///
/// The signal counts only for a living, registered character that is still
/// in that phase. The character moves on to the phase that follows in its
/// table. For the boss the end of the phase is also read against the queue:
/// it may finish the action at the head, and it may set off the dash that
/// the boss got ready for.
pub open spec fn after_signal(fight: Fight, signal: PhaseFinished) -> Fight {
    match index_of(fight.characters, signal.character) {
        None => fight,
        Some(c) => {
            let who = fight.characters[c];
            if who.dead || who.state != signal.phase {
                fight
            } else if who.role == Role::Boss {
                let read = last_frame_of(signal.phase, fight.queue);
                Fight {
                    characters: fight.characters.update(
                        c,
                        Character {
                            state: next_phase(Archetype::Boss, who.state),
                            dash: if read.dash is Some {
                                read.dash
                            } else {
                                who.dash
                            },
                            ..who
                        },
                    ),
                    queue: if read.completed is Some {
                        fight.queue.drop_first()
                    } else {
                        fight.queue
                    },
                    ..fight
                }
            } else {
                Fight {
                    characters: fight.characters.update(
                        c,
                        Character { state: next_phase(archetype_of(who.role), who.state), ..who },
                    ),
                    ..fight
                }
            }
        },
    }
}

/// Whether the signal finishes the action at the head of the queue.
pub open spec fn signal_completes(fight: Fight, signal: PhaseFinished) -> bool {
    match index_of(fight.characters, signal.character) {
        None => false,
        Some(c) => {
            let who = fight.characters[c];
            !who.dead && who.state == signal.phase && who.role == Role::Boss && last_frame_of(
                signal.phase,
                fight.queue,
            ).completed is Some
        },
    }
}

/// The fight after the first `n` signals, in order.
pub open spec fn after_signals(fight: Fight, signals: Seq<PhaseFinished>, n: int) -> Fight
    decreases n,
{
    if n <= 0 {
        fight
    } else {
        after_signal(after_signals(fight, signals, n - 1), signals[n - 1])
    }
}

/// Whether one of the first `n` signals finished an action of the boss.
pub open spec fn signals_complete(fight: Fight, signals: Seq<PhaseFinished>, n: int) -> bool
    decreases n,
{
    if n <= 0 {
        false
    } else {
        signals_complete(fight, signals, n - 1) || signal_completes(
            after_signals(fight, signals, n - 1),
            signals[n - 1],
        )
    }
}

impl World {
    /// Every character keeps the invariants of its record, and no two
    /// characters, no two attack sensors, no two attack hitboxes and no two
    /// hurtboxes share an identity.
    pub open spec fn wf(&self) -> bool {
        &&& forall|i: int| 0 <= i < self.characters.len() ==> (#[trigger] self.characters[i]).wf()
        &&& unique_ids(self.characters@)
        &&& unique_keys(self.sensors@)
        &&& unique_keys(self.hitboxes@)
        &&& unique_keys(self.hurtboxes@)
    }

    /// A fight with nobody in it yet: the boss chases and has nothing queued,
    /// which is held as no queue at all.
    pub fn new() -> (world: World)
        ensures
            world@ == (Fight {
                characters: Seq::empty(),
                sensors: Seq::empty(),
                hitboxes: Seq::empty(),
                hurtboxes: Seq::empty(),
                queue: Seq::empty(),
                behavior: BossBehavior::Chase,
                wait: None,
                possesion_count: PossesionCount(0),
            }),
            world.boss_actions.0 is None,
            world.wf(),
    {
        World {
            characters: Vec::new(),
            sensors: Vec::new(),
            hitboxes: Vec::new(),
            hurtboxes: Vec::new(),
            boss_actions: BossActions(None),
            boss_behavior: BossBehavior::Chase,
            boss_wait: None,
            possesion_count: PossesionCount(0),
        }
    }

    /// Advances the countdowns of every character.
    pub fn upkeep(&mut self, delta_ms: u32) -> (upkeep: Vec<Upkeep>)
        ensures
            final(self)@ == (Fight {
                characters: all_aged(old(self)@.characters, delta_ms),
                ..old(self)@
            }),
            upkeep@ == all_upkeep(old(self)@.characters, delta_ms),
            old(self).wf() ==> final(self).wf(),
            same_cast(old(self)@.characters, final(self)@.characters),
            the_dead_rest(old(self)@.characters, final(self)@.characters),
    {
        let upkeep = age_all(&mut self.characters, delta_ms);
        upkeep
    }

    /// Takes in the end of a strip of frames. The result says whether it
    /// finished the action at the head of the boss's queue.
    pub fn animation_finished(&mut self, signal: PhaseFinished) -> (completed: bool)
        ensures
            final(self)@ == after_signal(old(self)@, signal),
            completed == signal_completes(old(self)@, signal),
            old(self).wf() ==> final(self).wf(),
            same_cast(old(self)@.characters, final(self)@.characters),
            old(self).chases_when_idle() && !completed ==> final(self).chases_when_idle(),
            completed ==> boss_of(old(self)@.characters) is Some,
            the_dead_rest(old(self)@.characters, final(self)@.characters),
    {
        proof {
            if signal_completes(self@, signal) {
                lemma_index_of(self@.characters, signal.character);
                lemma_first_alive_exists(
                    self@.characters,
                    Role::Boss,
                    0,
                    index_of(self@.characters, signal.character).unwrap(),
                );
            }
        }
        match find(&self.characters, signal.character) {
            None => false,
            Some(c) => {
                let who = self.characters[c];
                if who.dead || who.state != signal.phase {
                    return false;
                }
                let next = match animation_frames(archetype(who.role), who.state) {
                    Some(strip) => strip.next,
                    None => who.state,
                };
                if who.role == Role::Boss {
                    let read = boss_last_frame(BossLastFrameEvent(signal.phase), &self.boss_actions);
                    let dash = if read.dash.is_some() {
                        read.dash
                    } else {
                        who.dash
                    };
                    self.characters.set(c, Character { state: next, dash, ..who });
                    if read.completed.is_some() {
                        boss_actions_completed(&mut self.boss_actions)
                    } else {
                        false
                    }
                } else {
                    self.characters.set(c, Character { state: next, ..who });
                    false
                }
            },
        }
    }

    /// Takes in the ends of strips of frames, in order. The result says
    /// whether one of them finished an action of the boss.
    pub fn animations_finished(&mut self, signals: &Vec<PhaseFinished>) -> (completed: bool)
        ensures
            final(self)@ == after_signals(old(self)@, signals@, signals.len() as int),
            completed == signals_complete(old(self)@, signals@, signals.len() as int),
            old(self).wf() ==> final(self).wf(),
            same_cast(old(self)@.characters, final(self)@.characters),
            old(self).chases_when_idle() && !completed ==> final(self).chases_when_idle(),
            completed ==> boss_of(old(self)@.characters) is Some,
            the_dead_rest(old(self)@.characters, final(self)@.characters),
    {
        let mut completed = false;
        let mut i: usize = 0;
        while i < signals.len()
            invariant
                i <= signals.len(),
                self@ == after_signals(old(self)@, signals@, i as int),
                completed == signals_complete(old(self)@, signals@, i as int),
                old(self).wf() ==> self.wf(),
                same_cast(old(self)@.characters, self@.characters),
                old(self).chases_when_idle() && !completed ==> self.chases_when_idle(),
                completed ==> boss_of(old(self)@.characters) is Some,
                the_dead_rest(old(self)@.characters, self@.characters),
            decreases signals.len() - i,
        {
            proof {
                lemma_first_alive_same_cast(
                    old(self)@.characters,
                    self@.characters,
                    Role::Boss,
                    0,
                );
            }
            let done = self.animation_finished(signals[i]);
            completed = completed || done;
            i = i + 1;
        }
        completed
    }
}

/// The fight after the player's input: the body that the player controls
/// takes it, and nobody else does.
pub open spec fn after_command(fight: Fight, input: PlayerInput) -> Fight {
    match player_of(fight.characters) {
        Some(p) => Fight {
            characters: fight.characters.update(p, commanded(fight.characters[p], input)),
            ..fight
        },
        None => fight,
    }
}

/// What the player's input leads to, where there is a player.
pub open spec fn command_intent(fight: Fight, input: PlayerInput) -> Option<PlayerIntent> {
    match player_of(fight.characters) {
        Some(p) => Some(player_intent_of(fight.characters[p], input)),
        None => None,
    }
}

/// What the boss perceives: what the engine reports of its sensors and of
/// the player's movement, and where the player stands.
pub open spec fn senses_of(
    fight: Fight,
    proximity: bool,
    backstroke: bool,
    player_velocity_x: i32,
) -> BossSenses {
    BossSenses {
        proximity,
        backstroke,
        player_x: match player_of(fight.characters) {
            Some(p) => Some(fight.characters[p].position.x),
            None => None,
        },
        player_velocity_x,
    }
}

/// The boss at index `b` together with what drives it.
pub open spec fn mind_of(fight: Fight, b: int) -> BossMind {
    BossMind {
        boss: fight.characters[b],
        queue: fight.queue,
        behavior: fight.behavior,
        wait: fight.wait,
    }
}

/// The fight after the boss has thought.
pub open spec fn after_thought(
    fight: Fight,
    senses: BossSenses,
    delta_ms: u32,
    finished: bool,
) -> Fight {
    match boss_of(fight.characters) {
        Some(b) => {
            let mind = thought(mind_of(fight, b), senses, delta_ms, finished);
            Fight {
                characters: fight.characters.update(b, mind.boss),
                queue: mind.queue,
                behavior: mind.behavior,
                wait: mind.wait,
                ..fight
            }
        },
        None => fight,
    }
}

/// What the boss decides, where there is a boss.
pub open spec fn thought_intent(
    fight: Fight,
    senses: BossSenses,
    delta_ms: u32,
    finished: bool,
) -> Option<BossIntent> {
    match boss_of(fight.characters) {
        Some(b) => Some(intent_of(mind_of(fight, b), senses, delta_ms, finished)),
        None => None,
    }
}

/// The fight after the sensors of a character that has turned round have
/// been mirrored.
pub open spec fn after_turn(fight: Fight, flip: Option<FlipAttackSensorEvent>) -> Fight {
    match flip {
        Some(event) => Fight {
            sensors: turned(fight.sensors, fight.characters, event.0),
            ..fight
        },
        None => fight,
    }
}

/// The fight after the hitboxes have been armed by the phases of their
/// owners.
pub open spec fn after_arming(fight: Fight) -> Fight {
    Fight { hitboxes: all_rearmed(fight.sensors, fight.characters, fight.hitboxes), ..fight }
}

/// The warnings that arming the hitboxes gives.
pub open spec fn arming_warnings(fight: Fight) -> Seq<ArmingWarning> {
    warnings_among(fight.sensors, fight.characters, fight.hitboxes, fight.hitboxes.len() as int)
}

/// Every hitbox is armed if and only if the phase of its owner is in its
/// attack-active set.
pub open spec fn arming_is_correct(fight: Fight) -> bool {
    forall|i: int|
        0 <= i < fight.hitboxes.len() ==> ((#[trigger] fight.hitboxes[i]).armed
            <==> should_be_armed(fight.sensors, fight.characters, fight.hitboxes[i]))
}

/// The hits of one pass. `start` holds the characters as they were when the
/// tick began: whether a character can be struck is read there.
pub open spec fn hits_of(fight: Fight, start: Seq<Character>, overlaps: Seq<Overlap>) -> Seq<
    DamageHitEvent,
> {
    damage_events(fight.sensors, fight.hitboxes, fight.hurtboxes, start, overlaps)
}

/// The fight after the hits have been applied.
pub open spec fn after_wounds(fight: Fight, hits: Seq<DamageHitEvent>) -> Fight {
    Fight {
        characters: after_hits(fight.hitboxes, fight.characters, hits, hits.len() as int),
        ..fight
    }
}

/// What became of each hit.
pub open spec fn wound_outcomes(fight: Fight, hits: Seq<DamageHitEvent>) -> Seq<HitOutcome> {
    Seq::new(
        hits.len(),
        |k: int|
            outcome_of_hit(
                fight.hitboxes,
                after_hits(fight.hitboxes, fight.characters, hits, k),
                hits[k],
            ),
    )
}

/// A death that is to be played out.
#[derive(Clone, Copy, Debug, PartialEq, Eq, Structural)]
pub enum LifecycleEvent {
    SoulShift(SoulShiftEvent),
    BossDeath(BossDeathEvent),
}

/// How a death was played out.
#[derive(Clone, Copy, Debug, PartialEq, Eq, Structural)]
pub enum Passing {
    /// How the soul shift of the player went.
    Soul(SoulShift),
    /// Whether the boss died now; `false` for a boss that was dead already
    /// or is unknown.
    Boss(bool),
}

/// The death that a hit calls for, if it was lethal.
pub open spec fn notice_of(hit: DamageHitEvent, outcome: HitOutcome) -> Option<LifecycleEvent> {
    match outcome {
        HitOutcome::PlayerSlain => Some(LifecycleEvent::SoulShift(SoulShiftEvent(hit.target))),
        HitOutcome::BossSlain => Some(LifecycleEvent::BossDeath(BossDeathEvent(hit.target))),
        _ => None,
    }
}

/// The deaths that the first `n` hits call for, in order.
pub open spec fn notices_among(
    hits: Seq<DamageHitEvent>,
    outcomes: Seq<HitOutcome>,
    n: int,
) -> Seq<LifecycleEvent>
    decreases n,
{
    if n <= 0 {
        Seq::empty()
    } else {
        let earlier = notices_among(hits, outcomes, n - 1);
        match notice_of(hits[n - 1], outcomes[n - 1]) {
            Some(notice) => earlier.push(notice),
            None => earlier,
        }
    }
}

/// The deaths of a tick: that of a player that gave up its body, then those
/// that the hits call for.
pub open spec fn notices_of(
    intent: Option<PlayerIntent>,
    hits: Seq<DamageHitEvent>,
    outcomes: Seq<HitOutcome>,
) -> Seq<LifecycleEvent> {
    let given_up = match intent {
        Some(PlayerIntent { soul_shift: Some(event), .. }) => seq![
            LifecycleEvent::SoulShift(event),
        ],
        _ => Seq::empty(),
    };
    given_up + notices_among(hits, outcomes, hits.len() as int)
}

/// The fight without what hung on the character `body`.
pub open spec fn cleared(fight: Fight, body: u64) -> Fight {
    Fight {
        hitboxes: fight.hitboxes.filter(hitbox_off(fight.sensors, body)),
        sensors: fight.sensors.filter(sensor_off(body)),
        hurtboxes: fight.hurtboxes.filter(hurtbox_off(body)),
        ..fight
    }
}

/// Taking away what hung on a body keeps the identities of what stays
/// apart.
pub proof fn lemma_cleared_keeps_keys_unique(fight: Fight, body: u64)
    requires
        unique_keys(fight.sensors),
        unique_keys(fight.hitboxes),
        unique_keys(fight.hurtboxes),
    ensures
        unique_keys(cleared(fight, body).sensors),
        unique_keys(cleared(fight, body).hitboxes),
        unique_keys(cleared(fight, body).hurtboxes),
{
    lemma_filter_keeps_keys_unique(fight.sensors, sensor_off(body));
    lemma_filter_keeps_keys_unique(fight.hitboxes, hitbox_off(fight.sensors, body));
    lemma_filter_keeps_keys_unique(fight.hurtboxes, hurtbox_off(body));
}

/// The fight after a death has been played out.
///
/// The soul of a player that is struck down moves on: its old body is left
/// behind, dies and is counted, what hung on it is taken away, and the
/// nearest spectator becomes the player. Where the shift does not take
/// place nothing changes. A living boss dies and loses what hung on it; for
/// any other character the death of the boss changes nothing.
pub open spec fn after_passing(fight: Fight, notice: LifecycleEvent) -> Fight {
    match notice {
        LifecycleEvent::SoulShift(event) => match shift_of(fight.characters, event) {
            SoulShift::Shifted(death, birth) => {
                let left = shifted(fight.characters, event);
                cleared(
                    Fight {
                        characters: with_player(with_death(left, death), birth),
                        possesion_count: if death_counts(left, death) {
                            counted(fight.possesion_count)
                        } else {
                            fight.possesion_count
                        },
                        ..fight
                    },
                    event.0,
                )
            },
            _ => fight,
        },
        LifecycleEvent::BossDeath(event) => match index_of(fight.characters, event.0) {
            Some(b) => if boss_alive(fight.characters[b]) {
                cleared(
                    Fight {
                        characters: fight.characters.update(b, boss_dying(fight.characters[b])),
                        ..fight
                    },
                    event.0,
                )
            } else {
                fight
            },
            None => fight,
        },
    }
}

/// How a death is played out.
pub open spec fn passing_of(fight: Fight, notice: LifecycleEvent) -> Passing {
    match notice {
        LifecycleEvent::SoulShift(event) => Passing::Soul(shift_of(fight.characters, event)),
        LifecycleEvent::BossDeath(event) => Passing::Boss(
            match index_of(fight.characters, event.0) {
                Some(b) => boss_alive(fight.characters[b]),
                None => false,
            },
        ),
    }
}

/// Death comes once: a death that has been played out changes nothing when
/// it is asked for again. The soul of a body that has been left does not
/// move on a second time, the body is not counted again, and the boss does
/// not die twice.
pub proof fn lemma_passing_is_idempotent(fight: Fight, notice: LifecycleEvent)
    requires
        unique_ids(fight.characters),
    ensures
        after_passing(after_passing(fight, notice), notice) == after_passing(fight, notice),
{
    let cast = fight.characters;
    match notice {
        LifecycleEvent::SoulShift(event) => {
            match shift_of(cast, event) {
                SoulShift::Shifted(death, birth) => {
                    lemma_index_of(cast, event.0);
                    let p = index_of(cast, event.0).unwrap();
                    lemma_nearest_of(cast, cast[p].position);
                    let n = nearest_of(cast, cast[p].position);
                    let left = shifted(cast, event);
                    lemma_index_of_same_keys(cast, left, event.0, 0);
                    let dead = with_death(left, death);
                    lemma_index_of_same_keys(cast, dead, birth.0, 0);
                    lemma_found_by_id(cast, n);
                    let fitted = with_player(dead, birth);
                    lemma_index_of_same_keys(cast, fitted, event.0, 0);
                },
                _ => {},
            }
        },
        LifecycleEvent::BossDeath(event) => {
            match index_of(cast, event.0) {
                Some(b) => {
                    lemma_index_of(cast, event.0);
                    if boss_alive(cast[b]) {
                        let after = cast.update(b, boss_dying(cast[b]));
                        lemma_index_of_same_keys(cast, after, event.0, 0);
                    }
                },
                None => {},
            }
        },
    }
}

/// The fight after the first `n` deaths have been played out, in order.
pub open spec fn after_passings(fight: Fight, notices: Seq<LifecycleEvent>, n: int) -> Fight
    decreases n,
{
    if n <= 0 {
        fight
    } else {
        after_passing(after_passings(fight, notices, n - 1), notices[n - 1])
    }
}

/// The fight after every character whose hit points differ from those in
/// `hps` has flinched; the dead and those in phase `Dead` do not.
pub open spec fn after_flinch(fight: Fight, hps: Seq<Hp>) -> Fight {
    Fight {
        characters: Seq::new(
            fight.characters.len(),
            |i: int|
                if i < hps.len() {
                    flinched(fight.characters[i], hps[i])
                } else {
                    fight.characters[i]
                },
        ),
        ..fight
    }
}

impl World {
    /// Hands the player's input to the body that the player controls.
    pub fn command(&mut self, input: &PlayerInput) -> (intent: Option<PlayerIntent>)
        ensures
            final(self)@ == after_command(old(self)@, *input),
            intent == command_intent(old(self)@, *input),
            old(self).wf() ==> final(self).wf(),
            same_cast(old(self)@.characters, final(self)@.characters),
            the_dead_rest(old(self)@.characters, final(self)@.characters),
    {
        match find_alive(&self.characters, Role::Player) {
            None => None,
            Some(p) => {
                let mut player = self.characters[p];
                let intent = crate::player::command(&mut player, input);
                self.characters.set(p, player);
                Some(intent)
            },
        }
    }

    /// Lets the boss think. `finished` says that an action of the boss was
    /// finished earlier in the tick.
    pub fn think(
        &mut self,
        proximity: bool,
        backstroke: bool,
        player_velocity_x: i32,
        delta_ms: u32,
        finished: bool,
    ) -> (intent: Option<BossIntent>)
        ensures
            final(self)@ == after_thought(
                old(self)@,
                senses_of(old(self)@, proximity, backstroke, player_velocity_x),
                delta_ms,
                finished,
            ),
            intent == thought_intent(
                old(self)@,
                senses_of(old(self)@, proximity, backstroke, player_velocity_x),
                delta_ms,
                finished,
            ),
            old(self).wf() ==> final(self).wf(),
            same_cast(old(self)@.characters, final(self)@.characters),
            the_dead_rest(old(self)@.characters, final(self)@.characters),
            old(self).chases_when_idle() ==> final(self).chases_when_idle(),
            finished && boss_of(old(self)@.characters) is Some ==> final(self).chases_when_idle(),
            boss_of(final(self)@.characters) == boss_of(old(self)@.characters),
            executed_now(intent) ==> heads_the_phase(final(self)@),
    {
        let player_x = match find_alive(&self.characters, Role::Player) {
            Some(p) => Some(self.characters[p].position.x),
            None => None,
        };
        let senses = BossSenses { proximity, backstroke, player_x, player_velocity_x };
        match find_alive(&self.characters, Role::Boss) {
            None => None,
            Some(b) => {
                let mut boss = self.characters[b];
                let intent = boss_think(
                    &mut boss,
                    &mut self.boss_actions,
                    &mut self.boss_behavior,
                    &mut self.boss_wait,
                    &senses,
                    delta_ms,
                    finished,
                );
                self.characters.set(b, boss);
                proof {
                    lemma_first_alive_same_cast(
                        old(self)@.characters,
                        self@.characters,
                        Role::Boss,
                        0,
                    );
                }
                Some(intent)
            },
        }
    }

    /// Mirrors the attack sensors of a character that has turned round.
    pub fn turn(&mut self, flip: Option<FlipAttackSensorEvent>)
        ensures
            final(self)@ == after_turn(old(self)@, flip),
            final(self).characters == old(self).characters,
            old(self).wf() ==> final(self).wf(),
    {
        match flip {
            Some(event) => {
                flip_attack_sensor(&mut self.sensors, &self.characters, event);
            },
            None => {},
        }
    }

    /// Arms the attack hitboxes by the phases of their owners.
    pub fn arm(&mut self) -> (warnings: Vec<ArmingWarning>)
        ensures
            final(self)@ == after_arming(old(self)@),
            warnings@ == arming_warnings(old(self)@),
            arming_is_correct(final(self)@),
            final(self).characters == old(self).characters,
            old(self).wf() ==> final(self).wf(),
    {
        arm_hitboxes(&mut self.hitboxes, &self.sensors, &self.characters)
    }

    /// Turns the overlaps that the engine reported into hits. `start` holds
    /// the characters as they were when the tick began.
    pub fn resolve(&self, start: &Vec<Character>, overlaps: &Vec<Overlap>) -> (hits: Vec<
        DamageHitEvent,
    >)
        ensures
            hits@ == hits_of(self@, start@, overlaps@),
            forall|k: int|
                0 <= k < hits.len() ==> harms_another(
                    self@.sensors,
                    self@.hitboxes,
                    #[trigger] hits[k],
                ),
            self.wf() ==> forall|k: int|
                0 <= k < hits.len() ==> struck_by_another(
                    self@.sensors,
                    self@.hitboxes,
                    #[trigger] hits[k],
                ),
            forall|k: int, l: int|
                0 <= k < l < hits.len() ==> (#[trigger] hits[k]).target != (
                #[trigger] hits[l]).target,
            forall|k: int|
                0 <= k < hits.len() ==> lands_on_open_target(start@, #[trigger] hits[k]),
            forall|j: int, i: int|
                0 <= j < self.hurtboxes.len() && 0 <= i < self.hitboxes.len() && target_open(
                    start@,
                    #[trigger] self.hurtboxes[j],
                ) && strikes(
                    self.sensors@,
                    overlaps@,
                    #[trigger] self.hitboxes[i],
                    self.hurtboxes[j],
                ) ==> struck(hits@, self.hurtboxes[j].owner),
    {
        attack_collision(&self.sensors, &self.hitboxes, &self.hurtboxes, start, overlaps)
    }

    /// Applies the hits of one pass.
    pub fn wound(&mut self, hits: &Vec<DamageHitEvent>) -> (outcomes: Vec<HitOutcome>)
        ensures
            final(self)@ == after_wounds(old(self)@, hits@),
            outcomes@ == wound_outcomes(old(self)@, hits@),
            old(self).wf() ==> final(self).wf(),
            same_cast(old(self)@.characters, final(self)@.characters),
            the_dead_rest(old(self)@.characters, final(self)@.characters),
            forall|i: int|
                0 <= i < old(self).characters.len() ==> (#[trigger] final(self).characters[i]).state
                    == old(self).characters[i].state,
    {
        let outcomes = damage_hit(hits, &self.hitboxes, &mut self.characters);
        outcomes
    }

    /// Plays out a death.
    pub fn bury(&mut self, notice: LifecycleEvent) -> (passing: Passing)
        ensures
            final(self)@ == after_passing(old(self)@, notice),
            passing == passing_of(old(self)@, notice),
            old(self).wf() ==> final(self).wf(),
            final(self).characters.len() == old(self).characters.len(),
            forall|i: int|
                0 <= i < old(self).characters.len() ==> (#[trigger] final(self).characters[i]).id
                    == old(self).characters[i].id,
            final(self)@.queue == old(self)@.queue,
            final(self)@.behavior == old(self)@.behavior,
            old(self).wf() ==> bosses_spared_or_dead(
                old(self)@.characters,
                final(self)@.characters,
            ),
            old(self).wf() ==> the_dead_rest(old(self)@.characters, final(self)@.characters),
    {
        match notice {
            LifecycleEvent::SoulShift(event) => {
                let shift = start_soul_shift(&mut self.characters, event);
                match shift {
                    SoulShift::Shifted(death, birth) => {
                        let ghost left = self@.characters;
                        player_death_event(
                            &mut self.characters,
                            &mut self.possesion_count,
                            death,
                        );
                        let ghost dead = self@.characters;
                        create_player(&mut self.characters, birth);
                        proof {
                            if old(self).wf() {
                                let cast = old(self)@.characters;
                                let p = index_of(cast, event.0).unwrap();
                                let n = nearest_of(cast, cast[p].position);
                                lemma_index_of(cast, event.0);
                                lemma_index_of_same_keys(cast, left, event.0, 0);
                                lemma_index_of_same_keys(cast, dead, birth.0, 0);
                                lemma_found_by_id(cast, n);
                                lemma_cleared_keeps_keys_unique(old(self)@, event.0);
                            }
                        }
                        clean_up_dead_bodies(
                            &mut self.sensors,
                            &mut self.hitboxes,
                            &mut self.hurtboxes,
                            event.0,
                        );
                    },
                    _ => {},
                }
                Passing::Soul(shift)
            },
            LifecycleEvent::BossDeath(event) => {
                match find(&self.characters, event.0) {
                    None => Passing::Boss(false),
                    Some(b) => {
                        let mut boss = self.characters[b];
                        let died = boss_death(&mut boss);
                        if died {
                            self.characters.set(b, boss);
                            proof {
                                if old(self).wf() {
                                    lemma_cleared_keeps_keys_unique(old(self)@, event.0);
                                }
                            }
                            clean_up_dead_bodies(
                                &mut self.sensors,
                                &mut self.hitboxes,
                                &mut self.hurtboxes,
                                event.0,
                            );
                        }
                        Passing::Boss(died)
                    },
                }
            },
        }
    }

    /// Makes every character flinch whose hit points differ from those in
    /// `hps`, unless it has died or is in phase `Dead`.
    pub fn flinch(&mut self, hps: &Vec<Hp>)
        ensures
            final(self)@ == after_flinch(old(self)@, hps@),
            old(self).wf() ==> final(self).wf(),
            same_cast(old(self)@.characters, final(self)@.characters),
            the_dead_rest(old(self)@.characters, final(self)@.characters),
    {
        damage_animation(&mut self.characters, hps);
        assert(self@.characters =~= after_flinch(old(self)@, hps@).characters);
    }

    /// With nothing queued, the boss chases.
    pub open spec fn chases_when_idle(&self) -> bool {
        self@.queue.len() == 0 ==> self@.behavior == BossBehavior::Chase
    }
}

/// The boss carried out the head of its queue.
pub open spec fn executed_now(intent: Option<BossIntent>) -> bool {
    match intent {
        Some(decided) => decided.execution is Some,
        None => false,
    }
}

/// The living boss is in the phase that the head of its queue begins with.
pub open spec fn heads_the_phase(fight: Fight) -> bool {
    match boss_of(fight.characters) {
        Some(b) => phase_matches_head(fight.characters[b], fight.queue),
        None => true,
    }
}

/// Death is final: whoever was dead in `before` is in `after` exactly what
/// it was.
pub open spec fn the_dead_rest(before: Seq<Character>, after: Seq<Character>) -> bool {
    &&& before.len() == after.len()
    &&& forall|i: int|
        0 <= i < before.len() && (#[trigger] before[i]).dead ==> after[i] == before[i]
}

/// The record `after` is what `before` was, or is that of a dead boss.
pub open spec fn spared_or_dead(before: Character, after: Character) -> bool {
    after == before || (after.dead && after.role == Role::Boss)
}

/// Every boss of `before` is in `after` what it was, or dead.
pub open spec fn bosses_spared_or_dead(before: Seq<Character>, after: Seq<Character>) -> bool {
    &&& before.len() == after.len()
    &&& forall|i: int|
        0 <= i < before.len() && (#[trigger] before[i]).role == Role::Boss ==> spared_or_dead(
            before[i],
            after[i],
        )
}

/// No two characters share an identity.
pub open spec fn unique_ids(characters: Seq<Character>) -> bool {
    forall|i: int, j: int|
        0 <= i < j < characters.len() ==> (#[trigger] characters[i]).id != (
        #[trigger] characters[j]).id
}

/// Among characters with identities of their own, each is found by its
/// identity.
pub proof fn lemma_found_by_id(characters: Seq<Character>, i: int)
    requires
        unique_ids(characters),
        0 <= i < characters.len(),
    ensures
        index_of(characters, characters[i].id) == Some(i),
{
    lemma_index_of(characters, characters[i].id);
}

/// The two lists hold the same characters in the same places: identity,
/// role and whether they have died are unchanged.
pub open spec fn same_cast(before: Seq<Character>, after: Seq<Character>) -> bool {
    &&& before.len() == after.len()
    &&& forall|i: int|
        0 <= i < before.len() ==> {
            &&& (#[trigger] after[i]).id == before[i].id
            &&& after[i].role == before[i].role
            &&& after[i].dead == before[i].dead
        }
}

/// Where a living character of the role stands at or after `from`,
/// `first_alive` finds one.
pub proof fn lemma_first_alive_exists(characters: Seq<Character>, role: Role, from: int, c: int)
    requires
        0 <= from <= c < characters.len(),
        characters[c].role == role,
        !characters[c].dead,
    ensures
        first_alive(characters, role, from) is Some,
    decreases characters.len() - from,
{
    if !(characters[from].role == role && !characters[from].dead) {
        lemma_first_alive_exists(characters, role, from + 1, c);
    }
}

/// The same cast has the same first living character of each role.
pub proof fn lemma_first_alive_same_cast(
    before: Seq<Character>,
    after: Seq<Character>,
    role: Role,
    from: int,
)
    requires
        same_cast(before, after),
        0 <= from,
    ensures
        first_alive(before, role, from) == first_alive(after, role, from),
    decreases before.len() - from,
{
    if from < before.len() {
        if !(before[from].role == role && !before[from].dead) {
            lemma_first_alive_same_cast(before, after, role, from + 1);
        }
    }
}

/// What the engine hands to one tick of the fight.
pub struct TickInput {
    /// The time that has passed since the tick before, in milliseconds.
    pub delta_ms: u32,
    pub player: PlayerInput,
    /// The player's hurtbox is within the proximity sensor of the boss.
    pub proximity: bool,
    /// The player's hurtbox has just entered the backstroke sensor of the
    /// boss.
    pub backstroke: bool,
    /// How the player moves along the x axis: negative to the left,
    /// positive to the right.
    pub player_velocity_x: i32,
    /// The attack hitboxes and hurtboxes whose shapes overlap.
    pub overlaps: Vec<Overlap>,
    /// The strips of frames that were played to their end since the tick
    /// before.
    pub finished: Vec<PhaseFinished>,
}

/// What one tick of the fight hands back to the engine.
pub struct TickReport {
    /// What the countdowns ask for, character by character.
    pub upkeep: Vec<Upkeep>,
    pub player: Option<PlayerIntent>,
    pub boss: Option<BossIntent>,
    /// The hitboxes that were left disarmed because of a fault.
    pub warnings: Vec<ArmingWarning>,
    pub hits: Vec<DamageHitEvent>,
    /// What became of each hit.
    pub outcomes: Vec<HitOutcome>,
    /// How each death was played out.
    pub passings: Vec<Passing>,
}

/// The fight after the countdowns have advanced and the ends of strips have
/// been taken in.
pub open spec fn signalled(start: Fight, input: TickInput) -> Fight {
    after_signals(
        Fight { characters: all_aged(start.characters, input.delta_ms), ..start },
        input.finished@,
        input.finished.len() as int,
    )
}

/// Whether the end of a strip finished an action of the boss in this tick.
pub open spec fn finished_early(start: Fight, input: TickInput) -> bool {
    signals_complete(
        Fight { characters: all_aged(start.characters, input.delta_ms), ..start },
        input.finished@,
        input.finished.len() as int,
    )
}

/// What the player's input leads to in this tick.
pub open spec fn player_intent_in(start: Fight, input: TickInput) -> Option<PlayerIntent> {
    command_intent(signalled(start, input), input.player)
}

/// What the boss perceives in this tick.
pub open spec fn senses_in(start: Fight, input: TickInput) -> BossSenses {
    senses_of(
        after_command(signalled(start, input), input.player),
        input.proximity,
        input.backstroke,
        input.player_velocity_x,
    )
}

/// What the boss decides in this tick.
pub open spec fn boss_intent_in(start: Fight, input: TickInput) -> Option<BossIntent> {
    thought_intent(
        after_command(signalled(start, input), input.player),
        senses_in(start, input),
        input.delta_ms,
        finished_early(start, input),
    )
}

/// The fight after the player and the boss have had their say.
pub open spec fn intended(start: Fight, input: TickInput) -> Fight {
    after_thought(
        after_command(signalled(start, input), input.player),
        senses_in(start, input),
        input.delta_ms,
        finished_early(start, input),
    )
}

/// The turn that the player's input led to.
pub open spec fn player_flip(intent: Option<PlayerIntent>) -> Option<FlipAttackSensorEvent> {
    match intent {
        Some(decided) => decided.flip,
        None => None,
    }
}

/// The turn that the boss decided on.
pub open spec fn boss_flip(intent: Option<BossIntent>) -> Option<FlipAttackSensorEvent> {
    match intent {
        Some(decided) => decided.flip,
        None => None,
    }
}

/// The fight after the sensors of those who turned round have been
/// mirrored.
pub open spec fn faced(start: Fight, input: TickInput) -> Fight {
    after_turn(
        after_turn(intended(start, input), player_flip(player_intent_in(start, input))),
        boss_flip(boss_intent_in(start, input)),
    )
}

/// The fight as it stands when the overlaps are read: intents taken,
/// sensors mirrored, hitboxes armed.
pub open spec fn prepared(start: Fight, input: TickInput) -> Fight {
    after_arming(faced(start, input))
}

/// The hits of this tick.
pub open spec fn hits_in(start: Fight, input: TickInput) -> Seq<DamageHitEvent> {
    hits_of(prepared(start, input), start.characters, input.overlaps@)
}

/// What became of each hit of this tick.
pub open spec fn outcomes_in(start: Fight, input: TickInput) -> Seq<HitOutcome> {
    wound_outcomes(prepared(start, input), hits_in(start, input))
}

/// The fight after the hits of this tick have been applied.
pub open spec fn wounded_in(start: Fight, input: TickInput) -> Fight {
    after_wounds(prepared(start, input), hits_in(start, input))
}

/// The deaths of this tick.
pub open spec fn notices_in(start: Fight, input: TickInput) -> Seq<LifecycleEvent> {
    notices_of(player_intent_in(start, input), hits_in(start, input), outcomes_in(start, input))
}

/// How each death of this tick is played out.
pub open spec fn passings_in(start: Fight, input: TickInput) -> Seq<Passing> {
    Seq::new(
        notices_in(start, input).len(),
        |k: int|
            passing_of(
                after_passings(wounded_in(start, input), notices_in(start, input), k),
                notices_in(start, input)[k],
            ),
    )
}

/// The fight after the deaths of this tick have been played out.
pub open spec fn buried_in(start: Fight, input: TickInput) -> Fight {
    after_passings(
        wounded_in(start, input),
        notices_in(start, input),
        notices_in(start, input).len() as int,
    )
}

/// The fight after one tick.
pub open spec fn ticked(start: Fight, input: TickInput) -> Fight {
    after_arming(after_flinch(buried_in(start, input), hp_of(start.characters)))
}

fn copy_characters(characters: &Vec<Character>) -> (copy: Vec<Character>)
    ensures
        copy@ == characters@,
{
    let mut copy: Vec<Character> = Vec::new();
    let mut i: usize = 0;
    while i < characters.len()
        invariant
            i <= characters.len(),
            copy.len() == i,
            forall|k: int| 0 <= k < i ==> copy[k] == characters[k],
        decreases characters.len() - i,
    {
        copy.push(characters[i]);
        i = i + 1;
    }
    copy
}

fn collect_notices(
    intent: Option<PlayerIntent>,
    hits: &Vec<DamageHitEvent>,
    outcomes: &Vec<HitOutcome>,
) -> (notices: Vec<LifecycleEvent>)
    requires
        outcomes.len() == hits.len(),
    ensures
        notices@ == notices_of(intent, hits@, outcomes@),
{
    let mut notices: Vec<LifecycleEvent> = Vec::new();
    match intent {
        Some(decided) => match decided.soul_shift {
            Some(event) => {
                notices.push(LifecycleEvent::SoulShift(event));
            },
            None => {},
        },
        None => {},
    }
    let ghost given_up = notices@;
    let mut k: usize = 0;
    while k < hits.len()
        invariant
            k <= hits.len(),
            outcomes.len() == hits.len(),
            notices@ == given_up + notices_among(hits@, outcomes@, k as int),
        decreases hits.len() - k,
    {
        let ghost earlier = notices_among(hits@, outcomes@, k as int);
        match outcomes[k] {
            HitOutcome::PlayerSlain => {
                notices.push(LifecycleEvent::SoulShift(SoulShiftEvent(hits[k].target)));
                assert(notices@ =~= given_up + earlier.push(
                    LifecycleEvent::SoulShift(SoulShiftEvent(hits[k as int].target)),
                ));
            },
            HitOutcome::BossSlain => {
                notices.push(LifecycleEvent::BossDeath(BossDeathEvent(hits[k].target)));
                assert(notices@ =~= given_up + earlier.push(
                    LifecycleEvent::BossDeath(BossDeathEvent(hits[k as int].target)),
                ));
            },
            _ => {},
        }
        k = k + 1;
    }
    assert(given_up =~= match intent {
        Some(PlayerIntent { soul_shift: Some(event), .. }) => seq![
            LifecycleEvent::SoulShift(event),
        ],
        _ => Seq::empty(),
    });
    notices
}

impl World {
    /// Plays out deaths, in order.
    pub fn bury_all(&mut self, notices: &Vec<LifecycleEvent>) -> (passings: Vec<Passing>)
        ensures
            final(self)@ == after_passings(old(self)@, notices@, notices.len() as int),
            passings.len() == notices.len(),
            forall|k: int|
                0 <= k < notices.len() ==> #[trigger] passings[k] == passing_of(
                    after_passings(old(self)@, notices@, k),
                    notices[k],
                ),
            old(self).wf() ==> final(self).wf(),
            final(self).characters.len() == old(self).characters.len(),
            forall|i: int|
                0 <= i < old(self).characters.len() ==> (#[trigger] final(self).characters[i]).id
                    == old(self).characters[i].id,
            final(self)@.queue == old(self)@.queue,
            final(self)@.behavior == old(self)@.behavior,
            old(self).wf() ==> bosses_spared_or_dead(
                old(self)@.characters,
                final(self)@.characters,
            ),
            old(self).wf() ==> the_dead_rest(old(self)@.characters, final(self)@.characters),
    {
        let mut passings: Vec<Passing> = Vec::new();
        let mut k: usize = 0;
        while k < notices.len()
            invariant
                k <= notices.len(),
                self@ == after_passings(old(self)@, notices@, k as int),
                passings.len() == k,
                forall|n: int|
                    0 <= n < k ==> #[trigger] passings[n] == passing_of(
                        after_passings(old(self)@, notices@, n),
                        notices[n],
                    ),
                old(self).wf() ==> self.wf(),
                self.characters.len() == old(self).characters.len(),
                forall|i: int|
                    0 <= i < old(self).characters.len() ==> (#[trigger] self.characters[i]).id
                        == old(self).characters[i].id,
                self@.queue == old(self)@.queue,
                self@.behavior == old(self)@.behavior,
                old(self).wf() ==> bosses_spared_or_dead(old(self)@.characters, self@.characters),
                old(self).wf() ==> the_dead_rest(old(self)@.characters, self@.characters),
            decreases notices.len() - k,
        {
            let passing = self.bury(notices[k]);
            passings.push(passing);
            k = k + 1;
        }
        passings
    }

    /// Runs the stages of a tick that come before the overlaps are read:
    /// countdowns, ends of strips, the player's input, the boss's thought,
    /// the mirroring of sensors and the arming of hitboxes.
    pub fn prepare(&mut self, input: &TickInput) -> (out: (
        Vec<Upkeep>,
        Option<PlayerIntent>,
        Option<BossIntent>,
        Vec<ArmingWarning>,
    ))
        ensures
            final(self)@ == prepared(old(self)@, *input),
            out.0@ == all_upkeep(old(self)@.characters, input.delta_ms),
            out.1 == player_intent_in(old(self)@, *input),
            out.2 == boss_intent_in(old(self)@, *input),
            out.3@ == arming_warnings(faced(old(self)@, *input)),
            old(self).wf() ==> final(self).wf(),
            same_cast(old(self)@.characters, final(self)@.characters),
            arming_is_correct(final(self)@),
            old(self).chases_when_idle() ==> final(self).chases_when_idle(),
            executed_now(out.2) ==> heads_the_phase(final(self)@),
            the_dead_rest(old(self)@.characters, final(self)@.characters),
    {
        let upkeep = self.upkeep(input.delta_ms);
        let ghost aged = self@;
        let finished = self.animations_finished(&input.finished);
        let ghost heard = self@;
        let player = self.command(&input.player);
        proof {
            lemma_first_alive_same_cast(aged.characters, heard.characters, Role::Boss, 0);
            lemma_first_alive_same_cast(heard.characters, self@.characters, Role::Boss, 0);
        }
        let boss = self.think(
            input.proximity,
            input.backstroke,
            input.player_velocity_x,
            input.delta_ms,
            finished,
        );
        self.turn(
            match player {
                Some(decided) => decided.flip,
                None => None,
            },
        );
        self.turn(
            match boss {
                Some(decided) => decided.flip,
                None => None,
            },
        );
        let warnings = self.arm();
        (upkeep, player, boss, warnings)
    }

    /// Runs the stages of a tick that come after the hits have been
    /// applied: deaths are played out, characters whose hit points differ
    /// from those in `hps` flinch, and the hitboxes are armed once more.
    pub fn conclude(&mut self, notices: &Vec<LifecycleEvent>, hps: &Vec<Hp>) -> (passings: Vec<
        Passing,
    >)
        ensures
            final(self)@ == after_arming(
                after_flinch(
                    after_passings(old(self)@, notices@, notices.len() as int),
                    hps@,
                ),
            ),
            passings@ == Seq::new(
                notices.len() as nat,
                |k: int| passing_of(after_passings(old(self)@, notices@, k), notices[k]),
            ),
            old(self).wf() ==> final(self).wf(),
            final(self).characters.len() == old(self).characters.len(),
            forall|i: int|
                0 <= i < old(self).characters.len() ==> (#[trigger] final(self).characters[i]).id
                    == old(self).characters[i].id,
            arming_is_correct(final(self)@),
            final(self)@.queue == old(self)@.queue,
            final(self)@.behavior == old(self)@.behavior,
            old(self).wf() ==> the_dead_rest(old(self)@.characters, final(self)@.characters),
            old(self).wf() && hps.len() == old(self).characters.len() ==> forall|i: int|
                0 <= i < old(self).characters.len() && (#[trigger] old(self).characters[i]).role
                    == Role::Boss ==> {
                    ||| final(self).characters[i].dead
                    ||| final(self).characters[i].hp != hps[i]
                    ||| final(self).characters[i].state == old(self).characters[i].state
                },
    {
        let passings = self.bury_all(notices);
        assert(passings@ =~= Seq::new(
            notices.len() as nat,
            |k: int| passing_of(after_passings(old(self)@, notices@, k), notices[k]),
        ));
        self.flinch(hps);
        self.arm();
        passings
    }

    /// Advances the fight by one tick.
    ///
    /// The stages run in the order given at the top of this module, and the
    /// fight after the tick is exactly `ticked`. Beyond that:
    /// - no hit comes from a hitbox of the character it lands on, and in a
    ///   fight that keeps its invariants this holds of the very hitbox whose
    ///   damage is applied;
    /// - no character is struck twice;
    /// - every hit lands on a character that, when the tick began, was
    ///   neither invulnerable, nor dead, nor in the middle of a soul shift;
    /// - a character that could be struck when the tick began, and through
    ///   whose hurtbox some hitbox strikes, is struck;
    /// - records that kept their invariants keep them, so hit points stay
    ///   within zero and the maximum;
    /// - nobody joins or leaves the fight, and nobody changes identity;
    /// - the tick ends with every hitbox armed if and only if the phase of
    ///   its owner is in its attack-active set;
    /// - a boss that chased whenever its queue was empty still does so;
    /// - whenever the boss carried out the head of its queue in the tick, it
    ///   ends the tick in the phase that the head begins with, unless it
    ///   died or its hit points changed in the tick;
    /// - whoever was dead when the tick began is left exactly as it was.
    pub fn tick(&mut self, input: &TickInput) -> (report: TickReport)
        ensures
            final(self)@ == ticked(old(self)@, *input),
            report.upkeep@ == all_upkeep(old(self)@.characters, input.delta_ms),
            report.player == player_intent_in(old(self)@, *input),
            report.boss == boss_intent_in(old(self)@, *input),
            report.warnings@ == arming_warnings(faced(old(self)@, *input)),
            report.hits@ == hits_in(old(self)@, *input),
            report.outcomes@ == outcomes_in(old(self)@, *input),
            report.passings@ == passings_in(old(self)@, *input),
            forall|k: int|
                0 <= k < report.hits.len() ==> harms_another(
                    prepared(old(self)@, *input).sensors,
                    prepared(old(self)@, *input).hitboxes,
                    #[trigger] report.hits[k],
                ),
            old(self).wf() ==> forall|k: int|
                0 <= k < report.hits.len() ==> struck_by_another(
                    prepared(old(self)@, *input).sensors,
                    prepared(old(self)@, *input).hitboxes,
                    #[trigger] report.hits[k],
                ),
            forall|k: int, l: int|
                0 <= k < l < report.hits.len() ==> (#[trigger] report.hits[k]).target != (
                #[trigger] report.hits[l]).target,
            forall|k: int|
                0 <= k < report.hits.len() ==> lands_on_open_target(
                    old(self)@.characters,
                    #[trigger] report.hits[k],
                ),
            forall|j: int, i: int|
                0 <= j < prepared(old(self)@, *input).hurtboxes.len() && 0 <= i < prepared(
                    old(self)@,
                    *input,
                ).hitboxes.len() && target_open(
                    old(self)@.characters,
                    #[trigger] prepared(old(self)@, *input).hurtboxes[j],
                ) && strikes(
                    prepared(old(self)@, *input).sensors,
                    input.overlaps@,
                    #[trigger] prepared(old(self)@, *input).hitboxes[i],
                    prepared(old(self)@, *input).hurtboxes[j],
                ) ==> struck(report.hits@, prepared(old(self)@, *input).hurtboxes[j].owner),
            old(self).wf() ==> final(self).wf(),
            final(self).characters.len() == old(self).characters.len(),
            forall|i: int|
                0 <= i < old(self).characters.len() ==> (#[trigger] final(self).characters[i]).id
                    == old(self).characters[i].id,
            arming_is_correct(final(self)@),
            old(self).chases_when_idle() ==> final(self).chases_when_idle(),
            old(self).wf() ==> the_dead_rest(old(self)@.characters, final(self)@.characters),
            old(self).wf() && executed_now(report.boss) ==> match boss_of(old(self)@.characters) {
                Some(b) => {
                    ||| final(self).characters[b].dead
                    ||| final(self).characters[b].hp != old(self).characters[b].hp
                    ||| phase_matches_head(final(self).characters[b], final(self)@.queue)
                },
                None => true,
            },
    {
        let start = copy_characters(&self.characters);
        let hps = hit_points(&self.characters);
        let (upkeep, player, boss, warnings) = self.prepare(input);
        proof {
            lemma_first_alive_same_cast(old(self)@.characters, self@.characters, Role::Boss, 0);
            lemma_first_alive(old(self)@.characters, Role::Boss, 0);
        }
        let hits = self.resolve(&start, &input.overlaps);
        let outcomes = self.wound(&hits);
        let notices = collect_notices(player, &hits, &outcomes);
        let passings = self.conclude(&notices, &hps);
        TickReport { upkeep, player, boss, warnings, hits, outcomes, passings }
    }
}

/// What the test key did.
pub struct BamReport {
    /// The hit that the key dealt, if it dealt one.
    pub hits: Vec<DamageHitEvent>,
    /// What became of the hit.
    pub outcomes: Vec<HitOutcome>,
    /// How the death that it called for was played out.
    pub passings: Vec<Passing>,
}

/// The hit that the test key deals in the fight: the first hitbox of a boss
/// strikes the body that the player controls, unless it is invulnerable.
pub open spec fn bam_hits(fight: Fight, pressed: bool) -> Seq<DamageHitEvent> {
    match player_of(fight.characters) {
        Some(p) => match bam(
            pressed,
            fight.sensors,
            fight.hitboxes,
            fight.characters,
            fight.characters[p],
        ) {
            Some(hit) => seq![hit],
            None => Seq::empty(),
        },
        None => Seq::empty(),
    }
}

/// The deaths that the hit of the test key calls for.
pub open spec fn bam_notices(fight: Fight, pressed: bool) -> Seq<LifecycleEvent> {
    notices_of(
        None,
        bam_hits(fight, pressed),
        wound_outcomes(fight, bam_hits(fight, pressed)),
    )
}

/// The fight after the test key: its hit is applied, the death that it
/// calls for is played out, whoever lost hit points flinches, and the
/// hitboxes are armed anew.
pub open spec fn after_bam(fight: Fight, pressed: bool) -> Fight {
    after_arming(
        after_flinch(
            after_passings(
                after_wounds(fight, bam_hits(fight, pressed)),
                bam_notices(fight, pressed),
                bam_notices(fight, pressed).len() as int,
            ),
            hp_of(fight.characters),
        ),
    )
}

impl World {
    /// Handles the test key: the boss lands a blow on the player from
    /// wherever it stands.
    ///
    /// The hit is that of `bam_the_player` on the body that the player
    /// controls. It is applied and followed up like a hit of a tick.
    pub fn bam_the_player(&mut self, pressed: bool) -> (report: BamReport)
        ensures
            final(self)@ == after_bam(old(self)@, pressed),
            report.hits@ == bam_hits(old(self)@, pressed),
            report.outcomes@ == wound_outcomes(old(self)@, report.hits@),
            report.passings@ == Seq::new(
                bam_notices(old(self)@, pressed).len(),
                |k: int|
                    passing_of(
                        after_passings(
                            after_wounds(old(self)@, bam_hits(old(self)@, pressed)),
                            bam_notices(old(self)@, pressed),
                            k,
                        ),
                        bam_notices(old(self)@, pressed)[k],
                    ),
            ),
            old(self).wf() ==> final(self).wf(),
            final(self).characters.len() == old(self).characters.len(),
            arming_is_correct(final(self)@),
    {
        let hps = hit_points(&self.characters);
        let mut hits: Vec<DamageHitEvent> = Vec::new();
        match find_alive(&self.characters, Role::Player) {
            Some(p) => {
                match bam_the_player(
                    pressed,
                    &self.sensors,
                    &self.hitboxes,
                    &self.characters,
                    &self.characters[p],
                ) {
                    Some(hit) => {
                        hits.push(hit);
                        assert(hits@ =~= seq![hit]);
                    },
                    None => {},
                }
            },
            None => {},
        }
        let outcomes = self.wound(&hits);
        let notices = collect_notices(None, &hits, &outcomes);
        let passings = self.conclude(&notices, &hps);
        BamReport { hits, outcomes, passings }
    }
}

} // verus!
