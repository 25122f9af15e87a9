//! The boss: its queue of actions and the rules by which it fills, carries
//! out and finishes them.
//!
//! The head of the queue is the action that the boss is carrying out. With
//! an empty queue the boss chases the player and strikes when the player is
//! close and the cooldown is over.

use crate::animations::{BossLastFrameEvent, CharacterState};
use crate::character::{AttackCooldown, Character, DashTimer, Role, Steering};
use crate::constants::{BOSS_CLOSE_RANGE, BOSS_SMASH_COOLDOWN, DASH_DURATION};
use crate::hitbox::FlipAttackSensorEvent;
use crate::timing::{tick_and_expire, tick_expiring, Countdown};
use vstd::prelude::*;

verus! {

/// The mood of the boss, which decides how it moves.
#[derive(Clone, Copy, Debug, PartialEq, Eq, Structural)]
pub enum BossBehavior {
    /// Close in on the player and strike when near.
    Chase,
    /// The player ran off: dash after it and strike.
    DashInAttack,
    /// Kept for a later answer to parries.
    CounterPary,
    /// Kept for a later answer to crowding.
    NeedSomeSpace,
}

impl Default for BossBehavior {
    fn default() -> (behavior: BossBehavior)
        ensures
            behavior == BossBehavior::Chase,
    {
        BossBehavior::Chase
    }
}

/// One thing the boss can do.
#[derive(Clone, Copy, Debug, PartialEq, Eq, Structural)]
pub enum BossAction {
    /// Stand by for so many milliseconds.
    Wait(i32),
    Smash,
    FeintSmash,
    FallenAngel,
    LaserRain,
    Dash,
    Tp(i32),
}

/// The queue of actions of the boss. `None` and an empty list both mean that
/// nothing is queued.
#[derive(Clone, Debug, PartialEq, Eq)]
pub struct BossActions(pub Option<Vec<BossAction>>);

/// The action at the head of the queue is over.
#[derive(Clone, Copy, Debug, PartialEq, Eq, Structural)]
pub struct ActionCompletedEvent;

impl BossActions {
    /// The queued actions, head first.
    pub open spec fn queue(&self) -> Seq<BossAction> {
        match self.0 {
            Some(actions) => actions@,
            None => Seq::empty(),
        }
    }

    /// The action that is being carried out.
    pub open spec fn head(&self) -> Option<BossAction> {
        head_of(self.queue())
    }

    /// Nothing is queued.
    pub fn is_idle(&self) -> (idle: bool)
        ensures
            idle == (self.queue().len() == 0),
    {
        match &self.0 {
            Some(actions) => actions.len() == 0,
            None => true,
        }
    }

    /// Reads the action that is being carried out.
    pub fn first(&self) -> (action: Option<BossAction>)
        ensures
            action == self.head(),
    {
        match &self.0 {
            Some(actions) => if actions.len() > 0 {
                Some(actions[0])
            } else {
                None
            },
            None => None,
        }
    }
}

/// The action at the head of a queue.
pub open spec fn head_of(queue: Seq<BossAction>) -> Option<BossAction> {
    if queue.len() > 0 {
        Some(queue[0])
    } else {
        None
    }
}

/// The phase that the boss enters when it starts an action. `Wait` changes
/// no phase, and the remaining actions are not carried out at all.
pub open spec fn phase_for(action: BossAction) -> Option<CharacterState> {
    match action {
        BossAction::Smash => Some(CharacterState::TransitionToCharge),
        BossAction::Dash => Some(CharacterState::TransitionToDash),
        BossAction::FeintSmash => Some(CharacterState::Feint),
        _ => None,
    }
}

/// The phase whose last frame ends an action.
pub open spec fn closing_phase(action: BossAction) -> Option<CharacterState> {
    match action {
        BossAction::Smash => Some(CharacterState::Attack),
        BossAction::FallenAngel => Some(CharacterState::SecondAttack),
        BossAction::Dash => Some(CharacterState::Dash),
        BossAction::FeintSmash => Some(CharacterState::Feint),
        _ => None,
    }
}

/// The boss is in the fight: the record is that of a boss that has not died.
pub open spec fn boss_alive(boss: Character) -> bool {
    boss.role == Role::Boss && !boss.dead
}

/// Whether the proximity sensor makes the boss strike: the player is within
/// the sensor, the boss is alive, chasing and off cooldown, and nothing is
/// queued.
pub open spec fn proximity_triggers(
    in_range: bool,
    boss: Character,
    behavior: BossBehavior,
    queue: Seq<BossAction>,
) -> bool {
    &&& in_range
    &&& boss_alive(boss)
    &&& boss.cooldown is None
    &&& behavior == BossBehavior::Chase
    &&& queue.len() == 0
}

/// The boss with its attack cooldown started afresh.
pub open spec fn cooling(boss: Character) -> Character {
    Character {
        cooldown: Some(
            AttackCooldown(Countdown { elapsed_ms: 0, duration_ms: BOSS_SMASH_COOLDOWN }),
        ),
        ..boss
    }
}

/// The boss strikes a player that has come close.
///
/// When the sensor triggers, the queue becomes one `Smash` and the attack
/// cooldown starts at that moment, whether the swing will connect or not.
/// Otherwise queue and boss are left as they are.
pub fn boss_proximity_attack(
    in_range: bool,
    boss: &mut Character,
    behavior: BossBehavior,
    actions: &mut BossActions,
) -> (queued: bool)
    ensures
        queued == proximity_triggers(in_range, *old(boss), behavior, old(actions).queue()),
        queued ==> final(actions).queue() == seq![BossAction::Smash],
        queued ==> *final(boss) == cooling(*old(boss)),
        !queued ==> *final(actions) == *old(actions) && *final(boss) == *old(boss),
        old(boss).wf() ==> final(boss).wf(),
{
    if in_range && boss.role == Role::Boss && !boss.dead && boss.cooldown.is_none() && behavior
        == BossBehavior::Chase && actions.is_idle() {
        let mut queue: Vec<BossAction> = Vec::new();
        queue.push(BossAction::Smash);
        actions.0 = Some(queue);
        boss.cooldown = Some(AttackCooldown(Countdown::from_millis(BOSS_SMASH_COOLDOWN)));
        true
    } else {
        false
    }
}

/// The player is moving away from the boss: it is to the right of the boss
/// and moving right, or to the left and moving left.
pub open spec fn running_away(boss_x: i32, player_x: i32, player_velocity_x: i32) -> bool {
    (boss_x < player_x && player_velocity_x > 0) || (boss_x > player_x && player_velocity_x < 0)
}

/// Whether the backstroke sensor makes the boss dash after the player: the
/// player has just entered the sensor while running away, the boss is alive,
/// and nothing is queued.
pub open spec fn backstroke_triggers(
    entered: bool,
    boss: Character,
    player_x: i32,
    player_velocity_x: i32,
    queue: Seq<BossAction>,
) -> bool {
    &&& entered
    &&& boss_alive(boss)
    &&& running_away(boss.position.x, player_x, player_velocity_x)
    &&& queue.len() == 0
}

/// The boss dashes after a player that runs off.
///
/// When the sensor triggers, the boss turns to `DashInAttack` and the queue
/// becomes `Dash`, `Smash`; otherwise mood and queue are left as they are.
pub fn backstroke_sensor(
    entered: bool,
    boss: &Character,
    player_x: i32,
    player_velocity_x: i32,
    actions: &mut BossActions,
    behavior: &mut BossBehavior,
) -> (queued: bool)
    ensures
        queued == backstroke_triggers(
            entered,
            *boss,
            player_x,
            player_velocity_x,
            old(actions).queue(),
        ),
        queued ==> final(actions).queue() == seq![BossAction::Dash, BossAction::Smash]
            && *final(behavior) == BossBehavior::DashInAttack,
        !queued ==> *final(actions) == *old(actions) && *final(behavior) == *old(behavior),
{
    let away = (boss.position.x < player_x && player_velocity_x > 0) || (boss.position.x
        > player_x && player_velocity_x < 0);
    if entered && boss.role == Role::Boss && !boss.dead && away && actions.is_idle() {
        let mut queue: Vec<BossAction> = Vec::new();
        queue.push(BossAction::Dash);
        queue.push(BossAction::Smash);
        actions.0 = Some(queue);
        *behavior = BossBehavior::DashInAttack;
        true
    } else {
        false
    }
}

/// Takes the finished action off the queue.
///
/// The head is dropped and the rest moves up; a queue that is used up
/// becomes `None`. With nothing queued there is nothing to finish: the queue
/// stays as it is and the result is `false`.
pub fn boss_actions_completed(actions: &mut BossActions) -> (popped: bool)
    ensures
        popped == (old(actions).queue().len() > 0),
        popped ==> final(actions).queue() == old(actions).queue().drop_first(),
        old(actions).queue().len() == 1 ==> final(actions).0 is None,
        !popped ==> *final(actions) == *old(actions),
{
    let (next, popped) = match &actions.0 {
        None => (None, false),
        Some(queue) => {
            if queue.len() == 0 {
                (Some(Vec::new()), false)
            } else if queue.len() == 1 {
                (None, true)
            } else {
                let mut rest: Vec<BossAction> = Vec::new();
                let mut i: usize = 1;
                while i < queue.len()
                    invariant
                        1 <= i <= queue.len(),
                        rest.len() == i - 1,
                        forall|k: int| 0 <= k < rest.len() ==> rest[k] == queue[k + 1],
                    decreases queue.len() - i,
                {
                    rest.push(queue[i]);
                    i = i + 1;
                }
                (Some(rest), true)
            }
        },
    };
    if popped {
        actions.0 = next;
    }
    popped
}

/// What the boss did with the head of its queue.
#[derive(Clone, Copy, Debug, PartialEq, Eq, Structural)]
pub enum Execution {
    /// The record is not that of a living boss: nothing was done.
    Skipped,
    /// Nothing is queued: the boss is back to chasing.
    Reverted,
    /// The action was started.
    Started(BossAction),
    /// The action is not one that the boss can carry out: nothing was done.
    Unsupported(BossAction),
}

/// What the boss does with the head of its queue.
pub open spec fn execution_of(boss: Character, queue: Seq<BossAction>) -> Execution {
    if !boss_alive(boss) {
        Execution::Skipped
    } else {
        match head_of(queue) {
            None => Execution::Reverted,
            Some(action) => match action {
                BossAction::Smash | BossAction::Dash | BossAction::FeintSmash | BossAction::Wait(
                    _,
                ) => Execution::Started(action),
                _ => Execution::Unsupported(action),
            },
        }
    }
}

/// The boss after it has started the head of its queue.
///
/// `Smash` winds up and starts the cooldown at once, unless one is running
/// (as it is when the proximity sensor queued the smash);
/// `Dash` gets ready to dash; `FeintSmash` feints. Nothing else touches the
/// record.
pub open spec fn boss_starting(boss: Character, queue: Seq<BossAction>) -> Character {
    match execution_of(boss, queue) {
        Execution::Started(BossAction::Smash) => Character {
            state: CharacterState::TransitionToCharge,
            cooldown: if boss.cooldown is None {
                Some(AttackCooldown(Countdown { elapsed_ms: 0, duration_ms: BOSS_SMASH_COOLDOWN }))
            } else {
                boss.cooldown
            },
            ..boss
        },
        Execution::Started(BossAction::Dash) => Character {
            state: CharacterState::TransitionToDash,
            ..boss
        },
        Execution::Started(BossAction::FeintSmash) => Character {
            state: CharacterState::Feint,
            ..boss
        },
        _ => boss,
    }
}

/// The mood of the boss after it has looked at its queue: with nothing
/// queued a living boss goes back to chasing.
pub open spec fn behavior_after(
    boss: Character,
    queue: Seq<BossAction>,
    behavior: BossBehavior,
) -> BossBehavior {
    if execution_of(boss, queue) == Execution::Reverted {
        BossBehavior::Chase
    } else {
        behavior
    }
}

/// The time that a `Wait` at the head of the queue asks for. A negative
/// wait is no wait.
pub open spec fn wait_for(boss: Character, queue: Seq<BossAction>, wait: Option<Countdown>) -> Option<
    Countdown,
> {
    match execution_of(boss, queue) {
        Execution::Started(BossAction::Wait(ms)) => Some(
            Countdown { elapsed_ms: 0, duration_ms: if ms < 0 {
                0u32
            } else {
                ms as u32
            } },
        ),
        Execution::Skipped => wait,
        _ => None,
    }
}

/// The phase of the boss answers to the head of its queue: where the head
/// is an action that begins with a phase of its own, the boss is in it.
pub open spec fn phase_matches_head(boss: Character, queue: Seq<BossAction>) -> bool {
    match head_of(queue) {
        Some(action) => match phase_for(action) {
            Some(phase) => boss.state == phase,
            None => true,
        },
        None => true,
    }
}

/// Carries out the head of the queue. It is called whenever the queue has
/// changed.
///
/// With nothing queued the boss goes back to chasing. Otherwise the head is
/// started: the boss enters the phase that belongs to the action, a `Smash`
/// starts the cooldown, a `Dash` stops the boss where it stands (the result
/// tells so), and a `Wait` starts its countdown. A record that is not that
/// of a living boss is not touched.
///
/// After the call, for a living boss, the queue and the boss agree: an empty
/// queue goes with chasing, and a head that begins with a phase of its own
/// goes with that phase.
pub fn boss_actions(
    actions: &BossActions,
    boss: &mut Character,
    behavior: &mut BossBehavior,
    wait: &mut Option<Countdown>,
) -> (done: Execution)
    ensures
        done == execution_of(*old(boss), actions.queue()),
        *final(boss) == boss_starting(*old(boss), actions.queue()),
        *final(behavior) == behavior_after(*old(boss), actions.queue(), *old(behavior)),
        *final(wait) == wait_for(*old(boss), actions.queue(), *old(wait)),
        boss_alive(*old(boss)) ==> boss_alive(*final(boss)),
        boss_alive(*old(boss)) ==> phase_matches_head(*final(boss), actions.queue()),
        boss_alive(*old(boss)) && actions.queue().len() == 0 ==> *final(behavior)
            == BossBehavior::Chase,
        old(boss).wf() ==> final(boss).wf(),
{
    if !(boss.role == Role::Boss && !boss.dead) {
        return Execution::Skipped;
    }
    match actions.first() {
        None => {
            *behavior = BossBehavior::Chase;
            *wait = None;
            Execution::Reverted
        },
        Some(action) => {
            *wait = None;
            match action {
                BossAction::Smash => {
                    boss.state = CharacterState::TransitionToCharge;
                    if boss.cooldown.is_none() {
                        boss.cooldown = Some(
                            AttackCooldown(Countdown::from_millis(BOSS_SMASH_COOLDOWN)),
                        );
                    }
                    Execution::Started(action)
                },
                BossAction::Dash => {
                    boss.state = CharacterState::TransitionToDash;
                    Execution::Started(action)
                },
                BossAction::FeintSmash => {
                    boss.state = CharacterState::Feint;
                    Execution::Started(action)
                },
                BossAction::Wait(ms) => {
                    let duration: u32 = if ms < 0 {
                        0
                    } else {
                        ms as u32
                    };
                    *wait = Some(Countdown::from_millis(duration));
                    Execution::Started(action)
                },
                _ => Execution::Unsupported(action),
            }
        },
    }
}

/// What the last frame of a phase means for the queue.
#[derive(Clone, Copy, Debug, PartialEq, Eq, Structural)]
pub struct LastFrame {
    /// The head of the queue is over.
    pub completed: Option<ActionCompletedEvent>,
    /// The boss has got ready to dash: the dash itself begins.
    pub dash: Option<DashTimer>,
}

/// What the last frame of the phase `finished` means for the queue.
///
/// The head is over when the phase that ends it has been played: `Attack`
/// for a smash, `SecondAttack` for the fallen-angel strike, `Dash` for a
/// dash, `Feint` for a feint. A dash at the head begins in earnest when the
/// boss has got ready for it.
pub open spec fn last_frame_of(finished: CharacterState, queue: Seq<BossAction>) -> LastFrame {
    match head_of(queue) {
        None => LastFrame { completed: None, dash: None },
        Some(action) => LastFrame {
            completed: if closing_phase(action) == Some(finished) {
                Some(ActionCompletedEvent)
            } else {
                None
            },
            dash: if action == BossAction::Dash && finished == CharacterState::TransitionToDash {
                Some(DashTimer(Countdown { elapsed_ms: 0, duration_ms: DASH_DURATION }))
            } else {
                None
            },
        },
    }
}

/// Reads the last frame of a phase of the boss against the queue.
pub fn boss_last_frame(event: BossLastFrameEvent, actions: &BossActions) -> (outcome: LastFrame)
    ensures
        outcome == last_frame_of(event.0, actions.queue()),
{
    let finished = event.0;
    match actions.first() {
        None => LastFrame { completed: None, dash: None },
        Some(action) => {
            let closes = match action {
                BossAction::Smash => finished == CharacterState::Attack,
                BossAction::FallenAngel => finished == CharacterState::SecondAttack,
                BossAction::Dash => finished == CharacterState::Dash,
                BossAction::FeintSmash => finished == CharacterState::Feint,
                _ => false,
            };
            let starts_dash = match action {
                BossAction::Dash => finished == CharacterState::TransitionToDash,
                _ => false,
            };
            LastFrame {
                completed: if closes {
                    Some(ActionCompletedEvent)
                } else {
                    None
                },
                dash: if starts_dash {
                    Some(DashTimer(Countdown::from_millis(DASH_DURATION)))
                } else {
                    None
                },
            }
        },
    }
}

/// Advances the countdown of a `Wait`. When it runs out the countdown is
/// dropped and the wait is over.
pub fn boss_wait_timer(wait: &mut Option<Countdown>, delta_ms: u32) -> (completed: Option<
    ActionCompletedEvent,
>)
    ensures
        *final(wait) == tick_expiring(*old(wait), delta_ms),
        completed is Some <==> (*old(wait)) is Some && (*final(wait)) is None,
{
    let before = wait.is_some();
    *wait = tick_and_expire(*wait, delta_ms);
    if before && wait.is_none() {
        Some(ActionCompletedEvent)
    } else {
        None
    }
}

/// The boss after it has looked for the player: unless it is dead or rooted
/// by an attack, it faces the player.
pub open spec fn staring(boss: Character, player_x: i32) -> Character {
    if boss.dead || boss.state.roots_boss() {
        boss
    } else {
        Character { facing_left: boss.position.x > player_x, ..boss }
    }
}

/// Turns the boss towards the player.
///
/// A living boss that is not in the middle of an attack faces left exactly
/// when the player is to its left. When that changes its facing, its attack
/// sensors have to be mirrored, and the result says so.
pub fn stare_player(boss: &mut Character, player_x: i32) -> (flip: Option<FlipAttackSensorEvent>)
    ensures
        *final(boss) == staring(*old(boss), player_x),
        flip == (if final(boss).facing_left != old(boss).facing_left {
            Some(FlipAttackSensorEvent(old(boss).id))
        } else {
            None
        }),
{
    if boss.dead || boss.state.rooting_boss() {
        return None;
    }
    let left = boss.position.x > player_x;
    let turned = boss.facing_left != left;
    boss.facing_left = left;
    if turned {
        Some(FlipAttackSensorEvent(boss.id))
    } else {
        None
    }
}

/// The player is within the band around the boss in which the boss stands
/// still.
pub open spec fn in_close_range(boss_x: i32, player_x: i32) -> bool {
    player_x - BOSS_CLOSE_RANGE < boss_x && player_x + BOSS_CLOSE_RANGE > boss_x
}

/// What the chase asks of the legs of the boss.
pub open spec fn steering_of(boss: Character, behavior: BossBehavior, player_x: i32) -> Steering {
    if behavior != BossBehavior::Chase || boss.dead {
        Steering::Keep
    } else if boss.state.roots_boss() || in_close_range(boss.position.x, player_x) {
        Steering::Halt
    } else if player_x < boss.position.x {
        Steering::Advance(-1i8)
    } else {
        Steering::Advance(1i8)
    }
}

/// The boss after one step of the chase.
///
/// Only a living, chasing boss is touched. In the middle of an attack it is
/// frozen. Otherwise it is free, and it runs while the player is to its left
/// or right and idles when it stood on the spot after a run.
pub open spec fn chasing(boss: Character, behavior: BossBehavior, player_x: i32) -> Character {
    if behavior != BossBehavior::Chase || boss.dead {
        boss
    } else if boss.state.roots_boss() {
        Character { frozen: true, ..boss }
    } else if player_x != boss.position.x {
        Character { frozen: false, state: CharacterState::Run, ..boss }
    } else if boss.state == CharacterState::Run {
        Character { frozen: false, state: CharacterState::Idle, ..boss }
    } else {
        Character { frozen: false, ..boss }
    }
}

/// One step of the chase.
pub fn chase_player(boss: &mut Character, behavior: BossBehavior, player_x: i32) -> (steering:
    Steering)
    ensures
        *final(boss) == chasing(*old(boss), behavior, player_x),
        steering == steering_of(*old(boss), behavior, player_x),
        old(boss).wf() ==> final(boss).wf(),
{
    if behavior != BossBehavior::Chase || boss.dead {
        return Steering::Keep;
    }
    if boss.state.rooting_boss() {
        boss.frozen = true;
        return Steering::Halt;
    }
    boss.frozen = false;
    let left = player_x < boss.position.x;
    let right = player_x > boss.position.x;
    let near = (player_x as i64) - (BOSS_CLOSE_RANGE as i64) < boss.position.x as i64 && (
    player_x as i64) + (BOSS_CLOSE_RANGE as i64) > boss.position.x as i64;
    if left || right {
        boss.state = CharacterState::Run;
    } else if boss.state == CharacterState::Run {
        boss.state = CharacterState::Idle;
    }
    if near {
        Steering::Halt
    } else if left {
        Steering::Advance(-1)
    } else {
        Steering::Advance(1)
    }
}

/// What the boss perceives in one tick.
#[derive(Clone, Copy, Debug, PartialEq, Eq, Structural)]
pub struct BossSenses {
    /// The player is within the proximity sensor.
    pub proximity: bool,
    /// The player has just entered the backstroke sensor.
    pub backstroke: bool,
    /// Where the player is, if there is one.
    pub player_x: Option<i32>,
    /// How the player moves along the x axis: negative to the left, positive
    /// to the right.
    pub player_velocity_x: i32,
}

/// The boss together with what drives it.
pub struct BossMind {
    pub boss: Character,
    pub queue: Seq<BossAction>,
    pub behavior: BossBehavior,
    pub wait: Option<Countdown>,
}

/// What the boss decided in one tick.
#[derive(Clone, Copy, Debug, PartialEq, Eq, Structural)]
pub struct BossIntent {
    pub steering: Steering,
    /// The boss has turned round: its attack sensors are to be mirrored.
    pub flip: Option<FlipAttackSensorEvent>,
    /// What the boss did with the head of its queue, if the queue changed.
    pub execution: Option<Execution>,
}

/// The boss after the countdown of a `Wait` has advanced: when it runs out,
/// the wait is over and leaves the queue.
pub open spec fn waited(mind: BossMind, delta_ms: u32) -> BossMind {
    let wait = tick_expiring(mind.wait, delta_ms);
    BossMind {
        wait,
        queue: if mind.wait is Some && wait is None && mind.queue.len() > 0 {
            mind.queue.drop_first()
        } else {
            mind.queue
        },
        ..mind
    }
}

/// The boss after its sensors have had their say: the proximity sensor
/// first, which queues a smash and starts the cooldown, then the backstroke
/// sensor.
pub open spec fn sensed(mind: BossMind, senses: BossSenses) -> BossMind {
    let near = proximity_triggers(senses.proximity, mind.boss, mind.behavior, mind.queue);
    let queue = if near {
        seq![BossAction::Smash]
    } else {
        mind.queue
    };
    let boss = if near {
        cooling(mind.boss)
    } else {
        mind.boss
    };
    let flees = senses.player_x is Some && backstroke_triggers(
        senses.backstroke,
        boss,
        senses.player_x.unwrap(),
        senses.player_velocity_x,
        queue,
    );
    BossMind {
        boss,
        queue: if flees {
            seq![BossAction::Dash, BossAction::Smash]
        } else {
            queue
        },
        behavior: if flees {
            BossBehavior::DashInAttack
        } else {
            mind.behavior
        },
        wait: mind.wait,
    }
}

/// The boss after it has turned to the player and taken a step of the
/// chase, where there is a player.
pub open spec fn pursued(mind: BossMind, senses: BossSenses) -> BossMind {
    match senses.player_x {
        Some(x) => BossMind { boss: chasing(staring(mind.boss, x), mind.behavior, x), ..mind },
        None => mind,
    }
}

/// The boss after it has carried out the head of its queue.
pub open spec fn executed(mind: BossMind) -> BossMind {
    BossMind {
        boss: boss_starting(mind.boss, mind.queue),
        behavior: behavior_after(mind.boss, mind.queue, mind.behavior),
        wait: wait_for(mind.boss, mind.queue, mind.wait),
        queue: mind.queue,
    }
}

/// Whether the queue changes hands in this tick: an action was finished
/// before the boss came to think, a wait ran out, or a sensor filled the
/// queue.
pub open spec fn queue_changes(
    mind: BossMind,
    senses: BossSenses,
    delta_ms: u32,
    finished: bool,
) -> bool {
    finished || waited(mind, delta_ms).queue != mind.queue || sensed(
        waited(mind, delta_ms),
        senses,
    ).queue != waited(mind, delta_ms).queue
}

/// The boss after one tick of thought.
///
/// A living boss first lets a wait run, then listens to its sensors, then
/// turns to the player and chases, and at last, if its queue has changed,
/// carries out the head of the queue. A record that is not that of a living
/// boss is not touched.
pub open spec fn thought(mind: BossMind, senses: BossSenses, delta_ms: u32, finished: bool) -> BossMind {
    if !boss_alive(mind.boss) {
        mind
    } else {
        let ready = pursued(sensed(waited(mind, delta_ms), senses), senses);
        if queue_changes(mind, senses, delta_ms, finished) {
            executed(ready)
        } else {
            ready
        }
    }
}

/// What the boss decides in one tick of thought.
pub open spec fn intent_of(
    mind: BossMind,
    senses: BossSenses,
    delta_ms: u32,
    finished: bool,
) -> BossIntent {
    if !boss_alive(mind.boss) {
        BossIntent { steering: Steering::Keep, flip: None, execution: None }
    } else {
        let heard = sensed(waited(mind, delta_ms), senses);
        let ready = pursued(heard, senses);
        BossIntent {
            steering: match senses.player_x {
                Some(x) => steering_of(staring(heard.boss, x), heard.behavior, x),
                None => Steering::Keep,
            },
            flip: match senses.player_x {
                Some(x) => if staring(heard.boss, x).facing_left != heard.boss.facing_left {
                    Some(FlipAttackSensorEvent(mind.boss.id))
                } else {
                    None
                },
                None => None,
            },
            execution: if queue_changes(mind, senses, delta_ms, finished) {
                Some(execution_of(ready.boss, ready.queue))
            } else {
                None
            },
        }
    }
}

/// One tick of thought of the boss. `finished` says that an action of the
/// boss was finished earlier in the tick.
///
/// Whenever the queue has changed in the tick, a living boss ends the tick
/// in the phase that the head of its queue begins with. And a boss that
/// chased whenever its queue was empty still does so after the tick.
pub fn boss_think(
    boss: &mut Character,
    actions: &mut BossActions,
    behavior: &mut BossBehavior,
    wait: &mut Option<Countdown>,
    senses: &BossSenses,
    delta_ms: u32,
    finished: bool,
) -> (intent: BossIntent)
    ensures
        (BossMind {
            boss: *final(boss),
            queue: final(actions).queue(),
            behavior: *final(behavior),
            wait: *final(wait),
        }) == thought(
            BossMind {
                boss: *old(boss),
                queue: old(actions).queue(),
                behavior: *old(behavior),
                wait: *old(wait),
            },
            *senses,
            delta_ms,
            finished,
        ),
        intent == intent_of(
            BossMind {
                boss: *old(boss),
                queue: old(actions).queue(),
                behavior: *old(behavior),
                wait: *old(wait),
            },
            *senses,
            delta_ms,
            finished,
        ),
        final(boss).id == old(boss).id,
        final(boss).role == old(boss).role,
        final(boss).hp == old(boss).hp,
        final(boss).dead == old(boss).dead,
        old(boss).wf() ==> final(boss).wf(),
        intent.execution is Some && boss_alive(*old(boss)) ==> phase_matches_head(
            *final(boss),
            final(actions).queue(),
        ),
        boss_alive(*old(boss)) && (old(actions).queue().len() == 0 ==> *old(behavior)
            == BossBehavior::Chase) && final(actions).queue().len() == 0 ==> *final(behavior)
            == BossBehavior::Chase,
        intent.execution is Some && final(actions).queue().len() == 0 ==> *final(behavior)
            == BossBehavior::Chase,
        finished && boss_alive(*old(boss)) ==> intent.execution is Some,
{
    if !(boss.role == Role::Boss && !boss.dead) {
        return BossIntent { steering: Steering::Keep, flip: None, execution: None };
    }
    let mut changed = finished;
    match boss_wait_timer(wait, delta_ms) {
        Some(_) => {
            let popped = boss_actions_completed(actions);
            changed = changed || popped;
        },
        None => {},
    }
    let near = boss_proximity_attack(senses.proximity, boss, *behavior, actions);
    changed = changed || near;
    let mut steering = Steering::Keep;
    let mut flip: Option<FlipAttackSensorEvent> = None;
    match senses.player_x {
        Some(x) => {
            let flees = backstroke_sensor(
                senses.backstroke,
                boss,
                x,
                senses.player_velocity_x,
                actions,
                behavior,
            );
            changed = changed || flees;
            flip = stare_player(boss, x);
            steering = chase_player(boss, *behavior, x);
        },
        None => {},
    }
    let execution = if changed {
        Some(boss_actions(actions, boss, behavior, wait))
    } else {
        None
    };
    BossIntent { steering, flip, execution }
}

/// The record of a boss that has died: in its final phase, without
/// invulnerability, marked dead.
pub open spec fn boss_dying(boss: Character) -> Character {
    if boss_alive(boss) {
        Character { state: CharacterState::Dead, invulnerable: None, dead: true, ..boss }
    } else {
        boss
    }
}

/// The death of the boss.
///
/// A living boss dies; the result is `true` and its body has to be stopped.
/// Anything else, a boss that is already dead above all, is left exactly as
/// it is, and the result is `false`.
pub fn boss_death(boss: &mut Character) -> (died: bool)
    ensures
        died == boss_alive(*old(boss)),
        *final(boss) == boss_dying(*old(boss)),
        boss_dying(*final(boss)) == *final(boss),
        old(boss).wf() ==> final(boss).wf(),
{
    if boss.role == Role::Boss && !boss.dead {
        boss.state = CharacterState::Dead;
        boss.invulnerable = None;
        boss.dead = true;
        true
    } else {
        false
    }
}

} // verus!
