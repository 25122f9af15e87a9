//! Action phases and the order in which they follow one another.
//!
//! A phase is both what a character is doing and which strip of frames is
//! shown for it. Each kind of character has a fixed table that gives, for
//! every phase it can be in, the first and last frame and the phase that
//! follows when the last frame has been shown.

use vstd::prelude::*;

verus! {

/// What a character is doing.
#[derive(Clone, Copy, Debug, PartialEq, Eq, Hash, Structural)]
pub enum CharacterState {
    Idle,
    Feint,
    Attack,
    SecondAttack,
    ThirdAttack,
    ChargedAttack,
    TransitionToCharge,
    Charge,
    Run,
    TransitionToDash,
    Dash,
    TpOut,
    TpIn,
    Hit,
    Dead,
}

impl Default for CharacterState {
    fn default() -> (state: CharacterState)
        ensures
            state == CharacterState::Idle,
    {
        CharacterState::Idle
    }
}

impl CharacterState {
    /// The phases in which a character strikes: only in these can one of its
    /// attack hitboxes be armed.
    pub open spec fn is_strike(self) -> bool {
        self == CharacterState::Attack || self == CharacterState::SecondAttack || self
            == CharacterState::ChargedAttack
    }

    /// The phases that root the player: winding up, holding the charge, and
    /// striking.
    pub open spec fn roots_player(self) -> bool {
        self == CharacterState::TransitionToCharge || self == CharacterState::Charge
            || self.is_strike()
    }

    /// The phases that root the boss and stop it from turning round.
    pub open spec fn roots_boss(self) -> bool {
        self == CharacterState::TransitionToCharge || self.is_strike()
    }

    /// Whether the character is striking.
    pub fn striking(self) -> (yes: bool)
        ensures
            yes == self.is_strike(),
    {
        self == CharacterState::Attack || self == CharacterState::SecondAttack || self
            == CharacterState::ChargedAttack
    }

    /// Whether the phase roots the player.
    pub fn rooting_player(self) -> (yes: bool)
        ensures
            yes == self.roots_player(),
    {
        self == CharacterState::TransitionToCharge || self == CharacterState::Charge
            || self.striking()
    }

    /// Whether the phase roots the boss.
    pub fn rooting_boss(self) -> (yes: bool)
        ensures
            yes == self.roots_boss(),
    {
        self == CharacterState::TransitionToCharge || self.striking()
    }
}

/// The strip of frames of one phase and the phase that follows it.
#[derive(Clone, Copy, Debug, PartialEq, Eq, Structural)]
pub struct AnimationFrames {
    pub first: usize,
    pub last: usize,
    pub next: CharacterState,
}

/// The kinds of character, each with its own table of phases.
#[derive(Clone, Copy, Debug, PartialEq, Eq, Structural)]
pub enum Archetype {
    Player,
    Boss,
    Spectator,
}

/// The table of phases of each kind of character. `None` means that this kind
/// of character has no frames for the phase.
pub open spec fn frames_of(archetype: Archetype, state: CharacterState) -> Option<AnimationFrames> {
    match archetype {
        Archetype::Player => match state {
            CharacterState::Idle => Some(
                AnimationFrames { first: 0, last: 4, next: CharacterState::Idle },
            ),
            CharacterState::Run => Some(
                AnimationFrames { first: 5, last: 12, next: CharacterState::Idle },
            ),
            CharacterState::TransitionToCharge => Some(
                AnimationFrames { first: 13, last: 14, next: CharacterState::Charge },
            ),
            CharacterState::Charge => Some(
                AnimationFrames { first: 15, last: 18, next: CharacterState::Charge },
            ),
            CharacterState::Attack => Some(
                AnimationFrames { first: 19, last: 22, next: CharacterState::Idle },
            ),
            CharacterState::SecondAttack => Some(
                AnimationFrames { first: 23, last: 26, next: CharacterState::Idle },
            ),
            CharacterState::ChargedAttack => Some(
                AnimationFrames { first: 19, last: 26, next: CharacterState::Idle },
            ),
            CharacterState::Hit => Some(
                AnimationFrames { first: 27, last: 28, next: CharacterState::Idle },
            ),
            CharacterState::Dead => Some(
                AnimationFrames { first: 29, last: 34, next: CharacterState::Dead },
            ),
            _ => None,
        },
        Archetype::Boss => match state {
            CharacterState::Idle => Some(
                AnimationFrames { first: 0, last: 4, next: CharacterState::Idle },
            ),
            CharacterState::Run => Some(
                AnimationFrames { first: 5, last: 10, next: CharacterState::Idle },
            ),
            CharacterState::TransitionToCharge => Some(
                AnimationFrames { first: 11, last: 14, next: CharacterState::Attack },
            ),
            CharacterState::Attack => Some(
                AnimationFrames { first: 15, last: 18, next: CharacterState::Idle },
            ),
            CharacterState::SecondAttack => Some(
                AnimationFrames { first: 19, last: 26, next: CharacterState::Idle },
            ),
            CharacterState::Hit => Some(
                AnimationFrames { first: 27, last: 28, next: CharacterState::Idle },
            ),
            CharacterState::Dead => Some(
                AnimationFrames { first: 29, last: 34, next: CharacterState::Dead },
            ),
            CharacterState::TpOut => Some(
                AnimationFrames { first: 29, last: 34, next: CharacterState::TpIn },
            ),
            CharacterState::TpIn => Some(
                AnimationFrames { first: 5, last: 10, next: CharacterState::Idle },
            ),
            CharacterState::Feint => Some(
                AnimationFrames { first: 41, last: 45, next: CharacterState::Idle },
            ),
            CharacterState::TransitionToDash => Some(
                AnimationFrames { first: 56, last: 59, next: CharacterState::Dash },
            ),
            CharacterState::Dash => Some(
                AnimationFrames { first: 60, last: 65, next: CharacterState::Idle },
            ),
            _ => None,
        },
        Archetype::Spectator => match state {
            CharacterState::Idle => Some(
                AnimationFrames { first: 0, last: 4, next: CharacterState::Idle },
            ),
            CharacterState::Run => Some(
                AnimationFrames { first: 5, last: 12, next: CharacterState::Idle },
            ),
            CharacterState::TransitionToCharge => Some(
                AnimationFrames { first: 13, last: 14, next: CharacterState::Charge },
            ),
            CharacterState::Charge => Some(
                AnimationFrames { first: 15, last: 18, next: CharacterState::Charge },
            ),
            CharacterState::Attack => Some(
                AnimationFrames { first: 19, last: 26, next: CharacterState::Idle },
            ),
            CharacterState::SecondAttack => Some(
                AnimationFrames { first: 23, last: 26, next: CharacterState::Idle },
            ),
            CharacterState::Hit => Some(
                AnimationFrames { first: 27, last: 28, next: CharacterState::Idle },
            ),
            CharacterState::Dead => Some(
                AnimationFrames { first: 29, last: 34, next: CharacterState::Dead },
            ),
            _ => None,
        },
    }
}

#[inline]
fn strip(first: usize, last: usize, next: CharacterState) -> (frames: Option<AnimationFrames>)
    ensures
        frames == Some(AnimationFrames { first, last, next }),
{
    Some(AnimationFrames { first, last, next })
}

/// Looks a phase up in the table of a kind of character.
pub fn animation_frames(archetype: Archetype, state: CharacterState) -> (frames: Option<
    AnimationFrames,
>)
    ensures
        frames == frames_of(archetype, state),
{
    match archetype {
        Archetype::Player => match state {
            CharacterState::Idle => strip(0, 4, CharacterState::Idle),
            CharacterState::Run => strip(5, 12, CharacterState::Idle),
            CharacterState::TransitionToCharge => strip(13, 14, CharacterState::Charge),
            CharacterState::Charge => strip(15, 18, CharacterState::Charge),
            CharacterState::Attack => strip(19, 22, CharacterState::Idle),
            CharacterState::SecondAttack => strip(23, 26, CharacterState::Idle),
            CharacterState::ChargedAttack => strip(19, 26, CharacterState::Idle),
            CharacterState::Hit => strip(27, 28, CharacterState::Idle),
            CharacterState::Dead => strip(29, 34, CharacterState::Dead),
            _ => None,
        },
        Archetype::Boss => match state {
            CharacterState::Idle => strip(0, 4, CharacterState::Idle),
            CharacterState::Run => strip(5, 10, CharacterState::Idle),
            CharacterState::TransitionToCharge => strip(11, 14, CharacterState::Attack),
            CharacterState::Attack => strip(15, 18, CharacterState::Idle),
            CharacterState::SecondAttack => strip(19, 26, CharacterState::Idle),
            CharacterState::Hit => strip(27, 28, CharacterState::Idle),
            CharacterState::Dead => strip(29, 34, CharacterState::Dead),
            CharacterState::TpOut => strip(29, 34, CharacterState::TpIn),
            CharacterState::TpIn => strip(5, 10, CharacterState::Idle),
            CharacterState::Feint => strip(41, 45, CharacterState::Idle),
            CharacterState::TransitionToDash => strip(56, 59, CharacterState::Dash),
            CharacterState::Dash => strip(60, 65, CharacterState::Idle),
            _ => None,
        },
        Archetype::Spectator => match state {
            CharacterState::Idle => strip(0, 4, CharacterState::Idle),
            CharacterState::Run => strip(5, 12, CharacterState::Idle),
            CharacterState::TransitionToCharge => strip(13, 14, CharacterState::Charge),
            CharacterState::Charge => strip(15, 18, CharacterState::Charge),
            CharacterState::Attack => strip(19, 26, CharacterState::Idle),
            CharacterState::SecondAttack => strip(23, 26, CharacterState::Idle),
            CharacterState::Hit => strip(27, 28, CharacterState::Idle),
            CharacterState::Dead => strip(29, 34, CharacterState::Dead),
            _ => None,
        },
    }
}

/// The phase that follows `state` when its last frame has been shown, or
/// `state` itself where the table has no entry for it.
pub open spec fn next_phase(archetype: Archetype, state: CharacterState) -> CharacterState {
    match frames_of(archetype, state) {
        Some(frames) => frames.next,
        None => state,
    }
}

/// Every phase that a table leads to is itself in the table, and its strip is
/// in order.
pub proof fn lemma_tables_are_closed(archetype: Archetype, state: CharacterState)
    requires
        frames_of(archetype, state) is Some,
    ensures
        frames_of(archetype, next_phase(archetype, state)) is Some,
        frames_of(archetype, state).unwrap().first <= frames_of(archetype, state).unwrap().last,
{
}

/// `Dead` is final: the table never leads out of it, and no table leads into
/// it from another phase.
pub proof fn lemma_dead_is_terminal(archetype: Archetype, state: CharacterState)
    ensures
        next_phase(archetype, CharacterState::Dead) == CharacterState::Dead,
        next_phase(archetype, state) == CharacterState::Dead ==> state == CharacterState::Dead,
{
}

/// What one step of the frame clock does to a character.
#[derive(Clone, Copy, Debug, PartialEq, Eq, Structural)]
pub struct AnimationStep {
    /// The frame to show next.
    pub frame: usize,
    /// The phase the character is in after the step.
    pub state: CharacterState,
    /// For the boss, the phase whose last frame was just shown.
    pub boss_last_frame: Option<BossLastFrameEvent>,
    /// The death strip has been played to its end: the frame clock of this
    /// character is to be stopped.
    pub stopped: bool,
    /// The strip ran past the end of the sheet and was cut short.
    pub overran: bool,
}

/// The boss has shown the last frame of a phase.
#[derive(Clone, Copy, Debug, PartialEq, Eq, Structural)]
pub struct BossLastFrameEvent(pub CharacterState);

/// One step of the frame clock, as a function of the kind of character, its
/// phase, the frame on show and the number of frames on its sheet.
///
/// On the last frame of a phase the character moves to the phase that follows
/// and to its first frame, and the boss reports which phase it finished; on
/// the last frame of `Dead` nothing moves and the clock is stopped. On any
/// other frame the next frame is shown, or, where the sheet has no next
/// frame, the first frame of the following phase without leaving the phase.
/// A phase without an entry in the table is left alone.
pub open spec fn animated(
    archetype: Archetype,
    state: CharacterState,
    frame: usize,
    sheet_len: usize,
) -> AnimationStep {
    match frames_of(archetype, state) {
        None => AnimationStep { frame, state, boss_last_frame: None, stopped: false, overran: false },
        Some(strip) => {
            let restart = match frames_of(archetype, strip.next) {
                Some(following) => following.first,
                None => frame,
            };
            if frame == strip.last {
                if state == CharacterState::Dead {
                    AnimationStep {
                        frame,
                        state,
                        boss_last_frame: None,
                        stopped: true,
                        overran: false,
                    }
                } else {
                    AnimationStep {
                        frame: restart,
                        state: strip.next,
                        boss_last_frame: if archetype == Archetype::Boss {
                            Some(BossLastFrameEvent(state))
                        } else {
                            None
                        },
                        stopped: false,
                        overran: false,
                    }
                }
            } else if frame + 1 < sheet_len {
                AnimationStep {
                    frame: (frame + 1) as usize,
                    state,
                    boss_last_frame: None,
                    stopped: false,
                    overran: false,
                }
            } else {
                AnimationStep {
                    frame: restart,
                    state,
                    boss_last_frame: None,
                    stopped: false,
                    overran: true,
                }
            }
        },
    }
}

/// Advances a character by one step of the frame clock.
pub fn animate_character(
    archetype: Archetype,
    state: CharacterState,
    frame: usize,
    sheet_len: usize,
) -> (step: AnimationStep)
    ensures
        step == animated(archetype, state, frame, sheet_len),
{
    match animation_frames(archetype, state) {
        None => AnimationStep { frame, state, boss_last_frame: None, stopped: false, overran: false },
        Some(strip) => {
            let restart: usize = match animation_frames(archetype, strip.next) {
                Some(following) => following.first,
                None => frame,
            };
            if frame == strip.last {
                if state == CharacterState::Dead {
                    AnimationStep {
                        frame,
                        state,
                        boss_last_frame: None,
                        stopped: true,
                        overran: false,
                    }
                } else {
                    let report = if archetype == Archetype::Boss {
                        Some(BossLastFrameEvent(state))
                    } else {
                        None
                    };
                    AnimationStep {
                        frame: restart,
                        state: strip.next,
                        boss_last_frame: report,
                        stopped: false,
                        overran: false,
                    }
                }
            } else if frame < usize::MAX && frame + 1 < sheet_len {
                AnimationStep {
                    frame: frame + 1,
                    state,
                    boss_last_frame: None,
                    stopped: false,
                    overran: false,
                }
            } else {
                AnimationStep {
                    frame: restart,
                    state,
                    boss_last_frame: None,
                    stopped: false,
                    overran: true,
                }
            }
        },
    }
}

/// The frame to jump to when a character enters `state`: the first frame of
/// its strip, if it has one.
pub fn jump_frame_character_state(archetype: Archetype, state: CharacterState) -> (frame: Option<
    usize,
>)
    ensures
        frame == match frames_of(archetype, state) {
            Some(strip) => Some(strip.first),
            None => None,
        },
{
    match animation_frames(archetype, state) {
        Some(strip) => Some(strip.first),
        None => None,
    }
}

} // verus!
