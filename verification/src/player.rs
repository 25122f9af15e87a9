//! What the player's input does to the body it controls.

use crate::animations::CharacterState;
use crate::character::{
    AttackCharge,
    Character,
    DashTimer,
    HyperDashTimer,
    Invulnerable,
    Role,
    Steering,
};
use crate::constants::{
    DASH_DURATION,
    DASH_INVULNERABILITY,
    HYPER_DASH_DURATION,
    HYPER_DASH_INVULNERABILITY,
};
use crate::hitbox::FlipAttackSensorEvent;
use crate::soul_shift::{given_up, suicide_to_soul_shift, SoulShiftEvent};
use crate::timing::Countdown;
use vstd::prelude::*;

verus! {

/// The record is that of the body that the player controls, and it is alive.
pub open spec fn controlled(player: Character) -> bool {
    player.role == Role::Player && !player.dead
}

/// The phase that a released attack button leads to: a wind-up or a held
/// charge becomes a charged attack if the button was held long enough, and a
/// plain attack if not. Any other phase stays.
pub open spec fn released_into(state: CharacterState, charge: AttackCharge) -> CharacterState {
    if state == CharacterState::TransitionToCharge || state == CharacterState::Charge {
        if charge.timer.is_finished() {
            CharacterState::ChargedAttack
        } else {
            CharacterState::Attack
        }
    } else {
        state
    }
}

/// The player after the attack button was pressed or released.
///
/// A strike that is under way is not interrupted. A press starts the charge
/// from zero and winds up; a release resolves the charge and clears it.
/// When both are reported, the press counts.
pub open spec fn attacking(player: Character, pressed: bool, released: bool) -> Character {
    if !controlled(player) || player.state.is_strike() {
        player
    } else if pressed {
        Character {
            state: CharacterState::TransitionToCharge,
            charge: AttackCharge {
                charging: true,
                timer: Countdown { elapsed_ms: 0, duration_ms: player.charge.timer.duration_ms },
            },
            ..player
        }
    } else if released {
        Character {
            state: released_into(player.state, player.charge),
            charge: AttackCharge {
                charging: player.charge.charging,
                timer: Countdown { elapsed_ms: 0, duration_ms: player.charge.timer.duration_ms },
            },
            ..player
        }
    } else {
        player
    }
}

/// Handles the attack button. The result is `true` when the player has to
/// be stopped where it stands, which is the case after a release.
pub fn player_attack(player: &mut Character, pressed: bool, released: bool) -> (halt: bool)
    ensures
        *final(player) == attacking(*old(player), pressed, released),
        halt == (controlled(*old(player)) && !old(player).state.is_strike() && !pressed
            && released),
        old(player).wf() ==> final(player).wf(),
{
    if !(player.role == Role::Player && !player.dead) || player.state.striking() {
        return false;
    }
    if pressed {
        player.charge.charging = true;
        player.charge.timer.reset();
        player.state = CharacterState::TransitionToCharge;
        false
    } else if released {
        if player.state == CharacterState::TransitionToCharge || player.state
            == CharacterState::Charge {
            player.state = if player.charge.timer.finished() {
                CharacterState::ChargedAttack
            } else {
                CharacterState::Attack
            };
        }
        player.charge.timer.reset();
        true
    } else {
        false
    }
}

/// The way the player faces after the keys `left` and `right`: it looks
/// where it goes, and keeps its facing when both keys or none are held.
pub open spec fn facing_after(facing_left: bool, left: bool, right: bool) -> bool {
    if left && right {
        facing_left
    } else if right {
        false
    } else if left {
        true
    } else {
        facing_left
    }
}

/// The player after the movement keys.
///
/// Winding up, charging and striking root the player and freeze it. Else it
/// is free, runs while a key is held, idles when it stood after a run, and
/// looks where it goes.
pub open spec fn moving(player: Character, left: bool, right: bool) -> Character {
    if !controlled(player) {
        player
    } else if player.state.roots_player() {
        Character { frozen: true, ..player }
    } else {
        Character {
            frozen: false,
            state: if left || right {
                CharacterState::Run
            } else if player.state == CharacterState::Run {
                CharacterState::Idle
            } else {
                player.state
            },
            facing_left: facing_after(player.facing_left, left, right),
            ..player
        }
    }
}

/// The direction along the x axis that the keys ask for.
pub open spec fn x_axis(left: bool, right: bool) -> i8 {
    if right && !left {
        1i8
    } else if left && !right {
        -1i8
    } else {
        0i8
    }
}

/// Reads the direction along the x axis that the keys ask for.
pub fn axis(left: bool, right: bool) -> (direction: i8)
    ensures
        direction == x_axis(left, right),
{
    if right && !left {
        1
    } else if left && !right {
        -1
    } else {
        0
    }
}

/// The direction in which the scenery is scrolled by the keys: to the right
/// while `right` is held, else to the left while `left` is held.
pub open spec fn scroll_axis(left: bool, right: bool) -> i8 {
    if right {
        1i8
    } else if left {
        -1i8
    } else {
        0i8
    }
}

/// Reads the direction in which the keys scroll the scenery.
pub fn scroll(left: bool, right: bool) -> (direction: i8)
    ensures
        direction == scroll_axis(left, right),
{
    if right {
        1
    } else if left {
        -1
    } else {
        0
    }
}

/// What the movement keys ask of the legs of the player.
pub open spec fn player_steering(player: Character, left: bool, right: bool) -> Steering {
    if !controlled(player) {
        Steering::Keep
    } else if player.state.roots_player() {
        Steering::Halt
    } else {
        Steering::Advance(x_axis(left, right))
    }
}

/// What the movement keys did.
#[derive(Clone, Copy, Debug, PartialEq, Eq, Structural)]
pub struct Movement {
    pub steering: Steering,
    /// The player has turned round: its attack sensors are to be mirrored.
    pub flip: Option<FlipAttackSensorEvent>,
}

/// Handles the movement keys.
///
/// The sensors are mirrored exactly when the facing of the player changes.
pub fn player_movement(player: &mut Character, left: bool, right: bool) -> (movement: Movement)
    ensures
        *final(player) == moving(*old(player), left, right),
        movement.steering == player_steering(*old(player), left, right),
        movement.flip == (if final(player).facing_left != old(player).facing_left {
            Some(FlipAttackSensorEvent(old(player).id))
        } else {
            None
        }),
        old(player).wf() ==> final(player).wf(),
{
    if !(player.role == Role::Player && !player.dead) {
        return Movement { steering: Steering::Keep, flip: None };
    }
    if player.state.rooting_player() {
        player.frozen = true;
        return Movement { steering: Steering::Halt, flip: None };
    }
    player.frozen = false;
    let direction = axis(left, right);
    if left || right {
        player.state = CharacterState::Run;
    } else if player.state == CharacterState::Run {
        player.state = CharacterState::Idle;
    }
    let mut flip: Option<FlipAttackSensorEvent> = None;
    if !(left && right) {
        if (left && !player.facing_left) || (right && player.facing_left) {
            flip = Some(FlipAttackSensorEvent(player.id));
        }
        if right {
            player.facing_left = false;
        } else if left {
            player.facing_left = true;
        }
    }
    Movement { steering: Steering::Advance(direction), flip }
}

/// The player after the dash keys.
///
/// A player that is not dashing starts a dash on the dash key, or else a
/// hyper dash on the hyper-dash key. Either comes with an invulnerability
/// window, which replaces any older one.
pub open spec fn dashing(player: Character, dash: bool, hyper_dash: bool) -> Character {
    if !controlled(player) || player.dash is Some {
        player
    } else if dash {
        Character {
            dash: Some(DashTimer(Countdown { elapsed_ms: 0, duration_ms: DASH_DURATION })),
            invulnerable: Some(
                Invulnerable(Countdown { elapsed_ms: 0, duration_ms: DASH_INVULNERABILITY }),
            ),
            ..player
        }
    } else if hyper_dash {
        Character {
            hyper_dash: Some(
                HyperDashTimer(Countdown { elapsed_ms: 0, duration_ms: HYPER_DASH_DURATION }),
            ),
            invulnerable: Some(
                Invulnerable(Countdown { elapsed_ms: 0, duration_ms: HYPER_DASH_INVULNERABILITY }),
            ),
            ..player
        }
    } else {
        player
    }
}

/// Handles the dash keys.
pub fn player_dash(player: &mut Character, dash: bool, hyper_dash: bool)
    ensures
        *final(player) == dashing(*old(player), dash, hyper_dash),
        old(player).wf() ==> final(player).wf(),
{
    if !(player.role == Role::Player && !player.dead) || player.dash.is_some() {
        return ;
    }
    if dash {
        player.dash = Some(DashTimer(Countdown::from_millis(DASH_DURATION)));
        player.invulnerable = Some(Invulnerable(Countdown::from_millis(DASH_INVULNERABILITY)));
    } else if hyper_dash {
        player.hyper_dash = Some(HyperDashTimer(Countdown::from_millis(HYPER_DASH_DURATION)));
        player.invulnerable = Some(
            Invulnerable(Countdown::from_millis(HYPER_DASH_INVULNERABILITY)),
        );
    }
}

/// What the player asks for in one tick.
#[derive(Clone, Copy, Debug, PartialEq, Eq, Structural)]
pub struct PlayerInput {
    pub attack_pressed: bool,
    pub attack_released: bool,
    pub left: bool,
    pub right: bool,
    pub dash: bool,
    pub hyper_dash: bool,
    /// The player gives up its body.
    pub suicide: bool,
}

/// What the player's input led to in one tick.
#[derive(Clone, Copy, Debug, PartialEq, Eq, Structural)]
pub struct PlayerIntent {
    /// The player gave up its body: its soul is to move on.
    pub soul_shift: Option<SoulShiftEvent>,
    /// The player released its attack and is to be stopped where it stands.
    pub halt: bool,
    pub steering: Steering,
    /// The player has turned round: its attack sensors are to be mirrored.
    pub flip: Option<FlipAttackSensorEvent>,
}

/// The player after the input of one tick: first it may give up its body,
/// then the attack button is handled, then the movement keys, then the dash
/// keys.
pub open spec fn commanded(player: Character, input: PlayerInput) -> Character {
    dashing(
        moving(
            attacking(
                given_up(player, input.suicide),
                input.attack_pressed,
                input.attack_released,
            ),
            input.left,
            input.right,
        ),
        input.dash,
        input.hyper_dash,
    )
}

/// What the input of one tick leads to.
pub open spec fn player_intent_of(player: Character, input: PlayerInput) -> PlayerIntent {
    let sworn = given_up(player, input.suicide);
    let armed = attacking(sworn, input.attack_pressed, input.attack_released);
    PlayerIntent {
        soul_shift: if input.suicide && controlled(player) {
            Some(SoulShiftEvent(player.id))
        } else {
            None
        },
        halt: controlled(sworn) && !sworn.state.is_strike() && !input.attack_pressed
            && input.attack_released,
        steering: player_steering(armed, input.left, input.right),
        flip: if moving(armed, input.left, input.right).facing_left != armed.facing_left {
            Some(FlipAttackSensorEvent(player.id))
        } else {
            None
        },
    }
}

/// Handles the input of one tick.
pub fn command(player: &mut Character, input: &PlayerInput) -> (intent: PlayerIntent)
    ensures
        *final(player) == commanded(*old(player), *input),
        intent == player_intent_of(*old(player), *input),
        final(player).id == old(player).id,
        final(player).role == old(player).role,
        final(player).dead == old(player).dead,
        final(player).soul_shifting == old(player).soul_shifting,
        old(player).wf() ==> final(player).wf(),
{
    let soul_shift = suicide_to_soul_shift(player, input.suicide);
    let halt = player_attack(player, input.attack_pressed, input.attack_released);
    let movement = player_movement(player, input.left, input.right);
    player_dash(player, input.dash, input.hyper_dash);
    PlayerIntent { soul_shift, halt, steering: movement.steering, flip: movement.flip }
}

} // verus!
