use grandstand_gauntlet::animations::CharacterState;
use grandstand_gauntlet::character::{Character, Hp, Invulnerable, Position, Role};
use grandstand_gauntlet::collision::DamageHitEvent;
use grandstand_gauntlet::damage::{damage_animation, damage_hit, hit_points, strike, HitOutcome};
use grandstand_gauntlet::hitbox::AttackHitbox;
use grandstand_gauntlet::timing::Countdown;

fn dmg_character(id: u64, role: Role, hp: i32, max: i32) -> Character {
    Character { hp: Hp { current: hp, max }, ..Character::spawn(id, role, max, Position { x: 0, y: 0 }) }
}

fn dmg_hitbox(id: u64, damage: i32) -> AttackHitbox {
    AttackHitbox { id, sensor: 0, damage, armed: true, smash: false, fallen_angel: false }
}

#[test]
fn boss_at_1000_struck_for_10_is_left_with_990_and_a_short_window() {
    let boss = dmg_character(2, Role::Boss, 1000, 1000);
    let (after, outcome) = strike(boss, 10);
    assert_eq!(outcome, HitOutcome::Wounded);
    assert_eq!(after.hp, Hp { current: 990, max: 1000 });
    assert_eq!(
        after.invulnerable,
        Some(Invulnerable(Countdown { elapsed_ms: 0, duration_ms: 500 }))
    );
    assert_eq!(after.state, boss.state);
    assert_eq!(Character { hp: boss.hp, invulnerable: None, ..after }, boss);
}

#[test]
fn wounded_player_gets_the_long_window() {
    let player = dmg_character(1, Role::Player, 40, 40);
    let (after, outcome) = strike(player, 10);
    assert_eq!(outcome, HitOutcome::Wounded);
    assert_eq!(after.hp, Hp { current: 30, max: 40 });
    assert_eq!(
        after.invulnerable,
        Some(Invulnerable(Countdown { elapsed_ms: 0, duration_ms: 2000 }))
    );
}

#[test]
fn wounded_body_that_is_nobody_gets_the_short_window() {
    let body = dmg_character(5, Role::Vacant, 40, 40);
    let (after, outcome) = strike(body, 10);
    assert_eq!(outcome, HitOutcome::Wounded);
    assert_eq!(after.hp.current, 30);
    assert_eq!(
        after.invulnerable,
        Some(Invulnerable(Countdown { elapsed_ms: 0, duration_ms: 500 }))
    );
}

#[test]
fn player_at_5_struck_for_10_is_slain_with_zero_hit_points() {
    let player = dmg_character(1, Role::Player, 5, 40);
    let (after, outcome) = strike(player, 10);
    assert_eq!(outcome, HitOutcome::PlayerSlain);
    assert_eq!(after.hp, Hp { current: 0, max: 40 });
    assert_eq!(after.invulnerable, None);
    assert_eq!(Character { hp: player.hp, ..after }, player);
}

#[test]
fn blow_equal_to_what_is_left_is_lethal() {
    let boss = dmg_character(2, Role::Boss, 10, 1000);
    let (after, outcome) = strike(boss, 10);
    assert_eq!(outcome, HitOutcome::BossSlain);
    assert_eq!(after.hp.current, 0);
    let boss = dmg_character(2, Role::Boss, 11, 1000);
    let (after, outcome) = strike(boss, 10);
    assert_eq!(outcome, HitOutcome::Wounded);
    assert_eq!(after.hp.current, 1);
}

#[test]
fn lethal_blow_on_nobody_changes_nothing() {
    let body = dmg_character(5, Role::Vacant, 5, 40);
    assert_eq!(strike(body, 10), (body, HitOutcome::Unclaimed));
}

#[test]
fn characters_that_cannot_be_struck_are_spared() {
    let player = dmg_character(1, Role::Player, 40, 40);
    let shielded = Character {
        invulnerable: Some(Invulnerable(Countdown { elapsed_ms: 100, duration_ms: 2000 })),
        ..player
    };
    assert_eq!(strike(shielded, 10), (shielded, HitOutcome::Spared));
    let shifting = Character { soul_shifting: true, ..player };
    assert_eq!(strike(shifting, 10), (shifting, HitOutcome::Spared));
    let dead = Character { dead: true, state: CharacterState::Dead, ..player };
    assert_eq!(strike(dead, 100), (dead, HitOutcome::Spared));
    let spectator = dmg_character(9, Role::CrowdMember, 40, 40);
    assert_eq!(strike(spectator, 100), (spectator, HitOutcome::Spared));
}

#[test]
fn hit_points_stay_in_range_under_any_blow() {
    let blows = [i32::MIN, -1000, -1, 0, 1, 39, 40, 41, 1000, i32::MAX];
    for role in [Role::Player, Role::Boss, Role::Vacant] {
        for current in [0, 1, 20, 40] {
            for damage in blows {
                let target = dmg_character(1, role, current, 40);
                let (after, _) = strike(target, damage);
                assert!(0 <= after.hp.current && after.hp.current <= after.hp.max);
                assert_eq!(after.hp.max, 40);
                if damage >= 0 {
                    assert!(after.hp.current <= current);
                }
            }
        }
    }
}

#[test]
fn healing_blow_stops_at_the_maximum() {
    let player = dmg_character(1, Role::Player, 30, 40);
    let (after, outcome) = strike(player, -5);
    assert_eq!(outcome, HitOutcome::Wounded);
    assert_eq!(after.hp.current, 35);
    let (after, _) = strike(player, -50);
    assert_eq!(after.hp.current, 40);
    let (after, _) = strike(player, i32::MIN);
    assert_eq!(after.hp.current, 40);
}

#[test]
fn hits_are_applied_in_order_and_a_second_hit_finds_the_window() {
    let hitboxes = vec![dmg_hitbox(100, 10), dmg_hitbox(101, 25)];
    let mut cast = vec![
        dmg_character(1, Role::Player, 40, 40),
        dmg_character(2, Role::Boss, 1000, 1000),
    ];
    let events = vec![
        DamageHitEvent { attack_hitbox: 101, target: 2 },
        DamageHitEvent { attack_hitbox: 100, target: 2 },
        DamageHitEvent { attack_hitbox: 100, target: 1 },
    ];
    let outcomes = damage_hit(&events, &hitboxes, &mut cast);
    assert_eq!(outcomes, vec![HitOutcome::Wounded, HitOutcome::Spared, HitOutcome::Wounded]);
    assert_eq!(cast[1].hp.current, 975);
    assert_eq!(cast[0].hp.current, 30);
}

#[test]
fn hit_from_an_unknown_hitbox_or_on_an_unknown_target_is_dropped() {
    let hitboxes = vec![dmg_hitbox(100, 10)];
    let before = vec![dmg_character(1, Role::Player, 40, 40)];
    let mut cast = before.clone();
    let events = vec![
        DamageHitEvent { attack_hitbox: 999, target: 1 },
        DamageHitEvent { attack_hitbox: 100, target: 999 },
        DamageHitEvent { attack_hitbox: 999, target: 999 },
    ];
    let outcomes = damage_hit(&events, &hitboxes, &mut cast);
    assert_eq!(
        outcomes,
        vec![HitOutcome::UnknownHitbox, HitOutcome::Spared, HitOutcome::UnknownHitbox]
    );
    assert_eq!(cast, before);
}

#[test]
fn lethal_hits_are_told_apart_by_role() {
    let hitboxes = vec![dmg_hitbox(100, 50)];
    let mut cast = vec![
        dmg_character(1, Role::Player, 40, 40),
        dmg_character(2, Role::Boss, 50, 1000),
        dmg_character(3, Role::Vacant, 1, 40),
    ];
    let events = vec![
        DamageHitEvent { attack_hitbox: 100, target: 1 },
        DamageHitEvent { attack_hitbox: 100, target: 2 },
        DamageHitEvent { attack_hitbox: 100, target: 3 },
    ];
    let outcomes = damage_hit(&events, &hitboxes, &mut cast);
    assert_eq!(
        outcomes,
        vec![HitOutcome::PlayerSlain, HitOutcome::BossSlain, HitOutcome::Unclaimed]
    );
    assert_eq!(cast[0].hp.current, 0);
    assert_eq!(cast[1].hp.current, 0);
    assert_eq!(cast[2].hp.current, 1);
}

#[test]
fn any_change_of_hit_points_makes_the_living_flinch() {
    let mut cast = vec![
        dmg_character(1, Role::Player, 30, 40),
        dmg_character(2, Role::Boss, 1000, 1000),
        dmg_character(3, Role::Vacant, 0, 40),
        dmg_character(4, Role::Player, 40, 40),
    ];
    cast[2].dead = true;
    cast[2].state = CharacterState::Dead;
    cast[3].state = CharacterState::Run;
    let previous = vec![
        Hp { current: 40, max: 40 },
        Hp { current: 1000, max: 1000 },
        Hp { current: 40, max: 40 },
        Hp { current: 10, max: 40 },
    ];
    damage_animation(&mut cast, &previous);
    assert_eq!(cast[0].state, CharacterState::Hit);
    assert_eq!(cast[1].state, CharacterState::Idle);
    assert_eq!(cast[2].state, CharacterState::Dead);
    assert_eq!(cast[3].state, CharacterState::Hit);
}

#[test]
fn flinching_needs_a_record_of_the_hit_points_before() {
    let mut cast = vec![
        dmg_character(1, Role::Player, 30, 40),
        dmg_character(2, Role::Boss, 990, 1000),
    ];
    let previous = vec![Hp { current: 40, max: 40 }];
    damage_animation(&mut cast, &previous);
    assert_eq!(cast[0].state, CharacterState::Hit);
    assert_eq!(cast[1].state, CharacterState::Idle);
}

#[test]
fn hit_points_are_recorded_in_order() {
    let cast = vec![
        dmg_character(1, Role::Player, 30, 40),
        dmg_character(2, Role::Boss, 990, 1000),
    ];
    assert_eq!(
        hit_points(&cast),
        vec![Hp { current: 30, max: 40 }, Hp { current: 990, max: 1000 }]
    );
}

#[test]
fn body_in_its_final_phase_does_not_flinch() {
    let mut cast = vec![
        dmg_character(1, Role::Vacant, 0, 40),
        dmg_character(2, Role::Player, 10, 40),
    ];
    cast[0].state = CharacterState::Dead;
    cast[0].soul_shifting = true;
    cast[1].state = CharacterState::Dead;
    let previous = vec![Hp { current: 40, max: 40 }, Hp { current: 40, max: 40 }];
    let before = cast.clone();
    damage_animation(&mut cast, &previous);
    assert_eq!(cast, before);
}
