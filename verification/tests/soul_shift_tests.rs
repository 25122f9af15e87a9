use grandstand_gauntlet::animations::CharacterState;
use grandstand_gauntlet::character::{
    AttackCharge, Character, Hp, Invulnerable, Position, Role,
};
use grandstand_gauntlet::hitbox::{AttackHitbox, AttackSensor, CharacterHitbox};
use grandstand_gauntlet::soul_shift::{
    clean_up_dead_bodies, create_player, nearest_crowd_member, player_death_event,
    start_soul_shift, suicide_to_soul_shift, CreatePlayerEvent, PlayerDeathEvent, PossesionCount,
    SoulShift, SoulShiftEvent,
};
use grandstand_gauntlet::timing::Countdown;

fn ss_at(id: u64, role: Role, x: i32, y: i32) -> Character {
    Character::spawn(id, role, 40, Position { x, y })
}

fn ss_cast() -> Vec<Character> {
    let mut player = ss_at(1, Role::Player, 0, -60);
    player.hp.current = 0;
    vec![
        ss_at(2, Role::Boss, 30, -60),
        player,
        ss_at(10, Role::CrowdMember, -200, -55),
        ss_at(11, Role::CrowdMember, 120, -55),
        ss_at(12, Role::CrowdMember, -120, -55),
        ss_at(13, Role::CrowdMember, 400, -55),
    ]
}

#[test]
fn nearest_spectator_is_found_by_euclidean_distance() {
    let cast = vec![
        ss_at(1, Role::Player, 0, 0),
        ss_at(10, Role::CrowdMember, 6, 8),
        ss_at(11, Role::CrowdMember, 0, 9),
        ss_at(12, Role::CrowdMember, -9, -1),
        ss_at(2, Role::Boss, 1, 1),
    ];
    assert_eq!(nearest_crowd_member(&cast, Position { x: 0, y: 0 }), Some(2));
    assert_eq!(nearest_crowd_member(&cast, Position { x: 6, y: 7 }), Some(1));
    assert_eq!(nearest_crowd_member(&cast, Position { x: -20, y: 0 }), Some(3));
}

#[test]
fn of_equally_near_spectators_the_first_is_taken() {
    let cast = vec![
        ss_at(10, Role::CrowdMember, 5, 0),
        ss_at(11, Role::CrowdMember, -5, 0),
        ss_at(12, Role::CrowdMember, 0, 5),
        ss_at(13, Role::CrowdMember, 3, 4),
    ];
    assert_eq!(nearest_crowd_member(&cast, Position { x: 0, y: 0 }), Some(0));
}

#[test]
fn no_spectator_no_nearest() {
    let cast = vec![ss_at(1, Role::Player, 0, 0), ss_at(2, Role::Boss, 1, 1)];
    assert_eq!(nearest_crowd_member(&cast, Position { x: 0, y: 0 }), None);
    let nobody: Vec<Character> = Vec::new();
    assert_eq!(nearest_crowd_member(&nobody, Position { x: 0, y: 0 }), None);
}

#[test]
fn distances_at_the_ends_of_the_arena_do_not_overflow() {
    let cast = vec![
        ss_at(10, Role::CrowdMember, i32::MAX, i32::MAX),
        ss_at(11, Role::CrowdMember, i32::MIN + 1, i32::MIN),
        ss_at(12, Role::CrowdMember, 0, 0),
    ];
    assert_eq!(nearest_crowd_member(&cast, Position { x: i32::MIN, y: i32::MIN }), Some(1));
    assert_eq!(nearest_crowd_member(&cast, Position { x: i32::MAX, y: i32::MAX }), Some(0));
}

#[test]
fn soul_moves_into_the_nearest_spectator() {
    let before = ss_cast();
    let mut cast = before.clone();
    let shift = start_soul_shift(&mut cast, SoulShiftEvent(1));
    assert_eq!(shift, SoulShift::Shifted(PlayerDeathEvent(1), CreatePlayerEvent(11)));
    assert_eq!(
        cast[1],
        Character {
            role: Role::Vacant,
            state: CharacterState::Dead,
            soul_shifting: true,
            position: Position { x: 0, y: -65 },
            ..before[1]
        }
    );
    assert_eq!(
        cast[3],
        Character {
            role: Role::Player,
            soul_shifting: true,
            position: Position { x: 120, y: -60 },
            ..before[3]
        }
    );
    for i in [0, 2, 4, 5] {
        assert_eq!(cast[i], before[i]);
    }
}

#[test]
fn soul_shift_needs_a_dying_player() {
    let mut cast = ss_cast();
    cast[1].hp.current = 1;
    let before = cast.clone();
    assert_eq!(start_soul_shift(&mut cast, SoulShiftEvent(1)), SoulShift::NotDying);
    assert_eq!(cast, before);
}

#[test]
fn soul_shift_is_ignored_for_anybody_but_a_player_that_is_not_on_the_move() {
    let mut cast = ss_cast();
    let before = cast.clone();
    assert_eq!(start_soul_shift(&mut cast, SoulShiftEvent(2)), SoulShift::Ignored);
    assert_eq!(start_soul_shift(&mut cast, SoulShiftEvent(10)), SoulShift::Ignored);
    assert_eq!(start_soul_shift(&mut cast, SoulShiftEvent(999)), SoulShift::Ignored);
    assert_eq!(cast, before);
    cast[1].soul_shifting = true;
    let before = cast.clone();
    assert_eq!(start_soul_shift(&mut cast, SoulShiftEvent(1)), SoulShift::Ignored);
    assert_eq!(cast, before);
    cast[1].soul_shifting = false;
    cast[1].dead = true;
    let before = cast.clone();
    assert_eq!(start_soul_shift(&mut cast, SoulShiftEvent(1)), SoulShift::Ignored);
    assert_eq!(cast, before);
}

#[test]
fn second_soul_shift_for_the_same_body_is_ignored() {
    let mut cast = ss_cast();
    assert!(matches!(start_soul_shift(&mut cast, SoulShiftEvent(1)), SoulShift::Shifted(_, _)));
    let once = cast.clone();
    assert_eq!(start_soul_shift(&mut cast, SoulShiftEvent(1)), SoulShift::Ignored);
    assert_eq!(cast, once);
}

#[test]
fn without_spectators_the_fight_is_lost() {
    let mut player = ss_at(1, Role::Player, 0, -60);
    player.hp.current = 0;
    let mut cast = vec![ss_at(2, Role::Boss, 30, -60), player];
    let before = cast.clone();
    assert_eq!(start_soul_shift(&mut cast, SoulShiftEvent(1)), SoulShift::NoLivesLeft);
    assert_eq!(cast, before);
}

#[test]
fn death_of_the_old_body_is_played_out_and_counted_once() {
    let mut cast = ss_cast();
    start_soul_shift(&mut cast, SoulShiftEvent(1));
    cast[1].invulnerable = Some(Invulnerable(Countdown::from_millis(2000)));
    let mut count = PossesionCount(0);
    assert!(player_death_event(&mut cast, &mut count, PlayerDeathEvent(1)));
    assert_eq!(count, PossesionCount(1));
    assert!(cast[1].dead);
    assert!(!cast[1].soul_shifting);
    assert_eq!(cast[1].state, CharacterState::Dead);
    assert_eq!(cast[1].role, Role::Vacant);
    assert_eq!(cast[1].invulnerable, None);
    let once = cast.clone();
    assert!(!player_death_event(&mut cast, &mut count, PlayerDeathEvent(1)));
    assert_eq!(count, PossesionCount(1));
    assert_eq!(cast, once);
}

#[test]
fn death_takes_the_role_of_a_player_and_spares_spectators() {
    let mut cast = ss_cast();
    let mut count = PossesionCount(7);
    let before = cast.clone();
    assert!(!player_death_event(&mut cast, &mut count, PlayerDeathEvent(10)));
    assert!(!player_death_event(&mut cast, &mut count, PlayerDeathEvent(999)));
    assert_eq!(cast, before);
    assert_eq!(count, PossesionCount(7));
    assert!(player_death_event(&mut cast, &mut count, PlayerDeathEvent(1)));
    assert_eq!(cast[1].role, Role::Vacant);
    assert!(cast[1].dead);
    assert_eq!(count, PossesionCount(8));
    assert!(player_death_event(&mut cast, &mut count, PlayerDeathEvent(2)));
    assert_eq!(cast[0].role, Role::Boss);
    assert!(cast[0].dead);
    assert_eq!(cast[0].state, CharacterState::Dead);
    assert_eq!(count, PossesionCount(9));
}

#[test]
fn count_of_bodies_stops_at_the_largest_number() {
    let mut cast = ss_cast();
    let mut count = PossesionCount(i32::MAX);
    assert!(player_death_event(&mut cast, &mut count, PlayerDeathEvent(1)));
    assert_eq!(count, PossesionCount(i32::MAX));
}

#[test]
fn entered_body_is_fitted_out_as_the_player() {
    let mut cast = ss_cast();
    start_soul_shift(&mut cast, SoulShiftEvent(1));
    cast[3].hp = Hp { current: 3, max: 7 };
    cast[3].state = CharacterState::Run;
    cast[3].charge.charging = true;
    let before = cast.clone();
    assert!(create_player(&mut cast, CreatePlayerEvent(11)));
    assert_eq!(
        cast[3],
        Character {
            role: Role::Player,
            hp: Hp { current: 40, max: 40 },
            state: CharacterState::Idle,
            invulnerable: Some(Invulnerable(Countdown { elapsed_ms: 0, duration_ms: 10000 })),
            charge: AttackCharge::new(),
            soul_shifting: false,
            dead: false,
            ..before[3]
        }
    );
    assert_eq!(cast[3].position, Position { x: 120, y: -60 });
    assert!(!create_player(&mut cast, CreatePlayerEvent(999)));
}

#[test]
fn giving_up_the_body_empties_the_hit_points() {
    let mut player = ss_at(1, Role::Player, 0, -60);
    assert_eq!(suicide_to_soul_shift(&mut player, false), None);
    assert_eq!(player, ss_at(1, Role::Player, 0, -60));
    assert_eq!(suicide_to_soul_shift(&mut player, true), Some(SoulShiftEvent(1)));
    assert_eq!(player.hp, Hp { current: 0, max: 40 });
    let mut boss = ss_at(2, Role::Boss, 0, -60);
    assert_eq!(suicide_to_soul_shift(&mut boss, true), None);
    assert_eq!(boss, ss_at(2, Role::Boss, 0, -60));
    let mut dead = Character { dead: true, state: CharacterState::Dead, ..ss_at(1, Role::Player, 0, 0) };
    assert_eq!(suicide_to_soul_shift(&mut dead, true), None);
}

#[test]
fn what_hangs_on_a_dead_body_is_taken_away() {
    let mut sensors = vec![
        AttackSensor { id: 10, owner: 1, offset_x: 10 },
        AttackSensor { id: 20, owner: 2, offset_x: 42 },
        AttackSensor { id: 11, owner: 1, offset_x: 30 },
    ];
    let hit = |id, sensor| AttackHitbox {
        id,
        sensor,
        damage: 10,
        armed: false,
        smash: false,
        fallen_angel: false,
    };
    let mut hitboxes = vec![hit(100, 10), hit(200, 20), hit(101, 11), hit(900, 99)];
    let mut hurtboxes = vec![
        CharacterHitbox { id: 1000, owner: 1 },
        CharacterHitbox { id: 2000, owner: 2 },
    ];
    clean_up_dead_bodies(&mut sensors, &mut hitboxes, &mut hurtboxes, 1);
    assert_eq!(sensors, vec![AttackSensor { id: 20, owner: 2, offset_x: 42 }]);
    assert_eq!(hitboxes, vec![hit(200, 20), hit(900, 99)]);
    assert_eq!(hurtboxes, vec![CharacterHitbox { id: 2000, owner: 2 }]);
    clean_up_dead_bodies(&mut sensors, &mut hitboxes, &mut hurtboxes, 1);
    assert_eq!(sensors.len(), 1);
    assert_eq!(hitboxes.len(), 2);
    assert_eq!(hurtboxes.len(), 1);
}

#[test]
fn dead_spectator_is_not_taken_over() {
    let mut cast = vec![
        ss_at(10, Role::CrowdMember, 1, 0),
        ss_at(11, Role::CrowdMember, 50, 0),
    ];
    cast[0].dead = true;
    cast[0].state = CharacterState::Dead;
    assert_eq!(nearest_crowd_member(&cast, Position { x: 0, y: 0 }), Some(1));
    cast[1].dead = true;
    cast[1].state = CharacterState::Dead;
    assert_eq!(nearest_crowd_member(&cast, Position { x: 0, y: 0 }), None);
}
