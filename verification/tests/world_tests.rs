use grandstand_gauntlet::animations::{Archetype, CharacterState};
use grandstand_gauntlet::behaviors::{BossAction, BossActions, BossBehavior, Execution};
use grandstand_gauntlet::character::{
    AttackCooldown, Character, Hp, Invulnerable, Position, Role, Steering,
};
use grandstand_gauntlet::collision::{DamageHitEvent, Overlap};
use grandstand_gauntlet::damage::HitOutcome;
use grandstand_gauntlet::hitbox::{
    ArmingFault, ArmingWarning, AttackHitbox, AttackSensor, CharacterHitbox,
};
use grandstand_gauntlet::player::PlayerInput;
use grandstand_gauntlet::soul_shift::{
    BossDeathEvent, CreatePlayerEvent, PlayerDeathEvent, PossesionCount, SoulShift,
    SoulShiftEvent,
};
use grandstand_gauntlet::spawn::{BossKit, PlayerKit};
use grandstand_gauntlet::timing::Countdown;
use grandstand_gauntlet::world::{
    archetype, find_alive, LifecycleEvent, Passing, PhaseFinished, TickInput, World,
};

const W_PLAYER: u64 = 1;
const W_BOSS: u64 = 2;

fn w_player_kit(base: u64) -> PlayerKit {
    PlayerKit {
        hurtbox: base,
        bottom_whip_sensor: base + 1,
        bottom_whip_hitbox: base + 2,
        front_whip_sensor: base + 3,
        front_whip_hitbox: base + 4,
    }
}

fn w_boss_kit() -> BossKit {
    BossKit {
        hurtbox: 200,
        smash_top_sensor: 201,
        smash_top_hitbox: 202,
        smash_bottom_sensor: 203,
        smash_bottom_hitbox: 204,
        fallen_angel_sensor: 205,
        fallen_angel_hitbox: 206,
    }
}

fn w_quiet() -> TickInput {
    TickInput {
        delta_ms: 16,
        player: PlayerInput {
            attack_pressed: false,
            attack_released: false,
            left: false,
            right: false,
            dash: false,
            hyper_dash: false,
            suicide: false,
        },
        proximity: false,
        backstroke: false,
        player_velocity_x: 0,
        overlaps: Vec::new(),
        finished: Vec::new(),
    }
}

/// A fight with the player at x = 0, the boss at x = 300 and three
/// spectators, all countdowns of the spawn cleared.
fn w_arena() -> World {
    let mut world = World::new();
    assert!(world.spawn_first_player(W_PLAYER, Position { x: 0, y: -60 }, w_player_kit(100)));
    assert!(world.setup_boss(W_BOSS, Position { x: 300, y: -60 }, w_boss_kit()));
    for (id, x) in [(10u64, -500), (11u64, 80), (12u64, 700)] {
        assert!(world.spawn(Character::spawn(id, Role::CrowdMember, 40, Position { x, y: -55 })));
    }
    world.characters[0].invulnerable = None;
    world.characters[1].cooldown = None;
    world
}

fn w_player(world: &World) -> Character {
    world.characters[find_alive(&world.characters, Role::Player).unwrap()]
}

fn w_boss(world: &World) -> Character {
    world.characters[1]
}

fn w_arming_is_correct(world: &World) -> bool {
    world.hitboxes.iter().all(|hitbox| {
        let owner = world
            .sensors
            .iter()
            .find(|sensor| sensor.id == hitbox.sensor)
            .and_then(|sensor| world.characters.iter().find(|c| c.id == sensor.owner));
        let expected = match owner {
            Some(c) if c.role == Role::Player => matches!(
                c.state,
                CharacterState::Attack
                    | CharacterState::SecondAttack
                    | CharacterState::ChargedAttack
            ),
            Some(c) if c.role == Role::Boss => {
                (hitbox.smash && !hitbox.fallen_angel && c.state == CharacterState::Attack)
                    || (hitbox.fallen_angel
                        && !hitbox.smash
                        && c.state == CharacterState::SecondAttack)
            }
            _ => false,
        };
        hitbox.armed == expected
    })
}

#[test]
fn new_world_is_empty_and_the_boss_chases() {
    let world = World::new();
    assert!(world.characters.is_empty());
    assert!(world.sensors.is_empty());
    assert!(world.hitboxes.is_empty());
    assert!(world.hurtboxes.is_empty());
    assert_eq!(world.boss_actions, BossActions(None));
    assert_eq!(world.boss_behavior, BossBehavior::Chase);
    assert_eq!(world.boss_wait, None);
    assert_eq!(world.possesion_count, PossesionCount(0));
}

#[test]
fn archetype_follows_the_role() {
    assert_eq!(archetype(Role::Player), Archetype::Player);
    assert_eq!(archetype(Role::Vacant), Archetype::Player);
    assert_eq!(archetype(Role::Boss), Archetype::Boss);
    assert_eq!(archetype(Role::CrowdMember), Archetype::Spectator);
}

#[test]
fn first_player_enters_at_full_health_with_its_shapes() {
    let mut world = World::new();
    assert!(world.spawn_first_player(W_PLAYER, Position { x: -1080, y: -60 }, w_player_kit(100)));
    let player = world.characters[0];
    assert_eq!(player.role, Role::Player);
    assert_eq!(player.hp, Hp { current: 40, max: 40 });
    assert_eq!(player.state, CharacterState::Idle);
    assert_eq!(
        player.invulnerable,
        Some(Invulnerable(Countdown { elapsed_ms: 0, duration_ms: 10000 }))
    );
    assert_eq!(world.hurtboxes, vec![CharacterHitbox { id: 100, owner: W_PLAYER }]);
    assert_eq!(
        world.sensors,
        vec![
            AttackSensor { id: 101, owner: W_PLAYER, offset_x: 10 },
            AttackSensor { id: 103, owner: W_PLAYER, offset_x: 30 },
        ]
    );
    let whip = |id, sensor| AttackHitbox {
        id,
        sensor,
        damage: 10,
        armed: false,
        smash: false,
        fallen_angel: false,
    };
    assert_eq!(world.hitboxes, vec![whip(102, 101), whip(104, 103)]);
    assert!(!world.spawn_first_player(W_PLAYER, Position { x: 0, y: 0 }, w_player_kit(500)));
    assert_eq!(world.characters.len(), 1);
    assert_eq!(world.hitboxes.len(), 2);
}

#[test]
fn boss_enters_with_a_thousand_hit_points_and_three_hitboxes() {
    let mut world = World::new();
    assert!(world.setup_boss(W_BOSS, Position { x: 0, y: -60 }, w_boss_kit()));
    let boss = world.characters[0];
    assert_eq!(boss.role, Role::Boss);
    assert_eq!(boss.hp, Hp { current: 1000, max: 1000 });
    assert_eq!(boss.state, CharacterState::Idle);
    assert_eq!(boss.cooldown, None);
    assert_eq!(boss.invulnerable, None);
    assert_eq!(world.hurtboxes, vec![CharacterHitbox { id: 200, owner: W_BOSS }]);
    assert_eq!(
        world.sensors,
        vec![
            AttackSensor { id: 201, owner: W_BOSS, offset_x: 42 },
            AttackSensor { id: 203, owner: W_BOSS, offset_x: 20 },
            AttackSensor { id: 205, owner: W_BOSS, offset_x: 0 },
        ]
    );
    let hit = |id, sensor, smash, fallen_angel| AttackHitbox {
        id,
        sensor,
        damage: 10,
        armed: false,
        smash,
        fallen_angel,
    };
    assert_eq!(
        world.hitboxes,
        vec![
            hit(202, 201, true, false),
            hit(204, 203, true, false),
            hit(206, 205, false, true),
        ]
    );
    assert!(!world.setup_boss(W_BOSS, Position { x: 0, y: 0 }, w_boss_kit()));
    assert_eq!(world.characters.len(), 1);
}

#[test]
fn identity_that_is_taken_is_turned_away() {
    let mut world = w_arena();
    let cast = world.characters.clone();
    assert!(!world.spawn(Character::spawn(10, Role::CrowdMember, 40, Position { x: 0, y: 0 })));
    assert_eq!(world.characters, cast);
}

#[test]
fn quiet_tick_changes_nothing_but_time() {
    let mut world = w_arena();
    world.characters[0].invulnerable = Some(Invulnerable(Countdown::from_millis(100)));
    let report = world.tick(&w_quiet());
    assert!(report.hits.is_empty());
    assert!(report.outcomes.is_empty());
    assert!(report.passings.is_empty());
    assert!(report.warnings.is_empty());
    assert_eq!(report.upkeep.len(), 5);
    assert_eq!(
        w_player(&world).invulnerable,
        Some(Invulnerable(Countdown { elapsed_ms: 16, duration_ms: 100 }))
    );
    assert_eq!(w_player(&world).state, CharacterState::Idle);
    assert_eq!(w_boss(&world).state, CharacterState::Run);
    assert_eq!(report.boss.unwrap().steering, Steering::Advance(-1));
    assert_eq!(report.player.unwrap().steering, Steering::Advance(0));
    assert!(w_arming_is_correct(&world));
}

#[test]
fn light_attack_on_the_boss_takes_ten_hit_points_and_makes_it_flinch() {
    let mut world = w_arena();
    world.boss_behavior = BossBehavior::NeedSomeSpace;
    world.characters[0].state = CharacterState::Attack;
    let input = TickInput {
        overlaps: vec![Overlap { hitbox: 104, hurtbox: 200 }],
        ..w_quiet()
    };
    let report = world.tick(&input);
    assert_eq!(report.hits, vec![DamageHitEvent { attack_hitbox: 104, target: W_BOSS }]);
    assert_eq!(report.outcomes, vec![HitOutcome::Wounded]);
    assert!(report.passings.is_empty());
    let boss = w_boss(&world);
    assert_eq!(boss.hp, Hp { current: 990, max: 1000 });
    assert_eq!(
        boss.invulnerable,
        Some(Invulnerable(Countdown { elapsed_ms: 0, duration_ms: 500 }))
    );
    assert_eq!(boss.state, CharacterState::Hit);
    assert!(w_arming_is_correct(&world));

    // While the window is open the same overlap does nothing.
    let report = world.tick(&input);
    assert!(report.hits.is_empty());
    assert_eq!(w_boss(&world).hp.current, 990);

    // The flinch gives way to idling when its strip has been played.
    let done = TickInput {
        finished: vec![PhaseFinished { character: W_BOSS, phase: CharacterState::Hit }],
        ..w_quiet()
    };
    world.tick(&done);
    assert_eq!(w_boss(&world).state, CharacterState::Idle);
    assert_eq!(w_boss(&world).hp.current, 990);
}

#[test]
fn window_that_closes_in_a_tick_still_protects_in_that_tick() {
    let mut world = w_arena();
    world.boss_behavior = BossBehavior::NeedSomeSpace;
    world.characters[0].state = CharacterState::Attack;
    world.characters[1].invulnerable =
        Some(Invulnerable(Countdown { elapsed_ms: 490, duration_ms: 500 }));
    let input = TickInput {
        overlaps: vec![Overlap { hitbox: 104, hurtbox: 200 }],
        ..w_quiet()
    };
    let report = world.tick(&input);
    assert!(report.hits.is_empty());
    assert_eq!(w_boss(&world).invulnerable, None);
    assert_eq!(w_boss(&world).hp.current, 1000);
    let report = world.tick(&input);
    assert_eq!(report.hits.len(), 1);
    assert_eq!(w_boss(&world).hp.current, 990);
}

#[test]
fn lethal_hit_on_the_player_moves_its_soul_to_the_nearest_spectator() {
    let mut world = w_arena();
    world.boss_actions = BossActions(Some(vec![BossAction::Smash]));
    world.characters[1].state = CharacterState::Attack;
    world.characters[0].hp.current = 5;
    let input = TickInput {
        overlaps: vec![
            Overlap { hitbox: 202, hurtbox: 100 },
            Overlap { hitbox: 204, hurtbox: 100 },
        ],
        ..w_quiet()
    };
    let report = world.tick(&input);
    assert_eq!(report.hits, vec![DamageHitEvent { attack_hitbox: 202, target: W_PLAYER }]);
    assert_eq!(report.outcomes, vec![HitOutcome::PlayerSlain]);
    assert_eq!(
        report.passings,
        vec![Passing::Soul(SoulShift::Shifted(PlayerDeathEvent(W_PLAYER), CreatePlayerEvent(11)))]
    );
    let body = world.characters[0];
    assert_eq!(body.id, W_PLAYER);
    assert_eq!(body.hp.current, 0);
    assert_eq!(body.role, Role::Vacant);
    assert_eq!(body.state, CharacterState::Dead);
    assert!(body.dead);
    assert!(!body.soul_shifting);
    assert_eq!(body.position, Position { x: 0, y: -65 });
    assert_eq!(world.possesion_count, PossesionCount(1));
    // The shapes of the old body are gone, those of the boss are not.
    assert_eq!(world.hurtboxes, vec![CharacterHitbox { id: 200, owner: W_BOSS }]);
    assert!(world.sensors.iter().all(|sensor| sensor.owner == W_BOSS));
    assert_eq!(world.hitboxes.len(), 3);
    // The nearest spectator is the player now.
    let heir = world.characters[3];
    assert_eq!(heir.id, 11);
    assert_eq!(heir.role, Role::Player);
    assert_eq!(heir.hp, Hp { current: 40, max: 40 });
    assert!(!heir.soul_shifting);
    assert_eq!(heir.position, Position { x: 80, y: -60 });
    assert_eq!(
        heir.invulnerable,
        Some(Invulnerable(Countdown { elapsed_ms: 0, duration_ms: 10000 }))
    );
    assert_eq!(w_player(&world).id, 11);
    // The dead body stays dead whatever happens next.
    world.equip_player(11, w_player_kit(300));
    let again = TickInput {
        overlaps: vec![Overlap { hitbox: 202, hurtbox: 100 }],
        finished: vec![PhaseFinished { character: W_PLAYER, phase: CharacterState::Dead }],
        player: PlayerInput { left: true, ..w_quiet().player },
        ..w_quiet()
    };
    let report = world.tick(&again);
    assert!(report.hits.is_empty());
    assert_eq!(world.characters[0], body);
    assert_eq!(world.possesion_count, PossesionCount(1));
    assert_eq!(w_player(&world).state, CharacterState::Run);
}

#[test]
fn two_hitboxes_of_the_boss_on_the_player_wound_it_once() {
    let mut world = w_arena();
    world.boss_actions = BossActions(Some(vec![BossAction::Smash]));
    world.characters[1].state = CharacterState::Attack;
    let input = TickInput {
        overlaps: vec![
            Overlap { hitbox: 204, hurtbox: 100 },
            Overlap { hitbox: 202, hurtbox: 100 },
        ],
        ..w_quiet()
    };
    let report = world.tick(&input);
    assert_eq!(report.hits, vec![DamageHitEvent { attack_hitbox: 202, target: W_PLAYER }]);
    assert_eq!(report.outcomes, vec![HitOutcome::Wounded]);
    let player = w_player(&world);
    assert_eq!(player.hp.current, 30);
    assert_eq!(
        player.invulnerable,
        Some(Invulnerable(Countdown { elapsed_ms: 0, duration_ms: 2000 }))
    );
    assert_eq!(player.state, CharacterState::Hit);
}

#[test]
fn fallen_angel_hitbox_is_not_armed_during_a_smash() {
    let mut world = w_arena();
    world.boss_actions = BossActions(Some(vec![BossAction::Smash]));
    world.characters[1].state = CharacterState::Attack;
    let input = TickInput {
        overlaps: vec![Overlap { hitbox: 206, hurtbox: 100 }],
        ..w_quiet()
    };
    let report = world.tick(&input);
    assert!(report.hits.is_empty());
    assert_eq!(w_player(&world).hp.current, 40);
    assert!(world.hitboxes[2].armed);
    assert!(world.hitboxes[3].armed);
    assert!(!world.hitboxes[4].armed);
}

#[test]
fn boss_in_range_queues_a_smash_winds_up_and_starts_its_cooldown() {
    let mut world = w_arena();
    let input = TickInput { proximity: true, ..w_quiet() };
    let report = world.tick(&input);
    assert_eq!(world.boss_actions, BossActions(Some(vec![BossAction::Smash])));
    assert_eq!(w_boss(&world).state, CharacterState::TransitionToCharge);
    assert_eq!(
        w_boss(&world).cooldown,
        Some(AttackCooldown(Countdown { elapsed_ms: 0, duration_ms: 5000 }))
    );
    assert_eq!(world.boss_behavior, BossBehavior::Chase);
    assert_eq!(
        report.boss.unwrap().execution,
        Some(Execution::Started(BossAction::Smash))
    );
    assert!(report.hits.is_empty());

    // The swing plays out: wind-up, strike, done. The cooldown runs on
    // whether the swing connects or not.
    let wound_up = TickInput {
        proximity: true,
        finished: vec![PhaseFinished {
            character: W_BOSS,
            phase: CharacterState::TransitionToCharge,
        }],
        ..w_quiet()
    };
    world.tick(&wound_up);
    assert_eq!(w_boss(&world).state, CharacterState::Attack);
    assert_eq!(world.boss_actions, BossActions(Some(vec![BossAction::Smash])));
    assert!(world.hitboxes[2].armed);
    assert!(world.hitboxes[3].armed);
    assert!(!world.hitboxes[4].armed);
    let struck = TickInput {
        proximity: true,
        finished: vec![PhaseFinished { character: W_BOSS, phase: CharacterState::Attack }],
        ..w_quiet()
    };
    let report = world.tick(&struck);
    assert_eq!(world.boss_actions, BossActions(None));
    assert_eq!(world.boss_behavior, BossBehavior::Chase);
    assert_eq!(report.boss.unwrap().execution, Some(Execution::Reverted));
    assert_eq!(
        w_boss(&world).cooldown,
        Some(AttackCooldown(Countdown { elapsed_ms: 32, duration_ms: 5000 }))
    );
    assert!(w_arming_is_correct(&world));
    // Still in range, but on cooldown: no new smash.
    world.tick(&input);
    assert_eq!(world.boss_actions, BossActions(None));
}

#[test]
fn boss_on_cooldown_or_busy_does_not_queue_a_smash() {
    let mut world = w_arena();
    world.characters[1].cooldown = Some(AttackCooldown(Countdown::from_millis(5000)));
    world.tick(&TickInput { proximity: true, ..w_quiet() });
    assert_eq!(world.boss_actions, BossActions(None));

    let mut world = w_arena();
    world.boss_behavior = BossBehavior::CounterPary;
    world.boss_actions = BossActions(Some(vec![BossAction::Wait(1000)]));
    world.boss_wait = Some(Countdown::from_millis(1000));
    world.tick(&TickInput { proximity: true, ..w_quiet() });
    assert_eq!(world.boss_actions, BossActions(Some(vec![BossAction::Wait(1000)])));
    assert_eq!(world.boss_wait, Some(Countdown { elapsed_ms: 16, duration_ms: 1000 }));
}

#[test]
fn player_that_runs_off_is_dashed_after() {
    let mut world = w_arena();
    let input = TickInput { backstroke: true, player_velocity_x: -9, ..w_quiet() };
    let report = world.tick(&input);
    assert_eq!(
        world.boss_actions,
        BossActions(Some(vec![BossAction::Dash, BossAction::Smash]))
    );
    assert_eq!(world.boss_behavior, BossBehavior::DashInAttack);
    assert_eq!(w_boss(&world).state, CharacterState::TransitionToDash);
    assert_eq!(report.boss.unwrap().execution, Some(Execution::Started(BossAction::Dash)));

    let ready = TickInput {
        finished: vec![PhaseFinished {
            character: W_BOSS,
            phase: CharacterState::TransitionToDash,
        }],
        ..w_quiet()
    };
    world.tick(&ready);
    assert_eq!(w_boss(&world).state, CharacterState::Dash);
    assert!(w_boss(&world).dash.is_some());
    let dashed = TickInput {
        finished: vec![PhaseFinished { character: W_BOSS, phase: CharacterState::Dash }],
        ..w_quiet()
    };
    let report = world.tick(&dashed);
    assert_eq!(world.boss_actions, BossActions(Some(vec![BossAction::Smash])));
    assert_eq!(w_boss(&world).state, CharacterState::TransitionToCharge);
    assert_eq!(world.boss_behavior, BossBehavior::DashInAttack);
    assert_eq!(report.boss.unwrap().execution, Some(Execution::Started(BossAction::Smash)));
}

#[test]
fn charge_resolves_by_how_long_the_button_was_held() {
    let press = TickInput {
        player: PlayerInput { attack_pressed: true, ..w_quiet().player },
        ..w_quiet()
    };
    let release = TickInput {
        player: PlayerInput { attack_released: true, ..w_quiet().player },
        ..w_quiet()
    };

    let mut world = w_arena();
    world.tick(&press);
    assert_eq!(w_player(&world).state, CharacterState::TransitionToCharge);
    world.tick(&TickInput { delta_ms: 400, ..w_quiet() });
    let report = world.tick(&TickInput { delta_ms: 99, ..release_copy(&release) });
    assert_eq!(w_player(&world).state, CharacterState::Attack);
    assert!(report.player.unwrap().halt);
    assert!(world.hitboxes[0].armed);
    assert!(world.hitboxes[1].armed);

    let mut world = w_arena();
    world.tick(&press);
    world.tick(&TickInput {
        delta_ms: 400,
        finished: vec![PhaseFinished {
            character: W_PLAYER,
            phase: CharacterState::TransitionToCharge,
        }],
        ..w_quiet()
    });
    assert_eq!(w_player(&world).state, CharacterState::Charge);
    world.tick(&TickInput { delta_ms: 100, ..release_copy(&release) });
    assert_eq!(w_player(&world).state, CharacterState::ChargedAttack);
    assert!(world.hitboxes[0].armed);
}

fn release_copy(input: &TickInput) -> TickInput {
    TickInput {
        delta_ms: input.delta_ms,
        player: input.player,
        proximity: input.proximity,
        backstroke: input.backstroke,
        player_velocity_x: input.player_velocity_x,
        overlaps: input.overlaps.clone(),
        finished: input.finished.clone(),
    }
}

#[test]
fn hit_on_a_target_in_the_middle_of_a_soul_shift_is_not_emitted() {
    let mut world = w_arena();
    world.boss_actions = BossActions(Some(vec![BossAction::Smash]));
    world.characters[1].state = CharacterState::Attack;
    world.characters[0].soul_shifting = true;
    let input = TickInput {
        overlaps: vec![Overlap { hitbox: 202, hurtbox: 100 }],
        ..w_quiet()
    };
    let report = world.tick(&input);
    assert!(report.hits.is_empty());
    assert_eq!(world.characters[0].hp.current, 40);
}

#[test]
fn player_that_dashes_in_the_tick_is_spared_by_the_hit() {
    let mut world = w_arena();
    world.boss_actions = BossActions(Some(vec![BossAction::Smash]));
    world.characters[1].state = CharacterState::Attack;
    let input = TickInput {
        player: PlayerInput { dash: true, ..w_quiet().player },
        overlaps: vec![Overlap { hitbox: 202, hurtbox: 100 }],
        ..w_quiet()
    };
    let report = world.tick(&input);
    assert_eq!(report.hits, vec![DamageHitEvent { attack_hitbox: 202, target: W_PLAYER }]);
    assert_eq!(report.outcomes, vec![HitOutcome::Spared]);
    assert_eq!(w_player(&world).hp.current, 40);
    assert_eq!(w_player(&world).state, CharacterState::Idle);
}

#[test]
fn lethal_hit_on_the_boss_kills_it_once() {
    let mut world = w_arena();
    world.boss_behavior = BossBehavior::NeedSomeSpace;
    world.characters[0].state = CharacterState::Attack;
    world.characters[1].hp.current = 10;
    let input = TickInput {
        overlaps: vec![Overlap { hitbox: 102, hurtbox: 200 }],
        ..w_quiet()
    };
    let report = world.tick(&input);
    assert_eq!(report.outcomes, vec![HitOutcome::BossSlain]);
    assert_eq!(report.passings, vec![Passing::Boss(true)]);
    let boss = w_boss(&world);
    assert!(boss.dead);
    assert_eq!(boss.state, CharacterState::Dead);
    assert_eq!(boss.hp.current, 0);
    assert_eq!(boss.role, Role::Boss);
    assert_eq!(world.hurtboxes, vec![CharacterHitbox { id: 100, owner: W_PLAYER }]);
    assert_eq!(world.hitboxes.len(), 2);
    assert_eq!(world.bury(LifecycleEvent::BossDeath(BossDeathEvent(W_BOSS))), Passing::Boss(false));
    assert_eq!(w_boss(&world), boss);
    let report = world.tick(&TickInput { proximity: true, ..w_quiet() });
    assert_eq!(report.boss, None);
    assert_eq!(w_boss(&world), boss);
    assert_eq!(world.boss_actions, BossActions(None));
}

#[test]
fn giving_up_the_body_moves_the_soul_on() {
    let mut world = w_arena();
    let input = TickInput {
        player: PlayerInput { suicide: true, ..w_quiet().player },
        ..w_quiet()
    };
    let report = world.tick(&input);
    assert_eq!(report.player.unwrap().soul_shift, Some(SoulShiftEvent(W_PLAYER)));
    assert_eq!(
        report.passings,
        vec![Passing::Soul(SoulShift::Shifted(PlayerDeathEvent(W_PLAYER), CreatePlayerEvent(11)))]
    );
    assert!(world.characters[0].dead);
    assert_eq!(w_player(&world).id, 11);
    assert_eq!(world.possesion_count, PossesionCount(1));
}

#[test]
fn last_body_has_no_soul_shift_left() {
    let mut world = World::new();
    assert!(world.spawn_first_player(W_PLAYER, Position { x: 0, y: -60 }, w_player_kit(100)));
    let input = TickInput {
        player: PlayerInput { suicide: true, ..w_quiet().player },
        ..w_quiet()
    };
    let report = world.tick(&input);
    assert_eq!(report.passings, vec![Passing::Soul(SoulShift::NoLivesLeft)]);
    assert_eq!(world.characters[0].role, Role::Player);
    assert!(!world.characters[0].dead);
    assert_eq!(world.characters[0].hp.current, 0);
    assert_eq!(world.possesion_count, PossesionCount(0));
    assert_eq!(world.hitboxes.len(), 2);
}

#[test]
fn faulty_hitboxes_are_reported_by_the_tick() {
    let mut world = w_arena();
    world.hitboxes.push(AttackHitbox {
        id: 900,
        sensor: 999,
        damage: 10,
        armed: true,
        smash: false,
        fallen_angel: false,
    });
    world.hitboxes.push(AttackHitbox {
        id: 901,
        sensor: 201,
        damage: 10,
        armed: true,
        smash: true,
        fallen_angel: true,
    });
    world.hitboxes.push(AttackHitbox {
        id: 902,
        sensor: 201,
        damage: 10,
        armed: true,
        smash: false,
        fallen_angel: false,
    });
    let input = TickInput {
        overlaps: vec![
            Overlap { hitbox: 900, hurtbox: 100 },
            Overlap { hitbox: 901, hurtbox: 100 },
            Overlap { hitbox: 902, hurtbox: 100 },
        ],
        ..w_quiet()
    };
    let report = world.tick(&input);
    assert_eq!(
        report.warnings,
        vec![
            ArmingWarning { hitbox: 900, fault: ArmingFault::Orphan },
            ArmingWarning { hitbox: 901, fault: ArmingFault::DoubleIndexed },
            ArmingWarning { hitbox: 902, fault: ArmingFault::NonIndexed },
        ]
    );
    assert!(report.hits.is_empty());
    assert!(world.hitboxes.iter().all(|hitbox| !hitbox.armed));
}

#[test]
fn ticks_keep_hit_points_in_range_and_the_queue_in_step() {
    let mut world = w_arena();
    let mut seed: u64 = 0x9e3779b97f4a7c15;
    let mut next = move || {
        seed ^= seed << 13;
        seed ^= seed >> 7;
        seed ^= seed << 17;
        seed
    };
    let phases = [
        CharacterState::Idle,
        CharacterState::Run,
        CharacterState::Hit,
        CharacterState::Attack,
        CharacterState::TransitionToCharge,
        CharacterState::TransitionToDash,
        CharacterState::Dash,
        CharacterState::ChargedAttack,
    ];
    let hitbox_ids = [102u64, 104, 202, 204, 206, 302, 304];
    let hurtbox_ids = [100u64, 200, 300];
    for round in 0..400 {
        let bits = next();
        let mut overlaps = Vec::new();
        for (h, hitbox) in hitbox_ids.iter().enumerate() {
            for (t, hurtbox) in hurtbox_ids.iter().enumerate() {
                if (next() >> (h + t)) & 3 == 0 {
                    overlaps.push(Overlap { hitbox: *hitbox, hurtbox: *hurtbox });
                }
            }
        }
        let player_id = w_player_or(&world, W_PLAYER);
        let input = TickInput {
            delta_ms: (bits % 700) as u32,
            player: PlayerInput {
                attack_pressed: bits & 0x100 != 0,
                attack_released: bits & 0x200 != 0,
                left: bits & 0x400 != 0,
                right: bits & 0x800 != 0,
                dash: bits & 0x1000 != 0,
                hyper_dash: bits & 0x2000 != 0,
                suicide: bits & 0xff_0000 == 0,
            },
            proximity: bits & 0x4000 != 0,
            backstroke: bits & 0x8000 != 0,
            player_velocity_x: ((bits >> 32) % 7) as i32 - 3,
            overlaps,
            finished: vec![
                PhaseFinished { character: W_BOSS, phase: phases[(bits >> 40) as usize % 8] },
                PhaseFinished { character: player_id, phase: phases[(bits >> 44) as usize % 8] },
            ],
        };
        let before = world.characters.clone();
        let report = world.tick(&input);
        assert_eq!(world.characters.len(), before.len());
        for (i, c) in world.characters.iter().enumerate() {
            assert_eq!(c.id, before[i].id);
            assert!(0 <= c.hp.current && c.hp.current <= c.hp.max, "round {}", round);
            if c.dead {
                assert_eq!(c.state, CharacterState::Dead);
            }
            if before[i].dead {
                assert_eq!(*c, before[i]);
            }
        }
        for (k, hit) in report.hits.iter().enumerate() {
            let target = before.iter().find(|c| c.id == hit.target).unwrap();
            assert!(target.invulnerable.is_none() && !target.dead && !target.soul_shifting);
            assert!(report.hits[..k].iter().all(|earlier| earlier.target != hit.target));
        }
        if world.boss_actions.is_idle() {
            assert_eq!(world.boss_behavior, BossBehavior::Chase);
        }
        assert!(w_arming_is_correct(&world));
        let heir = w_player_or(&world, 0);
        if heir != 0 && heir != player_id {
            world.equip_player(heir, w_player_kit(300));
        }
    }
}

fn w_player_or(world: &World, otherwise: u64) -> u64 {
    match find_alive(&world.characters, Role::Player) {
        Some(p) => world.characters[p].id,
        None => otherwise,
    }
}

#[test]
fn death_that_is_asked_for_again_changes_nothing() {
    let mut world = w_arena();
    world.characters[0].hp.current = 0;
    let notice = LifecycleEvent::SoulShift(SoulShiftEvent(W_PLAYER));
    assert_eq!(
        world.bury(notice),
        Passing::Soul(SoulShift::Shifted(PlayerDeathEvent(W_PLAYER), CreatePlayerEvent(11)))
    );
    let cast = world.characters.clone();
    let hitboxes = world.hitboxes.clone();
    assert_eq!(world.possesion_count, PossesionCount(1));
    assert_eq!(world.bury(notice), Passing::Soul(SoulShift::Ignored));
    assert_eq!(world.characters, cast);
    assert_eq!(world.hitboxes, hitboxes);
    assert_eq!(world.possesion_count, PossesionCount(1));

    world.characters[1].hp.current = 0;
    let notice = LifecycleEvent::BossDeath(BossDeathEvent(W_BOSS));
    assert_eq!(world.bury(notice), Passing::Boss(true));
    let cast = world.characters.clone();
    assert_eq!(world.bury(notice), Passing::Boss(false));
    assert_eq!(world.characters, cast);
    assert_eq!(world.bury(LifecycleEvent::BossDeath(BossDeathEvent(999))), Passing::Boss(false));
    assert_eq!(world.bury(LifecycleEvent::BossDeath(BossDeathEvent(W_PLAYER))), Passing::Boss(false));
    assert_eq!(world.characters, cast);
}

#[test]
fn freshly_spawned_boss_strikes_at_once() {
    let mut world = World::new();
    assert!(world.spawn_first_player(W_PLAYER, Position { x: 0, y: -60 }, w_player_kit(100)));
    assert!(world.setup_boss(W_BOSS, Position { x: 30, y: -60 }, w_boss_kit()));
    world.tick(&TickInput { proximity: true, ..w_quiet() });
    assert_eq!(world.boss_actions, BossActions(Some(vec![BossAction::Smash])));
    assert_eq!(w_boss(&world).state, CharacterState::TransitionToCharge);
    assert_eq!(
        w_boss(&world).cooldown,
        Some(AttackCooldown(Countdown { elapsed_ms: 0, duration_ms: 5000 }))
    );
}

#[test]
fn test_key_costs_the_player_ten_hit_points() {
    let mut world = w_arena();
    let report = world.bam_the_player(false);
    assert!(report.hits.is_empty());
    assert!(report.outcomes.is_empty());
    assert!(report.passings.is_empty());
    assert_eq!(w_player(&world).hp.current, 40);

    let report = world.bam_the_player(true);
    assert_eq!(report.hits, vec![DamageHitEvent { attack_hitbox: 202, target: W_PLAYER }]);
    assert_eq!(report.outcomes, vec![HitOutcome::Wounded]);
    assert!(report.passings.is_empty());
    let player = w_player(&world);
    assert_eq!(player.hp.current, 30);
    assert_eq!(player.state, CharacterState::Hit);
    assert_eq!(
        player.invulnerable,
        Some(Invulnerable(Countdown { elapsed_ms: 0, duration_ms: 2000 }))
    );
    assert_eq!(w_boss(&world).hp.current, 1000);

    // Invulnerable now: the key does nothing.
    let report = world.bam_the_player(true);
    assert!(report.hits.is_empty());
    assert_eq!(w_player(&world).hp.current, 30);
}

#[test]
fn test_key_can_strike_the_player_down() {
    let mut world = w_arena();
    world.characters[0].hp.current = 10;
    let report = world.bam_the_player(true);
    assert_eq!(report.outcomes, vec![HitOutcome::PlayerSlain]);
    assert_eq!(
        report.passings,
        vec![Passing::Soul(SoulShift::Shifted(PlayerDeathEvent(W_PLAYER), CreatePlayerEvent(11)))]
    );
    assert!(world.characters[0].dead);
    assert_eq!(world.characters[0].state, CharacterState::Dead);
    assert_eq!(w_player(&world).id, 11);
    assert!(w_arming_is_correct(&world));
}

#[test]
fn hit_names_one_hitbox_and_it_is_somebody_elses() {
    let mut world = w_arena();
    world.boss_actions = BossActions(Some(vec![BossAction::Smash]));
    world.characters[0].state = CharacterState::Attack;
    world.characters[1].state = CharacterState::Attack;
    let input = TickInput {
        overlaps: vec![
            Overlap { hitbox: 102, hurtbox: 100 },
            Overlap { hitbox: 102, hurtbox: 200 },
            Overlap { hitbox: 204, hurtbox: 200 },
            Overlap { hitbox: 204, hurtbox: 100 },
        ],
        ..w_quiet()
    };
    let report = world.tick(&input);
    assert_eq!(
        report.hits,
        vec![
            DamageHitEvent { attack_hitbox: 204, target: W_PLAYER },
            DamageHitEvent { attack_hitbox: 102, target: W_BOSS },
        ]
    );
    for hit in report.hits.iter() {
        let named: Vec<&AttackHitbox> =
            world.hitboxes.iter().filter(|hitbox| hitbox.id == hit.attack_hitbox).collect();
        assert_eq!(named.len(), 1);
        let sensor = world.sensors.iter().find(|sensor| sensor.id == named[0].sensor).unwrap();
        assert_ne!(sensor.owner, hit.target);
    }
}
