use bevy::app::App;
use bevy::ecs::entity::Entity;
use bevy::math::Vec2;
use bevy::transform::components::Transform;
use bevy::transform::{TransformBundle, TransformPlugin};
use bevy::MinimalPlugins;
use bevy_rapier2d::dynamics::RigidBody;
use bevy_rapier2d::geometry::{Collider, Sensor};
use bevy_rapier2d::plugin::{
    NoUserData, RapierConfiguration, RapierContext, RapierPhysicsPlugin, TimestepMode,
};
use grandstand_gauntlet::character::{Character, Position, Role};
use grandstand_gauntlet::collision::{attack_collision, DamageHitEvent, Overlap};
use grandstand_gauntlet::hitbox::{AttackHitbox, AttackSensor, CharacterHitbox};
use grandstand_gauntlet::physics::{collect_overlaps, reported, shapes_overlap};

#[test]
fn engine_that_knows_no_shapes_reports_no_overlaps() {
    let context = RapierContext::default();
    assert!(!shapes_overlap(&context, 1, 2));
    assert!(!shapes_overlap(&context, Entity::from_raw(7).to_bits(), Entity::from_raw(7).to_bits()));
    let hitboxes = vec![
        AttackHitbox { id: 1, sensor: 10, damage: 10, armed: true, smash: false, fallen_angel: false },
        AttackHitbox { id: 2, sensor: 10, damage: 10, armed: false, smash: false, fallen_angel: false },
    ];
    let hurtboxes = vec![CharacterHitbox { id: 3, owner: 4 }, CharacterHitbox { id: 5, owner: 6 }];
    assert!(collect_overlaps(&context, &hitboxes, &hurtboxes).is_empty());
    assert!(collect_overlaps(&context, &Vec::new(), &hurtboxes).is_empty());
    assert!(collect_overlaps(&context, &hitboxes, &Vec::new()).is_empty());
}

#[test]
fn engine_reports_the_shapes_that_intersect() {
    let mut app = App::new();
    app.insert_resource(RapierConfiguration {
        gravity: Vec2::ZERO,
        timestep_mode: TimestepMode::Fixed { dt: 1.0 / 60.0, substeps: 1 },
        ..RapierConfiguration::default()
    });
    app.add_plugins(MinimalPlugins)
        .add_plugin(TransformPlugin)
        .add_plugin(RapierPhysicsPlugin::<NoUserData>::default());
    let whip = app
        .world
        .spawn((
            TransformBundle::from(Transform::from_xyz(0.0, 0.0, 0.0)),
            RigidBody::Dynamic,
            Collider::ball(10.0),
            Sensor,
        ))
        .id()
        .to_bits();
    let near = app
        .world
        .spawn((
            TransformBundle::from(Transform::from_xyz(5.0, 0.0, 0.0)),
            Collider::ball(10.0),
            Sensor,
        ))
        .id()
        .to_bits();
    let far = app
        .world
        .spawn((
            TransformBundle::from(Transform::from_xyz(500.0, 0.0, 0.0)),
            Collider::ball(10.0),
            Sensor,
        ))
        .id()
        .to_bits();
    app.update();
    app.update();
    let context = app.world.resource::<RapierContext>();
    assert!(shapes_overlap(context, whip, near));
    assert!(!shapes_overlap(context, whip, far));
    assert!(!shapes_overlap(context, whip, whip));

    let hitboxes = vec![AttackHitbox {
        id: whip,
        sensor: 1,
        damage: 10,
        armed: true,
        smash: false,
        fallen_angel: false,
    }];
    let hurtboxes = vec![
        CharacterHitbox { id: far, owner: 3 },
        CharacterHitbox { id: near, owner: 2 },
    ];
    let overlaps = collect_overlaps(context, &hitboxes, &hurtboxes);
    assert_eq!(overlaps, vec![Overlap { hitbox: whip, hurtbox: near }]);

    let sensors = vec![AttackSensor { id: 1, owner: 1, offset_x: 10 }];
    let at = Position { x: 0, y: 0 };
    let cast = vec![
        Character::spawn(1, Role::Player, 40, at),
        Character::spawn(2, Role::Boss, 1000, at),
        Character::spawn(3, Role::Boss, 1000, at),
    ];
    let hits = attack_collision(&sensors, &hitboxes, &hurtboxes, &cast, &overlaps);
    assert_eq!(hits, vec![DamageHitEvent { attack_hitbox: whip, target: 2 }]);
}

#[test]
fn only_a_plain_yes_of_the_engine_is_an_overlap() {
    assert!(reported(Some(true)));
    assert!(!reported(Some(false)));
    assert!(!reported(None));
}
