use bevy_rapier2d::rapier::dynamics::{RigidBodyBuilder, RigidBodySet};
use bevy_rapier2d::rapier::geometry::{ColliderBuilder, ColliderSet};
use hunting_crustaceans::components::Position;
use hunting_crustaceans::physics::{
    binding_action, is_outside_arena, position_system, read_behind, BindingAction, BodyId,
    BodyReading, ColliderId, ARENA_HALF_HEIGHT, ARENA_HALF_WIDTH,
};
use hunting_crustaceans::single::{Single, INFINITY_BITS, ONE_BITS, SIGN_BIT};

fn single(value: f32) -> Single {
    Single { bits: value.to_bits() }
}

fn point(x: f32, y: f32) -> Position {
    Position { x: single(x), y: single(y) }
}

fn samples() -> Vec<f32> {
    vec![
        0.0,
        -0.0,
        f32::MIN_POSITIVE,
        -f32::MIN_POSITIVE,
        1.0e-45,
        -1.0e-45,
        0.1,
        0.5,
        0.999_999_94,
        1.0,
        1.000_000_1,
        -1.0,
        299.999_97,
        300.0,
        300.000_03,
        -300.0,
        -300.000_03,
        599.999_94,
        600.0,
        600.000_06,
        -599.999_94,
        -600.0,
        -600.000_06,
        1.0e9,
        -1.0e9,
        f32::MAX,
        f32::MIN,
        f32::INFINITY,
        f32::NEG_INFINITY,
        f32::NAN,
        -f32::NAN,
    ]
}

#[test]
fn the_constants_are_the_patterns_of_their_numbers() {
    assert_eq!(ARENA_HALF_WIDTH, 600.0f32.to_bits());
    assert_eq!(ARENA_HALF_HEIGHT, 300.0f32.to_bits());
    assert_eq!(ONE_BITS, 1.0f32.to_bits());
    assert_eq!(INFINITY_BITS, f32::INFINITY.to_bits());
    assert_eq!(SIGN_BIT, (-0.0f32).to_bits());
    assert_eq!(Single::zero().bits, 0.0f32.to_bits());
}

#[test]
fn patterns_compare_as_their_numbers_do() {
    for value in samples() {
        let pattern = single(value);
        assert_eq!(pattern.is_nonzero(), value != 0.0, "{value}");
        assert_eq!(
            pattern.magnitude_exceeds(Single { bits: ARENA_HALF_WIDTH }),
            value > 600.0 || value < -600.0,
            "{value}"
        );
        assert_eq!(
            pattern.magnitude_exceeds(Single { bits: ARENA_HALF_HEIGHT }),
            value > 300.0 || value < -300.0,
            "{value}"
        );
        for bound in samples() {
            assert_eq!(
                pattern.magnitude_exceeds(single(bound)),
                value.abs() > bound.abs(),
                "{value} {bound}"
            );
        }
        assert_eq!(
            pattern.in_unit_interval(),
            (0.0..1.0).contains(&value) && value.is_sign_positive(),
            "{value}"
        );
    }
}

#[test]
fn the_arena_is_1200_wide_and_600_high() {
    assert!(!is_outside_arena(point(0.0, 0.0)));
    assert!(!is_outside_arena(point(600.0, 300.0)));
    assert!(!is_outside_arena(point(-600.0, -300.0)));
    assert!(is_outside_arena(point(600.000_06, 0.0)));
    assert!(is_outside_arena(point(-600.000_06, 0.0)));
    assert!(is_outside_arena(point(0.0, 300.000_03)));
    assert!(is_outside_arena(point(0.0, -300.000_03)));
    assert!(is_outside_arena(point(f32::INFINITY, 0.0)));
    assert!(!is_outside_arena(point(f32::NAN, f32::NAN)));
    assert!(is_outside_arena(point(f32::NAN, 301.0)));
    // Between the two bounds it matters which way the point is off.
    assert!(is_outside_arena(point(0.0, 450.0)));
    assert!(!is_outside_arena(point(450.0, 0.0)));
}

#[test]
fn a_body_that_rotates_gets_no_velocity() {
    let reading = |spin: f32, x: f32| BodyReading { tag: 0, position: point(x, 0.0), spin: single(spin) };
    assert_eq!(
        binding_action(reading(0.0, 0.0)),
        BindingAction { assign_velocity: true, recover: false }
    );
    assert_eq!(
        binding_action(reading(-0.0, 0.0)),
        BindingAction { assign_velocity: true, recover: false }
    );
    assert_eq!(
        binding_action(reading(0.25, 0.0)),
        BindingAction { assign_velocity: false, recover: false }
    );
    assert_eq!(
        binding_action(reading(-3.0, 700.0)),
        BindingAction { assign_velocity: false, recover: true }
    );
    assert_eq!(
        binding_action(reading(0.0, 700.0)),
        BindingAction { assign_velocity: true, recover: true }
    );
    assert_eq!(
        binding_action(reading(f32::NAN, 0.0)),
        BindingAction { assign_velocity: false, recover: false }
    );
}

#[test]
fn a_recovered_body_gets_its_velocity_again() {
    let outside =
        BodyReading { tag: 3, position: point(-2000.0, 10.0), spin: single(1.5) };
    let first = binding_action(outside);
    assert_eq!(first, BindingAction { assign_velocity: false, recover: true });
    // The recovery stops the rotation and leaves the body where it is.
    let mut reading = BodyReading { spin: Single::zero(), ..outside };
    for _ in 0..5 {
        let action = binding_action(reading);
        assert_eq!(action, BindingAction { assign_velocity: true, recover: true });
        reading = BodyReading { spin: Single::zero(), ..reading };
    }
}

#[test]
fn the_registries_are_read_as_they_are() {
    let mut bodies = RigidBodySet::new();
    let mut colliders = ColliderSet::new();
    let first = bodies.insert(
        RigidBodyBuilder::new_dynamic().translation(1.5, -2.5).user_data(41).angvel(0.75).build(),
    );
    let second =
        bodies.insert(RigidBodyBuilder::new_dynamic().translation(900.0, 0.0).user_data(42).build());
    let on_first = colliders.insert(ColliderBuilder::ball(1.0).build(), first, &mut bodies);
    let on_second = colliders.insert(ColliderBuilder::ball(1.0).build(), second, &mut bodies);
    let id = |handle: bevy_rapier2d::rapier::geometry::ColliderHandle| {
        let (index, generation) = handle.into_raw_parts();
        ColliderId { index, generation }
    };

    assert_eq!(
        read_behind(&colliders, &bodies, id(on_first)),
        Some(BodyReading { tag: 41, position: point(1.5, -2.5), spin: single(0.75) })
    );
    assert_eq!(
        read_behind(&colliders, &bodies, id(on_second)),
        Some(BodyReading { tag: 42, position: point(900.0, 0.0), spin: single(0.0) })
    );
    let unknown = ColliderId { index: 2, generation: 0 };
    assert_eq!(read_behind(&colliders, &bodies, unknown), None);
    let stale = ColliderId { index: id(on_first).index, generation: id(on_first).generation + 1 };
    assert_eq!(read_behind(&colliders, &bodies, stale), None);
    // Behind a collider whose body was removed there is nothing to read.
    let empty = RigidBodySet::new();
    assert_eq!(read_behind(&colliders, &empty, id(on_first)), None);
}

#[test]
fn every_mover_gets_its_decision() {
    let mut bodies = RigidBodySet::new();
    let calm = bodies.insert(RigidBodyBuilder::new_dynamic().translation(10.0, 10.0).build());
    let turning =
        bodies.insert(RigidBodyBuilder::new_dynamic().translation(0.0, 0.0).angvel(2.0).build());
    let lost = bodies.insert(RigidBodyBuilder::new_dynamic().translation(0.0, -301.0).build());
    let id = |handle: bevy_rapier2d::rapier::dynamics::RigidBodyHandle| {
        let (index, generation) = handle.into_raw_parts();
        BodyId { index, generation }
    };
    let gone = BodyId { index: 17, generation: 0 };
    let movers = vec![id(lost), gone, id(calm), id(turning), id(calm)];

    let actions = position_system(&bodies, &movers);

    assert_eq!(
        actions,
        vec![
            Some(BindingAction { assign_velocity: true, recover: true }),
            None,
            Some(BindingAction { assign_velocity: true, recover: false }),
            Some(BindingAction { assign_velocity: false, recover: false }),
            Some(BindingAction { assign_velocity: true, recover: false }),
        ]
    );
    assert_eq!(position_system(&bodies, &vec![]), vec![]);
}
