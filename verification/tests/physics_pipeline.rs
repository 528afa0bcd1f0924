//! The collision scan and the detect → resolve → reset protocol on
//! concrete arenas.
use beatcore::monster::Entity;
use beatcore::physics::{apply_pushback, collide, reset, CircleCollider, ColliderBunde,
    CollisionDetector, Mass};
use beatcore::vec2::Vec2I;

fn collider_entity(x: i64, y: i64, radius: i64, mass: Mass, pushback: bool, detect: bool) -> Entity {
    let mut e = Entity::new(Vec2I { x, y });
    let collider = CircleCollider::new(radius, mass, pushback, detect).unwrap();
    e.bundle = Some(ColliderBunde::new(collider));
    e
}

fn detector(e: &Entity) -> &CollisionDetector {
    &e.bundle.as_ref().unwrap().collision
}

#[test]
fn overlap_at_distance_nine_not_at_ten() {
    // Radii of 5.0 each: overlapping at distance 9.0, not at 10.0.
    let mut near = vec![
        collider_entity(0, 0, 5_000, Mass::Finite(1_000), false, true),
        collider_entity(9_000, 0, 5_000, Mass::Finite(1_000), false, true),
    ];
    collide(&mut near);
    assert_eq!(detector(&near[0]).entities, vec![1]);
    assert_eq!(detector(&near[1]).entities, vec![0]);

    let mut apart = vec![
        collider_entity(0, 0, 5_000, Mass::Finite(1_000), false, true),
        collider_entity(10_000, 0, 5_000, Mass::Finite(1_000), false, true),
    ];
    collide(&mut apart);
    assert!(detector(&apart[0]).entities.is_empty());
    assert!(detector(&apart[1]).entities.is_empty());
}

#[test]
fn pushback_offsets_are_exact_opposites() {
    let mut entities = vec![
        collider_entity(0, 0, 5_000, Mass::Finite(1_000), true, false),
        collider_entity(9_000, 0, 5_000, Mass::Finite(1_000), true, false),
    ];
    collide(&mut entities);
    // weight 500, direction -9000, overlap gap 1000 of range 10000:
    // 500 * 9000 * 1000 / (10000 * 1000) = 450.
    assert_eq!(detector(&entities[0]).offset, Vec2I { x: -450, y: 0 });
    assert_eq!(detector(&entities[1]).offset, Vec2I { x: 450, y: 0 });
    assert_eq!(detector(&entities[0]).count, 1);
    assert_eq!(detector(&entities[1]).count, 1);
}

#[test]
fn coincident_pushback_resolves_along_x() {
    let mut entities = vec![
        collider_entity(3_000, 3_000, 5_000, Mass::Finite(1_000), true, false),
        collider_entity(3_000, 3_000, 5_000, Mass::Finite(1_000), true, false),
    ];
    collide(&mut entities);
    // Full overlap ratio, weight 500, tie-break along x: the lower index
    // goes toward negative x.
    assert_eq!(detector(&entities[0]).offset, Vec2I { x: -5_000, y: 0 });
    assert_eq!(detector(&entities[1]).offset, Vec2I { x: 5_000, y: 0 });
    apply_pushback(&mut entities);
    assert_eq!(entities[0].pos, Vec2I { x: -2_000, y: 3_000 });
    assert_eq!(entities[1].pos, Vec2I { x: 8_000, y: 3_000 });
}

#[test]
fn infinite_mass_takes_no_push_and_gives_all() {
    let mut entities = vec![
        collider_entity(0, 0, 5_000, Mass::Finite(1_000), true, false),
        collider_entity(9_000, 0, 5_000, Mass::Infinite, true, false),
    ];
    collide(&mut entities);
    // The finite body takes the full weight: 1000 * 9000 * 1000 / (10000 * 1000).
    assert_eq!(detector(&entities[0]).offset, Vec2I { x: -900, y: 0 });
    // The immovable body's share is zero.
    assert_eq!(detector(&entities[1]).offset, Vec2I { x: 0, y: 0 });
    assert_eq!(detector(&entities[1]).count, 1);
}

#[test]
fn undefined_mass_ratio_falls_back_to_half() {
    // Both infinite and both zero give ratios that are not a number; the
    // fallback is the neutral half, as with equal finite masses.
    let mut both_infinite = vec![
        collider_entity(0, 0, 5_000, Mass::Infinite, true, false),
        collider_entity(9_000, 0, 5_000, Mass::Infinite, true, false),
    ];
    collide(&mut both_infinite);
    assert_eq!(detector(&both_infinite[0]).offset, Vec2I { x: -450, y: 0 });

    let mut both_zero = vec![
        collider_entity(0, 0, 5_000, Mass::Finite(0), true, false),
        collider_entity(9_000, 0, 5_000, Mass::Finite(0), true, false),
    ];
    collide(&mut both_zero);
    assert_eq!(detector(&both_zero[0]).offset, Vec2I { x: -450, y: 0 });
}

#[test]
fn pushback_requires_both_sides_enabled() {
    let mut entities = vec![
        collider_entity(0, 0, 5_000, Mass::Finite(1_000), true, true),
        collider_entity(9_000, 0, 5_000, Mass::Finite(1_000), false, true),
    ];
    collide(&mut entities);
    // Detection still fires both ways; no pushback accumulates.
    assert_eq!(detector(&entities[0]).entities, vec![1]);
    assert_eq!(detector(&entities[1]).entities, vec![0]);
    assert_eq!(detector(&entities[0]).offset, Vec2I { x: 0, y: 0 });
    assert_eq!(detector(&entities[0]).count, 0);
    assert_eq!(detector(&entities[1]).offset, Vec2I { x: 0, y: 0 });
}

#[test]
fn accumulator_reset_cycle_leaves_nothing() {
    let mut entities = vec![
        collider_entity(0, 0, 5_000, Mass::Finite(1_000), true, true),
        collider_entity(0, 0, 5_000, Mass::Finite(1_000), true, true),
    ];
    collide(&mut entities);
    assert_ne!(detector(&entities[0]).offset, Vec2I { x: 0, y: 0 });
    apply_pushback(&mut entities);
    reset(&mut entities);
    for e in &entities {
        assert_eq!(detector(e).offset, Vec2I { x: 0, y: 0 });
        assert_eq!(detector(e).count, 0);
        assert!(detector(e).entities.is_empty());
    }
    // The resolved positions no longer overlap, so a second pass finds
    // nothing and the accumulators stay empty.
    collide(&mut entities);
    for e in &entities {
        assert_eq!(detector(e).offset, Vec2I { x: 0, y: 0 });
        assert_eq!(detector(e).count, 0);
        assert!(detector(e).entities.is_empty());
    }
}

#[test]
fn entities_without_colliders_are_ignored() {
    let mut entities = vec![
        collider_entity(0, 0, 5_000, Mass::Finite(1_000), true, true),
        Entity::new(Vec2I { x: 0, y: 0 }),
    ];
    collide(&mut entities);
    assert_eq!(detector(&entities[0]).offset, Vec2I { x: 0, y: 0 });
    assert!(detector(&entities[0]).entities.is_empty());
    assert!(entities[1].bundle.is_none());
}

#[test]
fn heavier_bodies_move_less() {
    // Masses 1.0 against 3.0: the lighter body takes three quarters of
    // the correction, the heavier one quarter.
    let mut entities = vec![
        collider_entity(0, 0, 5_000, Mass::Finite(1_000), true, false),
        collider_entity(9_000, 0, 5_000, Mass::Finite(3_000), true, false),
    ];
    collide(&mut entities);
    assert_eq!(detector(&entities[0]).offset, Vec2I { x: -675, y: 0 });
    assert_eq!(detector(&entities[1]).offset, Vec2I { x: 225, y: 0 });
}

#[test]
fn collider_rejects_negative_radius() {
    assert_eq!(
        CircleCollider::new(-1, Mass::Finite(1_000), true, true),
        Err(beatcore::error::ConfigError::NegativeRadius)
    );
}
