//! Vector helpers on concrete values.
use beatcore::vec2::Vec2I;

#[test]
fn minus_is_componentwise() {
    let a = Vec2I { x: 10, y: -3 };
    let b = Vec2I { x: 4, y: 5 };
    assert_eq!(a.minus(b), Vec2I { x: 6, y: -8 });
}

#[test]
fn length_rounds_down() {
    assert_eq!(Vec2I { x: 3_000, y: 4_000 }.length(), 5_000);
    assert_eq!(Vec2I { x: 1, y: 1 }.length(), 1);
    assert_eq!(Vec2I { x: 0, y: 0 }.length(), 0);
}

#[test]
fn scale_to_length_forces_magnitude() {
    let v = Vec2I { x: 3_000, y: 4_000 };
    assert_eq!(v.scale_to_length(10_000), Vec2I { x: 6_000, y: 8_000 });
    assert_eq!(v.scale_to_length(5_000), v);
    // A negative magnitude flips the direction.
    assert_eq!(v.scale_to_length(-5_000), Vec2I { x: -3_000, y: -4_000 });
    // The zero vector has no direction and stays put.
    assert_eq!(Vec2I { x: 0, y: 0 }.scale_to_length(5_000), Vec2I { x: 0, y: 0 });
}

#[test]
fn dominant_axis_prefers_y_on_tie() {
    assert_eq!(
        Vec2I { x: 7, y: -7 }.dominant_axis(),
        Vec2I { x: 0, y: -7 }
    );
    assert_eq!(Vec2I { x: -9, y: 2 }.dominant_axis(), Vec2I { x: -9, y: 0 });
}
