//! Modulator behaviour, archetype factories, and the full tick pipeline.
use beatcore::clock::BeatClock;
use beatcore::monster::{bird_spawner, lizard_spawner, skeleton_spawner, spawn_monster,
    BeatChase, Entity};
use beatcore::num::SCALE;
use beatcore::physics::{CircleCollider, ColliderBunde, Mass};
use beatcore::sim::tick;
use beatcore::tween::{BeatGate, Tween, TweenType};
use beatcore::vec2::Vec2I;

#[test]
fn chase_forces_magnitude_toward_target() {
    let mut entities = vec![skeleton_spawner(Vec2I { x: 0, y: 0 })];
    let clock = BeatClock::new(480).unwrap();
    let target = Vec2I { x: 3_000, y: 4_000 };
    BeatChase::system(&mut entities, &clock, Some(target));
    // Direction (3000, 4000) has length 5000; the square tween reads
    // 180.0 at phase zero, so the velocity is forced to that magnitude.
    assert_eq!(entities[0].vel, Vec2I { x: 108_000, y: 144_000 });
}

#[test]
fn chase_without_target_stops() {
    let mut entities = vec![skeleton_spawner(Vec2I { x: 100, y: 100 })];
    entities[0].vel = Vec2I { x: 7, y: 7 };
    let clock = BeatClock::new(480).unwrap();
    BeatChase::system(&mut entities, &clock, None);
    assert_eq!(entities[0].vel, Vec2I { x: 0, y: 0 });
}

#[test]
fn chase_inactive_gate_zeroes_velocity() {
    let mut entities = vec![Entity::new(Vec2I { x: 0, y: 0 })];
    entities[0].chase = Some(BeatChase {
        tween: Tween::new(TweenType::Sawtooth, 10_000, 10_000, 0, 500, 1000).unwrap(),
        gate: BeatGate::new(2, 1).unwrap(),
    });
    entities[0].vel = Vec2I { x: 9, y: 9 };
    let clock = BeatClock::new(480).unwrap();
    BeatChase::system(&mut entities, &clock, Some(Vec2I { x: 5_000, y: 0 }));
    assert_eq!(entities[0].vel, Vec2I { x: 0, y: 0 });
}

#[test]
fn scale_pulses_and_resets() {
    let mut entities = vec![skeleton_spawner(Vec2I { x: 0, y: 0 })];
    let clock = BeatClock::new(480).unwrap();
    beatcore::monster::BeatScale::system(&mut entities, &clock);
    // Square scale tween: 1.2 in the front half of every beat.
    assert_eq!(entities[0].scale, 1_200);
    let mut late = BeatClock::new(480).unwrap();
    late.advance(240);
    beatcore::monster::BeatScale::system(&mut entities, &late);
    assert_eq!(entities[0].scale, 1_000);
}

#[test]
fn spin_sets_rotation_on_its_beat() {
    let mut entities = vec![bird_spawner(Vec2I { x: 0, y: 0 })];
    let mut clock = BeatClock::new(480).unwrap();
    beatcore::monster::BeatSpin::system(&mut entities, &clock);
    // The bird spins every fourth beat, on beat 3: inactive at beat 0.
    assert_eq!(entities[0].rotation, 0);
    clock.advance(3 * 480);
    beatcore::monster::BeatSpin::system(&mut entities, &clock);
    // Unwinding sawtooth from a full turn, at phase zero.
    assert_eq!(entities[0].rotation, 6_283);
}

#[test]
fn dash_lock_lifecycle() {
    let mut entities = vec![lizard_spawner(Vec2I { x: 0, y: 0 })];
    let mut clock = BeatClock::new(500).unwrap();
    // Beat 0: the dash gate (every other beat, on 0) is open and there is
    // no lock: the direction to the target collapses to its dominant axis
    // and freezes.
    tickless_dash(&mut entities, &clock, Vec2I { x: 10_000, y: 2_000 });
    let lock = entities[0].lock.expect("first active tick creates the lock");
    assert_eq!(lock.dir, Vec2I { x: 10_000, y: 0 });
    // The triangle tween reads 360.0 at phase zero, along the lock.
    assert_eq!(entities[0].vel, Vec2I { x: 360_000, y: 0 });

    // Still beat 0, target moved: the frozen direction is reused.
    tickless_dash(&mut entities, &clock, Vec2I { x: 0, y: 50_000 });
    assert_eq!(entities[0].lock.unwrap().dir, Vec2I { x: 10_000, y: 0 });

    // Beat 1: its gate closes; the lock is removed and velocity zeroed.
    clock.advance(500);
    tickless_dash(&mut entities, &clock, Vec2I { x: 0, y: 50_000 });
    assert!(entities[0].lock.is_none());
    assert_eq!(entities[0].vel, Vec2I { x: 0, y: 0 });
}

fn tickless_dash(entities: &mut Vec<Entity>, clock: &BeatClock, target: Vec2I) {
    beatcore::monster::BeatLineDash::system(entities, clock, Some(target));
}

#[test]
fn dash_picks_dominant_y_axis_on_tie() {
    let mut entities = vec![lizard_spawner(Vec2I { x: 0, y: 0 })];
    let clock = BeatClock::new(500).unwrap();
    // |x| == |y|: the tie goes to the y axis, as does any |y| >= |x|.
    tickless_dash(&mut entities, &clock, Vec2I { x: 7_000, y: 7_000 });
    assert_eq!(entities[0].lock.unwrap().dir, Vec2I { x: 0, y: 7_000 });
}

#[test]
fn spawn_monster_cycles_through_archetypes() {
    let pos = Vec2I { x: 12, y: -34 };
    let skeleton = spawn_monster(0, pos);
    assert!(skeleton.chase.is_some() && skeleton.dash.is_none());
    assert_eq!(skeleton.pos, pos);
    let bird = spawn_monster(1, pos);
    assert!(bird.chase.is_some() && bird.dash.is_none());
    assert!(matches!(
        bird.bundle.as_ref().unwrap().collider.mass,
        Mass::Finite(100)
    ));
    let lizard = spawn_monster(2, pos);
    assert!(lizard.chase.is_none() && lizard.dash.is_some());
    let wrapped = spawn_monster(3, pos);
    assert!(wrapped.chase.is_some() && wrapped.dash.is_none());
    assert!(matches!(
        wrapped.bundle.as_ref().unwrap().collider.mass,
        Mass::Finite(5_000)
    ));
}

#[test]
fn spawned_monsters_start_at_rest() {
    for choice in 0..3 {
        let e = spawn_monster(choice, Vec2I { x: 5, y: 6 });
        assert_eq!(e.vel, Vec2I { x: 0, y: 0 });
        assert_eq!(e.scale, SCALE);
        assert_eq!(e.rotation, 0);
        assert!(e.lock.is_none());
        let detector = &e.bundle.as_ref().unwrap().collision;
        assert_eq!(detector.count, 0);
        assert!(detector.entities.is_empty());
    }
}

#[test]
fn tick_runs_clock_modulators_and_pushback() {
    let mut clock = BeatClock::new(500).unwrap();
    let mut entities = vec![
        plain_collider(0, 0),
        plain_collider(0, 0),
    ];
    tick(&mut clock, &mut entities, 100, None);
    assert_eq!(clock.elapsed, 100);
    assert_eq!(clock.beat_count, 0);
    // Coincident equal masses separate along x and the accumulators are
    // left empty for the next tick.
    assert_eq!(entities[0].pos, Vec2I { x: -5_000, y: 0 });
    assert_eq!(entities[1].pos, Vec2I { x: 5_000, y: 0 });
    for e in &entities {
        let d = &e.bundle.as_ref().unwrap().collision;
        assert_eq!(d.offset, Vec2I { x: 0, y: 0 });
        assert_eq!(d.count, 0);
        assert!(d.entities.is_empty());
    }
}

fn plain_collider(x: i64, y: i64) -> Entity {
    let mut e = Entity::new(Vec2I { x, y });
    let collider = CircleCollider::new(5_000, Mass::Finite(1_000), true, false).unwrap();
    e.bundle = Some(ColliderBunde::new(collider));
    e
}

#[test]
fn tick_applies_modulators_through_pipeline() {
    let mut clock = BeatClock::new(500).unwrap();
    let mut entities = vec![skeleton_spawner(Vec2I { x: 0, y: 0 })];
    tick(&mut clock, &mut entities, 0, Some(Vec2I { x: 3_000, y: 4_000 }));
    assert_eq!(entities[0].vel, Vec2I { x: 108_000, y: 144_000 });
    assert_eq!(entities[0].scale, 1_200);
    // The skeleton's spin gate (every fourth beat, on 1) is closed at
    // beat 0: rotation resets.
    assert_eq!(entities[0].rotation, 0);
}
