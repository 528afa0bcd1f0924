//! Kinematic modulators and the entity arena.
//!
//! Each modulator binds a [`Tween`] and a [`BeatGate`] to one output
//! channel of its entity: velocity toward a target ([`BeatChase`]), uniform
//! scale ([`BeatScale`]), z-rotation ([`BeatSpin`]), or axis-locked dash
//! velocity ([`BeatLineDash`]). Entities live in a plain arena (a vector),
//! identified by index.
use vstd::prelude::*;

use crate::clock::BeatClock;
use crate::num::{COORD_LIMIT, DIR_LIMIT, SCALE};
use crate::physics::{CircleCollider, ColliderBunde, Mass};
use crate::tween::{tween_value, BeatGate, Tween, TweenType};
use crate::vec2::{dominant_axis_spec, scale_to_length_spec, Vec2I};

verus! {

/// Chases the external target: while its gate is open the velocity points
/// at the target with magnitude forced to the tween's value.
#[derive(Clone, Copy, Debug, PartialEq, Eq, Structural)]
pub struct BeatChase {
    pub tween: Tween,
    pub gate: BeatGate,
}

/// Drives uniform scale from the tween while its gate is open.
#[derive(Clone, Copy, Debug, PartialEq, Eq, Structural)]
pub struct BeatScale {
    pub tween: Tween,
    pub gate: BeatGate,
}

/// Drives z-rotation (radians, fixed-point) from the tween while its
/// gate is open.
#[derive(Clone, Copy, Debug, PartialEq, Eq, Structural)]
pub struct BeatSpin {
    pub tween: Tween,
    pub gate: BeatGate,
}

/// Dashes along a locked axis: the direction freezes when its gate opens
/// and thaws when it closes.
#[derive(Clone, Copy, Debug, PartialEq, Eq, Structural)]
pub struct BeatLineDash {
    pub tween: Tween,
    pub gate: BeatGate,
}

/// The frozen dash direction of an entity whose dash gate is open.
#[derive(Clone, Copy, Debug, PartialEq, Eq, Structural)]
pub struct DirectionLocked {
    pub dir: Vec2I,
}

impl BeatChase {
    pub open spec fn wf(self) -> bool {
        self.tween.wf() && self.gate.wf()
    }
}

impl BeatScale {
    pub open spec fn wf(self) -> bool {
        self.tween.wf() && self.gate.wf()
    }
}

impl BeatSpin {
    pub open spec fn wf(self) -> bool {
        self.tween.wf() && self.gate.wf()
    }
}

impl BeatLineDash {
    pub open spec fn wf(self) -> bool {
        self.tween.wf() && self.gate.wf()
    }
}

/// One simulated entity: kinematic state, optional modulators on each
/// channel, the dash lock, and an optional collision footprint.
#[derive(Clone, Debug)]
pub struct Entity {
    pub pos: Vec2I,
    pub vel: Vec2I,
    /// Uniform scale, fixed-point (`SCALE` is unit scale).
    pub scale: i64,
    /// Z-rotation in fixed-point radians.
    pub rotation: i64,
    pub chase: Option<BeatChase>,
    pub scale_mod: Option<BeatScale>,
    pub spin: Option<BeatSpin>,
    pub dash: Option<BeatLineDash>,
    pub lock: Option<DirectionLocked>,
    pub bundle: Option<ColliderBunde>,
}

impl Entity {
    /// Validity: a bounded position, well-formed modulators and collider,
    /// and a bounded lock direction.
    pub open spec fn wf(self) -> bool {
        &&& self.pos.in_range(COORD_LIMIT as int)
        &&& (self.chase matches Some(m) ==> m.wf())
        &&& (self.scale_mod matches Some(m) ==> m.wf())
        &&& (self.spin matches Some(m) ==> m.wf())
        &&& (self.dash matches Some(m) ==> m.wf())
        &&& (self.lock matches Some(l) ==> l.dir.in_range(DIR_LIMIT as int))
        &&& (self.bundle matches Some(b) ==> b.wf())
    }

    /// A bare entity at rest: no modulators, no collider, unit scale.
    pub fn new(pos: Vec2I) -> (r: Entity)
        requires
            pos.in_range(COORD_LIMIT as int),
        ensures
            r.pos == pos,
            r.vel == (Vec2I { x: 0, y: 0 }),
            r.scale == SCALE,
            r.rotation == 0,
            r.chase.is_none(),
            r.scale_mod.is_none(),
            r.spin.is_none(),
            r.dash.is_none(),
            r.lock.is_none(),
            r.bundle.is_none(),
            r.wf(),
    {
        Entity {
            pos,
            vel: Vec2I { x: 0, y: 0 },
            scale: SCALE,
            rotation: 0,
            chase: None,
            scale_mod: None,
            spin: None,
            dash: None,
            lock: None,
            bundle: None,
        }
    }
}

/// The entity after its chase modulator runs: while its gate is open the
/// velocity is the direction to the target rescaled to the tween's value
/// (zero when there is no target to chase); otherwise zero velocity.
pub open spec fn chase_step(e: Entity, beat: u64, phase: int, target: Option<Vec2I>) -> Entity {
    match e.chase {
        None => e,
        Some(m) => if m.gate.active(beat) {
            match target {
                None => Entity { vel: Vec2I { x: 0, y: 0 }, ..e },
                Some(t) => {
                    let dir = Vec2I { x: (t.x - e.pos.x) as i64, y: (t.y - e.pos.y) as i64 };
                    Entity { vel: scale_to_length_spec(dir, tween_value(m.tween, phase)), ..e }
                },
            }
        } else {
            Entity { vel: Vec2I { x: 0, y: 0 }, ..e }
        },
    }
}

/// The entity after its scale modulator runs: the tween's value while
/// its gate is open, else unit scale.
pub open spec fn scale_step(e: Entity, beat: u64, phase: int) -> Entity {
    match e.scale_mod {
        None => e,
        Some(m) => if m.gate.active(beat) {
            Entity { scale: tween_value(m.tween, phase) as i64, ..e }
        } else {
            Entity { scale: SCALE, ..e }
        },
    }
}

/// The entity after its spin modulator runs: the tween's value while
/// its gate is open, else zero rotation.
pub open spec fn spin_step(e: Entity, beat: u64, phase: int) -> Entity {
    match e.spin {
        None => e,
        Some(m) => if m.gate.active(beat) {
            Entity { rotation: tween_value(m.tween, phase) as i64, ..e }
        } else {
            Entity { rotation: 0, ..e }
        },
    }
}

/// The entity after its dash modulator runs. While its gate is open: an
/// existing lock keeps its direction and the velocity is that direction at
/// the tween's magnitude; with no lock, the direction to the target
/// collapses to its dominant axis, is stored as the lock, and drives the
/// velocity (no target: no lock, zero velocity). While its gate is closed
/// the lock is removed and the velocity zeroed.
pub open spec fn dash_step(e: Entity, beat: u64, phase: int, target: Option<Vec2I>) -> Entity {
    match e.dash {
        None => e,
        Some(m) => if m.gate.active(beat) {
            match e.lock {
                Some(l) => Entity {
                    vel: scale_to_length_spec(l.dir, tween_value(m.tween, phase)),
                    ..e
                },
                None => match target {
                    None => Entity { vel: Vec2I { x: 0, y: 0 }, ..e },
                    Some(t) => {
                        let raw = Vec2I {
                            x: (t.x - e.pos.x) as i64,
                            y: (t.y - e.pos.y) as i64,
                        };
                        let locked = dominant_axis_spec(raw);
                        Entity {
                            vel: scale_to_length_spec(locked, tween_value(m.tween, phase)),
                            lock: Some(DirectionLocked { dir: locked }),
                            ..e
                        }
                    },
                },
            }
        } else {
            Entity { vel: Vec2I { x: 0, y: 0 }, lock: None, ..e }
        },
    }
}

impl BeatChase {
    /// Runs the chase modulator of every entity against the shared clock
    /// and the target position (if any).
    pub fn system(entities: &mut Vec<Entity>, clock: &BeatClock, target: Option<Vec2I>)
        requires
            clock.wf(),
            target matches Some(t) ==> t.in_range(COORD_LIMIT as int),
            forall|k: int|
                0 <= k < old(entities)@.len() ==> (#[trigger] old(entities)@[k]).wf(),
        ensures
            final(entities)@.len() == old(entities)@.len(),
            forall|k: int|
                0 <= k < old(entities)@.len() ==> #[trigger] final(entities)@[k] == chase_step(
                    old(entities)@[k],
                    clock.beat_count,
                    clock.phase(),
                    target,
                ),
            forall|k: int|
                0 <= k < old(entities)@.len() ==> (#[trigger] final(entities)@[k]).wf(),
    {
        let p: i64 = clock.percent();
        let beat: u64 = clock.beat_count;
        let n: usize = entities.len();
        let mut i: usize = 0;
        while i < n
            invariant
                n == entities@.len() == old(entities)@.len(),
                i <= n,
                beat == clock.beat_count,
                p == clock.phase(),
                0 <= p < SCALE,
                target matches Some(t) ==> t.in_range(COORD_LIMIT as int),
                forall|k: int|
                    0 <= k < n ==> (#[trigger] old(entities)@[k]).wf(),
                forall|k: int|
                    0 <= k < i ==> #[trigger] entities@[k] == chase_step(
                        old(entities)@[k],
                        beat,
                        p as int,
                        target,
                    ),
                forall|k: int| i <= k < n ==> #[trigger] entities@[k] == old(entities)@[k],
            decreases n - i,
        {
            let config: Option<BeatChase> = entities[i].chase;
            match config {
                None => {},
                Some(m) => {
                    if m.gate.is_active(beat) {
                        match target {
                            None => {
                                entities[i].vel = Vec2I { x: 0, y: 0 };
                            },
                            Some(t) => {
                                let dir: Vec2I = t.minus(entities[i].pos);
                                let speed: i64 = m.tween.evaluate(p);
                                entities[i].vel = dir.scale_to_length(speed);
                            },
                        }
                    } else {
                        entities[i].vel = Vec2I { x: 0, y: 0 };
                    }
                },
            }
            i = i + 1;
        }
    }
}

impl BeatScale {
    /// Runs the scale modulator of every entity against the shared clock.
    pub fn system(entities: &mut Vec<Entity>, clock: &BeatClock)
        requires
            clock.wf(),
            forall|k: int|
                0 <= k < old(entities)@.len() ==> (#[trigger] old(entities)@[k]).wf(),
        ensures
            final(entities)@.len() == old(entities)@.len(),
            forall|k: int|
                0 <= k < old(entities)@.len() ==> #[trigger] final(entities)@[k] == scale_step(
                    old(entities)@[k],
                    clock.beat_count,
                    clock.phase(),
                ),
            forall|k: int|
                0 <= k < old(entities)@.len() ==> (#[trigger] final(entities)@[k]).wf(),
    {
        let p: i64 = clock.percent();
        let beat: u64 = clock.beat_count;
        let n: usize = entities.len();
        let mut i: usize = 0;
        while i < n
            invariant
                n == entities@.len() == old(entities)@.len(),
                i <= n,
                beat == clock.beat_count,
                p == clock.phase(),
                0 <= p < SCALE,
                forall|k: int|
                    0 <= k < n ==> (#[trigger] old(entities)@[k]).wf(),
                forall|k: int|
                    0 <= k < i ==> #[trigger] entities@[k] == scale_step(
                        old(entities)@[k],
                        beat,
                        p as int,
                    ),
                forall|k: int| i <= k < n ==> #[trigger] entities@[k] == old(entities)@[k],
            decreases n - i,
        {
            let config: Option<BeatScale> = entities[i].scale_mod;
            match config {
                None => {},
                Some(m) => {
                    if m.gate.is_active(beat) {
                        entities[i].scale = m.tween.evaluate(p);
                    } else {
                        entities[i].scale = SCALE;
                    }
                },
            }
            i = i + 1;
        }
    }
}

impl BeatSpin {
    /// Runs the spin modulator of every entity against the shared clock.
    pub fn system(entities: &mut Vec<Entity>, clock: &BeatClock)
        requires
            clock.wf(),
            forall|k: int|
                0 <= k < old(entities)@.len() ==> (#[trigger] old(entities)@[k]).wf(),
        ensures
            final(entities)@.len() == old(entities)@.len(),
            forall|k: int|
                0 <= k < old(entities)@.len() ==> #[trigger] final(entities)@[k] == spin_step(
                    old(entities)@[k],
                    clock.beat_count,
                    clock.phase(),
                ),
            forall|k: int|
                0 <= k < old(entities)@.len() ==> (#[trigger] final(entities)@[k]).wf(),
    {
        let p: i64 = clock.percent();
        let beat: u64 = clock.beat_count;
        let n: usize = entities.len();
        let mut i: usize = 0;
        while i < n
            invariant
                n == entities@.len() == old(entities)@.len(),
                i <= n,
                beat == clock.beat_count,
                p == clock.phase(),
                0 <= p < SCALE,
                forall|k: int|
                    0 <= k < n ==> (#[trigger] old(entities)@[k]).wf(),
                forall|k: int|
                    0 <= k < i ==> #[trigger] entities@[k] == spin_step(
                        old(entities)@[k],
                        beat,
                        p as int,
                    ),
                forall|k: int| i <= k < n ==> #[trigger] entities@[k] == old(entities)@[k],
            decreases n - i,
        {
            let config: Option<BeatSpin> = entities[i].spin;
            match config {
                None => {},
                Some(m) => {
                    if m.gate.is_active(beat) {
                        entities[i].rotation = m.tween.evaluate(p);
                    } else {
                        entities[i].rotation = 0;
                    }
                },
            }
            i = i + 1;
        }
    }
}

impl BeatLineDash {
    /// Runs the dash modulator of every entity: locks the dominant-axis
    /// direction on the first open tick, keeps it while its gate stays
    /// open, and removes it when its gate closes.
    pub fn system(entities: &mut Vec<Entity>, clock: &BeatClock, target: Option<Vec2I>)
        requires
            clock.wf(),
            target matches Some(t) ==> t.in_range(COORD_LIMIT as int),
            forall|k: int|
                0 <= k < old(entities)@.len() ==> (#[trigger] old(entities)@[k]).wf(),
        ensures
            final(entities)@.len() == old(entities)@.len(),
            forall|k: int|
                0 <= k < old(entities)@.len() ==> #[trigger] final(entities)@[k] == dash_step(
                    old(entities)@[k],
                    clock.beat_count,
                    clock.phase(),
                    target,
                ),
            forall|k: int|
                0 <= k < old(entities)@.len() ==> (#[trigger] final(entities)@[k]).wf(),
    {
        let p: i64 = clock.percent();
        let beat: u64 = clock.beat_count;
        let n: usize = entities.len();
        let mut i: usize = 0;
        while i < n
            invariant
                n == entities@.len() == old(entities)@.len(),
                i <= n,
                beat == clock.beat_count,
                p == clock.phase(),
                0 <= p < SCALE,
                target matches Some(t) ==> t.in_range(COORD_LIMIT as int),
                forall|k: int|
                    0 <= k < n ==> (#[trigger] old(entities)@[k]).wf(),
                forall|k: int|
                    0 <= k < i ==> #[trigger] entities@[k] == dash_step(
                        old(entities)@[k],
                        beat,
                        p as int,
                        target,
                    ),
                forall|k: int| i <= k < n ==> #[trigger] entities@[k] == old(entities)@[k],
            decreases n - i,
        {
            let config: Option<BeatLineDash> = entities[i].dash;
            match config {
                None => {},
                Some(m) => {
                    if m.gate.is_active(beat) {
                        let lock: Option<DirectionLocked> = entities[i].lock;
                        match lock {
                            Some(l) => {
                                let speed: i64 = m.tween.evaluate(p);
                                entities[i].vel = l.dir.scale_to_length(speed);
                            },
                            None => {
                                match target {
                                    None => {
                                        entities[i].vel = Vec2I { x: 0, y: 0 };
                                    },
                                    Some(t) => {
                                        let raw: Vec2I = t.minus(entities[i].pos);
                                        let locked: Vec2I = raw.dominant_axis();
                                        let speed: i64 = m.tween.evaluate(p);
                                        entities[i].lock = Some(
                                            DirectionLocked { dir: locked },
                                        );
                                        entities[i].vel = locked.scale_to_length(speed);
                                    },
                                }
                            },
                        }
                    } else {
                        entities[i].lock = None;
                        entities[i].vel = Vec2I { x: 0, y: 0 };
                    }
                },
            }
            i = i + 1;
        }
    }
}

/// The direction-lock lifecycle across three consecutive dash ticks.
/// Starting with no lock: the first tick with an open gate creates
/// exactly one lock, the dominant axis of the direction to the target;
/// the next open tick keeps the same direction even though the target
/// moved; the first closed tick removes the lock.
pub proof fn lemma_direction_lock_lifecycle(
    e: Entity,
    m: BeatLineDash,
    beat1: u64,
    phase1: int,
    t1: Vec2I,
    beat2: u64,
    phase2: int,
    t2: Vec2I,
    beat3: u64,
    phase3: int,
    t3: Option<Vec2I>,
)
    requires
        e.dash == Some(m),
        e.lock is None,
        m.gate.active(beat1),
        m.gate.active(beat2),
        !m.gate.active(beat3),
    ensures
        dash_step(e, beat1, phase1, Some(t1)).lock == Some(
            DirectionLocked {
                dir: dominant_axis_spec(
                    Vec2I { x: (t1.x - e.pos.x) as i64, y: (t1.y - e.pos.y) as i64 },
                ),
            },
        ),
        dash_step(dash_step(e, beat1, phase1, Some(t1)), beat2, phase2, Some(t2)).lock
            == dash_step(e, beat1, phase1, Some(t1)).lock,
        dash_step(
            dash_step(dash_step(e, beat1, phase1, Some(t1)), beat2, phase2, Some(t2)),
            beat3,
            phase3,
            t3,
        ).lock is None,
{
}

/// 2π in fixed-point radians: one full turn.
pub const TWO_PI: i64 = 6283;

/// The monster archetypes the spawner can produce.
#[derive(Clone, Copy, Debug, PartialEq, Eq, Structural)]
pub enum Archetype {
    Skeleton,
    Bird,
    Lizard,
}

/// The skeleton's chase: full speed (`180.0`) on every beat, stopping dead
/// at mid-beat.
pub open spec fn skeleton_chase() -> BeatChase {
    BeatChase {
        tween: Tween {
            ttype: TweenType::Square,
            a: 180_000,
            b: 0,
            start: 0,
            mid: 500,
            end: 1000,
        },
        gate: BeatGate { frequency: 1, on_beat: 0 },
    }
}

/// The skeleton's spin: a full turn ramp in the back half of every fourth
/// beat.
pub open spec fn skeleton_spin() -> BeatSpin {
    BeatSpin {
        tween: Tween { ttype: TweenType::Sawtooth, a: 0, b: TWO_PI, start: 500, mid: 500, end: 1000 },
        gate: BeatGate { frequency: 4, on_beat: 1 },
    }
}

/// The skeleton's scale: a `1.2` pulse settling to unit scale at mid-beat.
pub open spec fn skeleton_scale() -> BeatScale {
    BeatScale {
        tween: Tween { ttype: TweenType::Square, a: 1200, b: 1000, start: 0, mid: 500, end: 1000 },
        gate: BeatGate { frequency: 1, on_beat: 0 },
    }
}

/// The skeleton's footprint: radius `15.0`, mass `5.0`.
pub open spec fn skeleton_collider() -> CircleCollider {
    CircleCollider { radius: 15_000, mass: Mass::Finite(5_000), pushback: true, detect: false }
}

/// The bird's chase: speed gliding from `240.0` down to `120.0` each beat.
pub open spec fn bird_chase() -> BeatChase {
    BeatChase {
        tween: Tween {
            ttype: TweenType::Sawtooth,
            a: 240_000,
            b: 120_000,
            start: 0,
            mid: 500,
            end: 1000,
        },
        gate: BeatGate { frequency: 1, on_beat: 0 },
    }
}

/// The bird's scale: a quick triangle breath peaking early in the beat.
pub open spec fn bird_scale() -> BeatScale {
    BeatScale {
        tween: Tween { ttype: TweenType::Triangle, a: 1000, b: 1100, start: 0, mid: 200, end: 1000 },
        gate: BeatGate { frequency: 1, on_beat: 0 },
    }
}

/// The bird's spin: unwinding from a full turn every fourth beat.
pub open spec fn bird_spin() -> BeatSpin {
    BeatSpin {
        tween: Tween { ttype: TweenType::Sawtooth, a: TWO_PI, b: 0, start: 0, mid: 500, end: 1000 },
        gate: BeatGate { frequency: 4, on_beat: 3 },
    }
}

/// The bird's footprint: radius `15.0`, mass `0.1`.
pub open spec fn bird_collider() -> CircleCollider {
    CircleCollider { radius: 15_000, mass: Mass::Finite(100), pushback: true, detect: false }
}

/// The lizard's dash: a triangle burst from `360.0` toward `192.0` every
/// other beat.
pub open spec fn lizard_dash() -> BeatLineDash {
    BeatLineDash {
        tween: Tween {
            ttype: TweenType::Triangle,
            a: 360_000,
            b: 192_000,
            start: 0,
            mid: 500,
            end: 1000,
        },
        gate: BeatGate { frequency: 2, on_beat: 0 },
    }
}

/// The lizard's scale: shrinking from `2.5` to unit on its rest beats.
pub open spec fn lizard_scale() -> BeatScale {
    BeatScale {
        tween: Tween { ttype: TweenType::Sawtooth, a: 2500, b: 1000, start: 0, mid: 500, end: 1000 },
        gate: BeatGate { frequency: 2, on_beat: 1 },
    }
}

/// The lizard's spin: unwinding from a full turn on its rest beats.
pub open spec fn lizard_spin() -> BeatSpin {
    BeatSpin {
        tween: Tween { ttype: TweenType::Sawtooth, a: TWO_PI, b: 0, start: 0, mid: 500, end: 1000 },
        gate: BeatGate { frequency: 2, on_beat: 1 },
    }
}

/// The lizard's footprint: radius `15.0`, mass `1.0`.
pub open spec fn lizard_collider() -> CircleCollider {
    CircleCollider { radius: 15_000, mass: Mass::Finite(1_000), pushback: true, detect: false }
}

/// Whether `e` is a freshly spawned entity of the given archetype at
/// `pos`: at rest, unit scale, no lock, an empty accumulator, and the
/// archetype's modulator and collider configuration.
pub open spec fn is_spawned(e: Entity, archetype: Archetype, pos: Vec2I) -> bool {
    &&& e.pos == pos
    &&& e.vel == (Vec2I { x: 0, y: 0 })
    &&& e.scale == SCALE
    &&& e.rotation == 0
    &&& e.lock is None
    &&& (e.bundle matches Some(b) && b.collision.is_empty())
    &&& match archetype {
        Archetype::Skeleton => {
            &&& e.chase == Some(skeleton_chase())
            &&& e.scale_mod == Some(skeleton_scale())
            &&& e.spin == Some(skeleton_spin())
            &&& e.dash is None
            &&& (e.bundle matches Some(b) && b.collider == skeleton_collider())
        },
        Archetype::Bird => {
            &&& e.chase == Some(bird_chase())
            &&& e.scale_mod == Some(bird_scale())
            &&& e.spin == Some(bird_spin())
            &&& e.dash is None
            &&& (e.bundle matches Some(b) && b.collider == bird_collider())
        },
        Archetype::Lizard => {
            &&& e.chase is None
            &&& e.scale_mod == Some(lizard_scale())
            &&& e.spin == Some(lizard_spin())
            &&& e.dash == Some(lizard_dash())
            &&& (e.bundle matches Some(b) && b.collider == lizard_collider())
        },
    }
}

/// Spawns a skeleton: square-wave chase with spin and scale pulses.
pub fn skeleton_spawner(pos: Vec2I) -> (r: Entity)
    requires
        pos.in_range(COORD_LIMIT as int),
    ensures
        is_spawned(r, Archetype::Skeleton, pos),
        r.wf(),
{
    Entity {
        pos,
        vel: Vec2I { x: 0, y: 0 },
        scale: SCALE,
        rotation: 0,
        chase: Some(
            BeatChase {
                tween: Tween {
                    ttype: TweenType::Square,
                    a: 180_000,
                    b: 0,
                    start: 0,
                    mid: 500,
                    end: 1000,
                },
                gate: BeatGate { frequency: 1, on_beat: 0 },
            },
        ),
        scale_mod: Some(
            BeatScale {
                tween: Tween {
                    ttype: TweenType::Square,
                    a: 1200,
                    b: 1000,
                    start: 0,
                    mid: 500,
                    end: 1000,
                },
                gate: BeatGate { frequency: 1, on_beat: 0 },
            },
        ),
        spin: Some(
            BeatSpin {
                tween: Tween {
                    ttype: TweenType::Sawtooth,
                    a: 0,
                    b: TWO_PI,
                    start: 500,
                    mid: 500,
                    end: 1000,
                },
                gate: BeatGate { frequency: 4, on_beat: 1 },
            },
        ),
        dash: None,
        lock: None,
        bundle: Some(
            ColliderBunde::new(
                CircleCollider {
                    radius: 15_000,
                    mass: Mass::Finite(5_000),
                    pushback: true,
                    detect: false,
                },
            ),
        ),
    }
}

/// Spawns a bird: gliding chase, breathing scale, slow unwinding spin.
pub fn bird_spawner(pos: Vec2I) -> (r: Entity)
    requires
        pos.in_range(COORD_LIMIT as int),
    ensures
        is_spawned(r, Archetype::Bird, pos),
        r.wf(),
{
    Entity {
        pos,
        vel: Vec2I { x: 0, y: 0 },
        scale: SCALE,
        rotation: 0,
        chase: Some(
            BeatChase {
                tween: Tween {
                    ttype: TweenType::Sawtooth,
                    a: 240_000,
                    b: 120_000,
                    start: 0,
                    mid: 500,
                    end: 1000,
                },
                gate: BeatGate { frequency: 1, on_beat: 0 },
            },
        ),
        scale_mod: Some(
            BeatScale {
                tween: Tween {
                    ttype: TweenType::Triangle,
                    a: 1000,
                    b: 1100,
                    start: 0,
                    mid: 200,
                    end: 1000,
                },
                gate: BeatGate { frequency: 1, on_beat: 0 },
            },
        ),
        spin: Some(
            BeatSpin {
                tween: Tween {
                    ttype: TweenType::Sawtooth,
                    a: TWO_PI,
                    b: 0,
                    start: 0,
                    mid: 500,
                    end: 1000,
                },
                gate: BeatGate { frequency: 4, on_beat: 3 },
            },
        ),
        dash: None,
        lock: None,
        bundle: Some(
            ColliderBunde::new(
                CircleCollider {
                    radius: 15_000,
                    mass: Mass::Finite(100),
                    pushback: true,
                    detect: false,
                },
            ),
        ),
    }
}

/// Spawns a lizard: axis-locked dash bursts with scale and spin pulses.
pub fn lizard_spawner(pos: Vec2I) -> (r: Entity)
    requires
        pos.in_range(COORD_LIMIT as int),
    ensures
        is_spawned(r, Archetype::Lizard, pos),
        r.wf(),
{
    Entity {
        pos,
        vel: Vec2I { x: 0, y: 0 },
        scale: SCALE,
        rotation: 0,
        chase: None,
        scale_mod: Some(
            BeatScale {
                tween: Tween {
                    ttype: TweenType::Sawtooth,
                    a: 2500,
                    b: 1000,
                    start: 0,
                    mid: 500,
                    end: 1000,
                },
                gate: BeatGate { frequency: 2, on_beat: 1 },
            },
        ),
        spin: Some(
            BeatSpin {
                tween: Tween {
                    ttype: TweenType::Sawtooth,
                    a: TWO_PI,
                    b: 0,
                    start: 0,
                    mid: 500,
                    end: 1000,
                },
                gate: BeatGate { frequency: 2, on_beat: 1 },
            },
        ),
        dash: Some(
            BeatLineDash {
                tween: Tween {
                    ttype: TweenType::Triangle,
                    a: 360_000,
                    b: 192_000,
                    start: 0,
                    mid: 500,
                    end: 1000,
                },
                gate: BeatGate { frequency: 2, on_beat: 0 },
            },
        ),
        lock: None,
        bundle: Some(
            ColliderBunde::new(
                CircleCollider {
                    radius: 15_000,
                    mass: Mass::Finite(1_000),
                    pushback: true,
                    detect: false,
                },
            ),
        ),
    }
}

/// The archetype the spawn roster yields for a draw, cycling through the
/// three archetypes by residue.
pub open spec fn archetype_for_spec(choice: usize) -> Archetype {
    if choice % 3 == 0 {
        Archetype::Skeleton
    } else if choice % 3 == 1 {
        Archetype::Bird
    } else {
        Archetype::Lizard
    }
}

/// Spawns the monster a draw selects, fully configured at `pos`. The draw
/// itself — a timer tick and a random choice — is the caller's.
pub fn spawn_monster(choice: usize, pos: Vec2I) -> (r: Entity)
    requires
        pos.in_range(COORD_LIMIT as int),
    ensures
        is_spawned(r, archetype_for_spec(choice), pos),
        r.wf(),
{
    let which: usize = choice % 3;
    if which == 0 {
        skeleton_spawner(pos)
    } else if which == 1 {
        bird_spawner(pos)
    } else {
        lizard_spawner(pos)
    }
}

} // verus!
