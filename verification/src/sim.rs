//! The fixed-tick control flow: advance the clock, run the kinematic
//! modulators, then the three-phase collision protocol (detect, resolve,
//! reset), in that order.
use vstd::prelude::*;

use crate::clock::BeatClock;
use crate::monster::{chase_step, dash_step, scale_step, spin_step, BeatChase, BeatLineDash,
    BeatScale, BeatSpin, Entity};
use crate::num::{div_trunc, COORD_LIMIT, MAX_ENTITIES};
use crate::physics::{apply_pushback, collide, collided_entity, detector_ready, reset,
    reset_entity, resolved_entity, scan_acc};
use crate::vec2::Vec2I;

verus! {

/// The entity after all four modulators run, in pipeline order: chase,
/// scale, spin, dash.
pub open spec fn modulated(e: Entity, beat: u64, phase: int, target: Option<Vec2I>) -> Entity {
    dash_step(
        spin_step(scale_step(chase_step(e, beat, phase, target), beat, phase), beat, phase),
        beat,
        phase,
        target,
    )
}

/// The arena after the modulator phase.
pub open spec fn modulated_seq(
    s: Seq<Entity>,
    beat: u64,
    phase: int,
    target: Option<Vec2I>,
) -> Seq<Entity> {
    s.map_values(|e: Entity| modulated(e, beat, phase, target))
}

/// Everything one tick promises of entity `i`, given the arena `s` at the
/// start of the tick and the advanced clock's beat and phase: the
/// modulators' outputs on every channel, the position corrected once by
/// the averaged pushback of the scan over the modulated arena, and an
/// accumulator left empty for the next tick.
pub open spec fn tick_entity(
    e2: Entity,
    s: Seq<Entity>,
    i: int,
    beat: u64,
    phase: int,
    target: Option<Vec2I>,
) -> bool {
    let s1 = modulated_seq(s, beat, phase, target);
    let m = s1[i];
    let scan = scan_acc(s1, i, s1.len() as int);
    &&& e2.vel == m.vel
    &&& e2.scale == m.scale
    &&& e2.rotation == m.rotation
    &&& e2.chase == m.chase
    &&& e2.scale_mod == m.scale_mod
    &&& e2.spin == m.spin
    &&& e2.dash == m.dash
    &&& e2.lock == m.lock
    &&& (e2.bundle is Some <==> m.bundle is Some)
    &&& (e2.bundle matches Some(b2) ==> b2.collider == m.bundle.unwrap().collider
        && b2.collision.is_empty())
    &&& e2.pos == (if m.bundle is None || (scan.0 == 0 && scan.1 == 0) {
        m.pos
    } else {
        Vec2I {
            x: (m.pos.x + div_trunc(scan.0, scan.2)) as i64,
            y: (m.pos.y + div_trunc(scan.1, scan.2)) as i64,
        }
    })
}

/// One fixed tick: the clock advances by `dt`, every modulator reads the
/// advanced clock and writes its channel, the collision scan accumulates
/// pushback over all pairs, the resolver applies each averaged correction
/// once, and the accumulators are cleared.
pub fn tick(clock: &mut BeatClock, entities: &mut Vec<Entity>, dt: u64, target: Option<Vec2I>)
    requires
        old(clock).wf(),
        old(clock).elapsed + dt <= u64::MAX,
        old(clock).beat_count + (old(clock).elapsed + dt) / (old(clock).period as int)
            <= u64::MAX,
        old(entities)@.len() <= MAX_ENTITIES,
        forall|k: int| 0 <= k < old(entities)@.len() ==> (#[trigger] old(entities)@[k]).wf(),
        forall|k: int|
            0 <= k < old(entities)@.len() ==> detector_ready(#[trigger] old(entities)@[k]),
        target matches Some(t) ==> t.in_range(COORD_LIMIT as int),
    ensures
        final(clock).period == old(clock).period,
        final(clock).elapsed == (old(clock).elapsed + dt) % (old(clock).period as int),
        final(clock).beat_count == old(clock).beat_count + (old(clock).elapsed + dt) / (
        old(clock).period as int),
        final(clock).wf(),
        final(entities)@.len() == old(entities)@.len(),
        forall|k: int|
            0 <= k < old(entities)@.len() ==> tick_entity(
                #[trigger] final(entities)@[k],
                old(entities)@,
                k,
                final(clock).beat_count,
                final(clock).phase(),
                target,
            ),
        forall|k: int|
            0 <= k < old(entities)@.len() ==> detector_ready(#[trigger] final(entities)@[k]),
{
    let ghost s0 = old(entities)@;
    clock.advance(dt);
    let ghost beat = clock.beat_count;
    let ghost phase = clock.phase();
    BeatChase::system(entities, clock, target);
    BeatScale::system(entities, clock);
    BeatSpin::system(entities, clock);
    BeatLineDash::system(entities, clock, target);
    let ghost s1 = entities@;
    proof {
        assert(s1 =~= modulated_seq(s0, beat, phase, target));
        assert forall|k: int| 0 <= k < s1.len() implies detector_ready(#[trigger] s1[k]) by {
            assert(s1[k].bundle == s0[k].bundle);
        }
    }
    collide(entities);
    let ghost s2 = entities@;
    apply_pushback(entities);
    let ghost s3 = entities@;
    reset(entities);
    proof {
        assert forall|k: int| 0 <= k < s0.len() implies tick_entity(
            #[trigger] final(entities)@[k],
            s0,
            k,
            beat,
            phase,
            target,
        ) by {
            let m = s1[k];
            let scan = scan_acc(s1, k, s1.len() as int);
            assert(collided_entity(s2[k], s1, k));
            assert(resolved_entity(s3[k], s2[k]));
            assert(reset_entity(final(entities)@[k], s3[k]));
        }
        assert forall|k: int| 0 <= k < s0.len() implies detector_ready(
            #[trigger] final(entities)@[k],
        ) by {}
    }
}

} // verus!
