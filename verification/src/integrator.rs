//! The discrete decision layer of the path integrator.
//!
//! A traced path is a chain of states: active with some remaining bounce
//! budget, until it ends in one of three terminal states — the budget ran
//! out, the ray escaped to the background, or the material absorbed it.
//! The floating-point work (the nearest-hit query, the scattering sample,
//! the attenuation product, the background gradient) happens outside and
//! is reported back as an event; what happens next, and that the budget
//! strictly shrinks with every bounce, is decided and proved here.

use vstd::prelude::*;

verus! {

/// What the world and the material reported for the current ray: it hit
/// nothing, it was absorbed at the hit, or it scattered onward.
#[derive(Clone, Copy, Debug, PartialEq, Eq, Structural)]
pub enum TraceEvent {
    Miss,
    HitAbsorbed,
    HitScattered,
}

/// The integrator's next move. `Exhausted` and `Absorbed` end the path
/// with black, `Escaped` ends it with the background color, and
/// `Continue` follows the scattered ray with the budget that is left.
#[derive(Clone, Copy, Debug, PartialEq, Eq, Structural)]
pub enum TraceStep {
    Exhausted,
    Escaped,
    Absorbed,
    Continue { remaining: u32 },
}

/// One step of the path state machine: with the budget spent the path is
/// truncated to black whatever the event reported; otherwise a miss
/// escapes to the background, an absorption ends in black, and a scatter
/// continues with one bounce fewer — so the budget strictly decreases and
/// the recursion terminates.
pub fn integrator_step(budget: u32, event: TraceEvent) -> (step: TraceStep)
    ensures
        budget == 0 ==> step == TraceStep::Exhausted,
        budget > 0 && event == TraceEvent::Miss ==> step == TraceStep::Escaped,
        budget > 0 && event == TraceEvent::HitAbsorbed ==> step == TraceStep::Absorbed,
        budget > 0 && event == TraceEvent::HitScattered ==> step == (TraceStep::Continue {
            remaining: (budget - 1) as u32,
        }),
        step matches TraceStep::Continue { remaining } ==> remaining < budget,
{
    if budget == 0 {
        TraceStep::Exhausted
    } else {
        match event {
            TraceEvent::Miss => TraceStep::Escaped,
            TraceEvent::HitAbsorbed => TraceStep::Absorbed,
            TraceEvent::HitScattered => TraceStep::Continue { remaining: budget - 1 },
        }
    }
}

/// Whether a material lets the light continue.
#[derive(Clone, Copy, Debug, PartialEq, Eq, Structural)]
pub enum ScatterPolicy {
    Scatters,
    Absorbed,
}

/// The absorption policy of the material model: diffuse and dielectric
/// surfaces always scatter, by construction; only a metallic surface may
/// absorb, and it does so exactly when its fuzzed reflection fails to
/// point away from the surface (a test computed on the floating-point
/// side and handed in here).
pub fn scatter_decision(is_metal: bool, reflection_points_outward: bool) -> (p: ScatterPolicy)
    ensures
        !is_metal ==> p == ScatterPolicy::Scatters,
        is_metal ==> p == (if reflection_points_outward {
            ScatterPolicy::Scatters
        } else {
            ScatterPolicy::Absorbed
        }),
{
    if !is_metal || reflection_points_outward {
        ScatterPolicy::Scatters
    } else {
        ScatterPolicy::Absorbed
    }
}

} // verus!
