use vstd::prelude::*;
use crate::parameters::{DebugMode, Parameters};

verus! {

/// What the nearest-hit query and the material reported for a ray.
#[derive(Clone, Copy, Debug, PartialEq, Eq, Structural)]
pub enum TraceEvent {
    /// The ray left the scene.
    Miss,
    /// The ray hit a surface; `scattered` says whether its material sent a ray on.
    Hit { scattered: bool },
}

/// What one step of tracing a light path yields.
#[derive(Clone, Copy, Debug, PartialEq, Eq, Structural)]
pub enum TraceAction {
    /// No light: the bounce limit was reached or the ray was absorbed.
    Black,
    /// The background color seen along the ray.
    Background,
    /// The diagnostic color of the given mode at the hit.
    Diagnostic(DebugMode),
    /// Attenuate by the material and trace the scattered ray one level deeper.
    Bounce,
}

/// The step a ray at recursion depth `depth` takes, given what it met.
pub open spec fn spec_next_action(depth: u32, parameters: Parameters, event: TraceEvent) -> TraceAction {
    if depth >= parameters.scatter_limit {
        TraceAction::Black
    } else {
        match event {
            TraceEvent::Miss => TraceAction::Background,
            TraceEvent::Hit { scattered } => match parameters.debug_mode {
                Some(mode) => TraceAction::Diagnostic(mode),
                None => if scattered {
                    TraceAction::Bounce
                } else {
                    TraceAction::Black
                },
            },
        }
    }
}

/// Decides one step of the trace loop; only `Bounce` continues the path.
pub fn next_action(depth: u32, parameters: &Parameters, event: TraceEvent) -> (r: TraceAction)
    ensures
        r == spec_next_action(depth, *parameters, event),
{
    if depth >= parameters.scatter_limit {
        TraceAction::Black
    } else {
        match event {
            TraceEvent::Miss => TraceAction::Background,
            TraceEvent::Hit { scattered } => match parameters.debug_mode {
                Some(mode) => TraceAction::Diagnostic(mode),
                None => if scattered {
                    TraceAction::Bounce
                } else {
                    TraceAction::Black
                },
            },
        }
    }
}

/// The length of the light path that the events `events` drive, from depth `depth`:
/// how many `Bounce` steps are taken before the path ends.
pub open spec fn bounces(depth: u32, parameters: Parameters, events: Seq<TraceEvent>) -> nat
    decreases events.len(),
{
    if events.len() == 0 {
        0
    } else if spec_next_action(depth, parameters, events[0]) == TraceAction::Bounce
        && depth < u32::MAX {
        1 + bounces((depth + 1) as u32, parameters, events.drop_first())
    } else {
        0
    }
}

/// A path never bounces past the limit: from depth `depth`, whatever the surfaces
/// report, at most `scatter_limit - depth` scattered rays are followed.
pub proof fn lemma_bounces_bounded(depth: u32, parameters: Parameters, events: Seq<TraceEvent>)
    ensures
        bounces(depth, parameters, events) + depth <= parameters.scatter_limit
            || bounces(depth, parameters, events) == 0,
    decreases events.len(),
{
    if events.len() > 0 && spec_next_action(depth, parameters, events[0]) == TraceAction::Bounce
        && depth < u32::MAX {
        lemma_bounces_bounded((depth + 1) as u32, parameters, events.drop_first());
    }
}

/// With a bounce limit of zero no ray is ever scattered: every path ends at its
/// first step with black, whatever the ray meets.
pub proof fn lemma_zero_limit_is_black(parameters: Parameters, event: TraceEvent, events: Seq<TraceEvent>)
    requires
        parameters.scatter_limit == 0,
    ensures
        spec_next_action(0, parameters, event) == TraceAction::Black,
        bounces(0, parameters, events) == 0,
{
    if events.len() > 0 {
        assert(spec_next_action(0, parameters, events[0]) == TraceAction::Black);
    }
}

} // verus!
