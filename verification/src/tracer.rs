use vstd::prelude::*;

verus! {

/// What one level of the radiance estimator learned from the scene: either
/// the ray left the scene, or it struck a primitive whose material did or
/// did not produce a continuation ray.
#[derive(Copy, Clone, Debug, PartialEq, Eq, Structural)]
pub enum TraceEvent {
    /// No primitive intersects the ray inside the valid interval.
    Miss,
    /// A primitive was hit; `scattered` says whether its material produced
    /// a continuation ray (as opposed to absorbing the path).
    Hit { scattered: bool },
}

/// What the estimator contributes at one level of the recursion.
#[derive(Copy, Clone, Debug, PartialEq, Eq, Structural)]
pub enum TraceAction {
    /// The bounce budget is exhausted: contribute zero radiance.
    Black,
    /// Nothing was hit: contribute the background gradient.
    Background,
    /// A hit whose material absorbed the path: contribute its emission alone.
    Emitted,
    /// A hit whose material scattered: contribute its emission plus the
    /// attenuated radiance of the continuation ray, estimated with
    /// `next_depth` bounces remaining.
    EmittedPlusScattered { next_depth: usize },
}

/// The control rule of the recursive radiance estimator: depth zero is the
/// terminal state, a miss falls through to the background, and a hit
/// contributes emission, continuing one level deeper only when the material
/// scattered.
pub open spec fn trace_step_spec(depth: usize, event: TraceEvent) -> TraceAction {
    if depth == 0 {
        TraceAction::Black
    } else {
        match event {
            TraceEvent::Miss => TraceAction::Background,
            TraceEvent::Hit { scattered } => if scattered {
                TraceAction::EmittedPlusScattered { next_depth: (depth - 1) as usize }
            } else {
                TraceAction::Emitted
            },
        }
    }
}

/// Decision core of `ray_color`: given the remaining bounce budget and what
/// the intersection-and-scatter pass reported, say what this level of the
/// estimator contributes.
pub fn trace_step(depth: usize, event: TraceEvent) -> (action: TraceAction)
    ensures
        action == trace_step_spec(depth, event),
        depth == 0 ==> action == TraceAction::Black,
        action matches TraceAction::EmittedPlusScattered { next_depth } ==> next_depth < depth,
{
    if depth == 0 {
        TraceAction::Black
    } else {
        match event {
            TraceEvent::Miss => TraceAction::Background,
            TraceEvent::Hit { scattered } => if scattered {
                TraceAction::EmittedPlusScattered { next_depth: depth - 1 }
            } else {
                TraceAction::Emitted
            },
        }
    }
}

/// With no bounces left the estimator returns zero radiance, whatever the
/// scene reported: the recursion has a fixed terminal state.
pub proof fn lemma_depth_zero_is_black(event: TraceEvent)
    ensures
        trace_step_spec(0, event) == TraceAction::Black,
{
}

/// Every continuation strictly decreases the remaining depth.
pub proof fn lemma_bounce_consumes_depth(depth: usize, event: TraceEvent)
    ensures
        trace_step_spec(depth, event) matches TraceAction::EmittedPlusScattered { next_depth }
            ==> next_depth < depth,
{
}

/// How many bounces a path takes: starting with `depth` budget and meeting
/// the given scene reports one level at a time, count the consecutive
/// continuations before the estimator stops recursing.
pub open spec fn path_bounces(depth: usize, events: Seq<TraceEvent>) -> nat
    decreases events.len(),
{
    if events.len() == 0 {
        0
    } else {
        match trace_step_spec(depth, events[0]) {
            TraceAction::EmittedPlusScattered { next_depth } => 1 + path_bounces(
                next_depth,
                events.drop_first(),
            ),
            _ => 0,
        }
    }
}

/// Law: the recursion is bounded.  Whatever the scene reports at each
/// level, a path started with budget `depth` takes at most `depth` bounces
/// before it reaches a terminal action.
pub proof fn lemma_path_bounded(depth: usize, events: Seq<TraceEvent>)
    ensures
        path_bounces(depth, events) <= depth,
    decreases events.len(),
{
    if events.len() > 0 {
        match trace_step_spec(depth, events[0]) {
            TraceAction::EmittedPlusScattered { next_depth } => {
                lemma_path_bounded(next_depth, events.drop_first());
            },
            _ => {},
        }
    }
}

} // verus!
