use vstd::prelude::*;

verus! {

/// What happened to the current ray of a path.
#[derive(Clone, Copy, Debug, PartialEq, Eq, Structural)]
pub enum Event {
    /// The ray left the scene: it sees the sky.
    Missed,
    /// The ray hit a surface whose material absorbed it.
    Absorbed,
    /// The ray hit a surface and the material sent out a new ray.
    Scattered,
}

/// What the integrator does next with a path.
#[derive(Clone, Copy, Debug, PartialEq, Eq, Structural)]
pub enum Step {
    /// The path contributes nothing.
    Black,
    /// The path ends on the sky: its throughput times the sky gradient.
    Sky,
    /// Trace the current ray, with `depth_left` bounces still allowed.
    Trace { depth_left: u8 },
}

pub open spec fn spec_start(max_depth: u8) -> Step {
    if max_depth == 0 {
        Step::Black
    } else {
        Step::Trace { depth_left: max_depth }
    }
}

pub open spec fn spec_advance(depth_left: u8, event: Event) -> Step {
    match event {
        Event::Missed => Step::Sky,
        Event::Absorbed => Step::Black,
        Event::Scattered => if depth_left <= 1 {
            Step::Black
        } else {
            Step::Trace { depth_left: (depth_left - 1) as u8 }
        },
    }
}

/// The step reached from `step` after the traced rays meet `events` in order.
pub open spec fn follow(step: Step, events: Seq<Event>) -> Step
    decreases events.len(),
{
    if events.len() == 0 {
        step
    } else {
        match step {
            Step::Trace { depth_left } => follow(
                spec_advance(depth_left, events[0]),
                events.drop_first(),
            ),
            _ => step,
        }
    }
}

/// First step of a path allowed `max_depth` rays: nothing is traced at depth 0.
pub fn start(max_depth: u8) -> (r: Step)
    ensures
        r == spec_start(max_depth),
{
    if max_depth == 0 {
        Step::Black
    } else {
        Step::Trace { depth_left: max_depth }
    }
}

/// Next step after tracing a ray with `depth_left` rays allowed: a miss shades
/// the sky, an absorption ends the path dark, a scatter traces the new ray with
/// one less allowed, and ends dark when none is left.
pub fn advance(depth_left: u8, event: Event) -> (r: Step)
    requires
        depth_left > 0,
    ensures
        r == spec_advance(depth_left, event),
        r matches Step::Trace { depth_left: d } ==> 0 < d < depth_left,
{
    match event {
        Event::Missed => Step::Sky,
        Event::Absorbed => Step::Black,
        Event::Scattered => if depth_left == 1 {
            Step::Black
        } else {
            Step::Trace { depth_left: depth_left - 1 }
        },
    }
}

proof fn lemma_trace_ends(depth_left: u8, events: Seq<Event>)
    requires
        depth_left > 0,
        events.len() >= depth_left,
    ensures
        !(follow(Step::Trace { depth_left }, events) is Trace),
    decreases depth_left,
{
    let next = spec_advance(depth_left, events[0]);
    let rest = events.drop_first();
    assert(follow(Step::Trace { depth_left }, events) == follow(next, rest));
    match next {
        Step::Trace { depth_left: d } => {
            lemma_trace_ends(d, rest);
        },
        _ => {
            if rest.len() > 0 {
                assert(follow(next, rest) == next);
            }
        },
    }
}

/// A path traces at most `max_depth` rays: whatever the surfaces do, after
/// `max_depth` events it has ended, dark or on the sky.
pub proof fn lemma_path_depth_bounded(max_depth: u8, events: Seq<Event>)
    requires
        events.len() >= max_depth,
    ensures
        !(follow(spec_start(max_depth), events) is Trace),
{
    if max_depth == 0 {
        if events.len() > 0 {
            assert(follow(Step::Black, events) == Step::Black);
        }
    } else {
        lemma_trace_ends(max_depth, events);
    }
}

/// A path ends on the sky only right after a miss.
pub proof fn lemma_sky_follows_miss(depth_left: u8, event: Event)
    ensures
        spec_advance(depth_left, event) == Step::Sky <==> event == Event::Missed,
{
}

} // verus!
