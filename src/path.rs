use vstd::prelude::*;

verus! {

/// What one step of a light path met: the ray left the scene, or it hit a
/// surface whose material absorbed it, or one that scattered it on.
#[derive(Clone, Copy, Debug, PartialEq, Eq, Structural)]
pub enum Bounce {
    Miss,
    Absorbed,
    Scattered,
}

/// What the tracer does with a path after one step.
#[derive(Clone, Copy, Debug, PartialEq, Eq, Structural)]
pub enum Step {
    /// The path ends in the sky: its radiance is the sky gradient.
    Sky,
    /// The path ends with no light: absorbed, or cut off at the bounce limit.
    Black,
    /// The path goes on along the scattered ray, which is at the given depth.
    Continue(u32),
}

/// The decision after a step at `depth` (the primary ray has depth `0`) of a
/// path that may bounce at most `max_depth` times: a miss ends in the sky, an
/// absorption in black, and a scattered ray is followed one level deeper only
/// while `depth < max_depth`.
pub fn next_step(depth: u32, max_depth: u32, bounce: Bounce) -> (s: Step)
    ensures
        bounce == Bounce::Miss ==> s == Step::Sky,
        bounce == Bounce::Absorbed ==> s == Step::Black,
        bounce == Bounce::Scattered && depth < max_depth ==> s == Step::Continue(
            (depth + 1) as u32,
        ),
        bounce == Bounce::Scattered && depth >= max_depth ==> s == Step::Black,
{
    match bounce {
        Bounce::Miss => Step::Sky,
        Bounce::Absorbed => Step::Black,
        Bounce::Scattered => {
            if depth < max_depth {
                Step::Continue(depth + 1)
            } else {
                Step::Black
            }
        },
    }
}

} // verus!
