//! The decisions of the recursive colour integrator, as a state machine.
//!
//! Tracing a path alternates geometric work, done by the caller, with the
//! decisions here. For each segment the caller reports whether the ray struck
//! a surface; the tracer answers whether the path ends on the sky gradient,
//! ends black, or asks the struck material to scatter. After a scatter the
//! caller reports whether the material redirected the ray or absorbed it. The
//! path's colour is the product of the attenuations gathered along it, times
//! the sky colour when it ends on the sky, and black otherwise.
use vstd::prelude::*;

verus! {

/// The default bound on the number of scatter events along one path.
pub const MAX_DEPTH: u32 = 50;

/// What the scene did to the current segment of the path.
#[derive(Clone, Copy, Debug, PartialEq, Eq, Structural)]
pub enum Segment {
    /// The ray struck no surface.
    Miss,
    /// The ray struck a surface; the nearest one decides what follows.
    Hit,
}

/// What the tracer asks of the caller for the current segment.
#[derive(Clone, Copy, Debug, PartialEq, Eq, Structural)]
pub enum Action {
    /// The path ends: its colour is the gathered attenuation times the sky.
    Background,
    /// The path ends black: no further light is gathered.
    Absorb,
    /// Ask the struck material to scatter the ray, then report the outcome.
    Scatter,
}

/// The action for a segment met at recursion depth `depth`.
pub open spec fn action_for(depth: u32, max_depth: u32, segment: Segment) -> Action {
    match segment {
        Segment::Miss => Action::Background,
        Segment::Hit => if depth < max_depth {
            Action::Scatter
        } else {
            Action::Absorb
        },
    }
}

/// A path in flight: how many scatter events it has gone through, and the
/// bound on them.
#[derive(Clone, Copy, Debug, PartialEq, Eq, Structural)]
pub struct Tracer {
    pub depth: u32,
    pub max_depth: u32,
}

impl Tracer {
    /// A path that starts at the camera.
    pub fn new(max_depth: u32) -> (r: Tracer)
        ensures
            r.depth == 0,
            r.max_depth == max_depth,
    {
        Tracer { depth: 0, max_depth }
    }

    /// A path that has already gone through `depth` scatter events.
    pub fn at_depth(depth: u32, max_depth: u32) -> (r: Tracer)
        ensures
            r.depth == depth,
            r.max_depth == max_depth,
    {
        Tracer { depth, max_depth }
    }

    /// What to do with the current segment: the sky on a miss, a scatter on a
    /// hit while depth remains, and black on a hit once the depth is spent.
    pub fn on_segment(&self, segment: Segment) -> (r: Action)
        ensures
            r == action_for(self.depth, self.max_depth, segment),
            segment == Segment::Hit && self.depth >= self.max_depth ==> r == Action::Absorb,
    {
        match segment {
            Segment::Miss => Action::Background,
            Segment::Hit => if self.depth < self.max_depth {
                Action::Scatter
            } else {
                Action::Absorb
            },
        }
    }

    /// Records the outcome of a scatter that `on_segment` asked for. When the
    /// material redirected the ray the path goes one level deeper and tracing
    /// goes on with the scattered ray; when it absorbed the ray the path ends
    /// black.
    pub fn on_scatter(&mut self, redirected: bool) -> (go_on: bool)
        requires
            old(self).depth < old(self).max_depth,
        ensures
            go_on == redirected,
            final(self).max_depth == old(self).max_depth,
            final(self).depth == if redirected {
                old(self).depth + 1
            } else {
                old(self).depth as int
            },
    {
        if redirected {
            self.depth = self.depth + 1;
        }
        redirected
    }
}

/// Depth exhaustion: a path that meets a surface once its depth is spent ends
/// black, whatever the surface.
pub proof fn exhausted_depth_absorbs(t: Tracer)
    requires
        t.depth >= t.max_depth,
    ensures
        action_for(t.depth, t.max_depth, Segment::Hit) == Action::Absorb,
{
}

/// A path that keeps scattering goes at most `max_depth` levels deep: each
/// scatter is asked for only below the bound and adds one level.
pub proof fn scatter_stays_within_bound(t: Tracer, segment: Segment)
    requires
        t.depth <= t.max_depth,
        action_for(t.depth, t.max_depth, segment) == Action::Scatter,
    ensures
        t.depth + 1 <= t.max_depth,
        segment == Segment::Hit,
{
}

} // verus!
