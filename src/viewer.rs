//! The render loop's state: {Initializing, Running, Terminated} and the point
//! set it retains between ticks.

use vstd::prelude::*;

verus! {

#[derive(Clone, Copy, Debug, PartialEq, Eq, Structural)]
pub enum ViewerPhase {
    Initializing,
    Running,
    Terminated,
}

/// The render side's state; `T` is the point set it draws.
pub struct ViewerState<T> {
    phase: ViewerPhase,
    points: Option<T>,
}

impl<T> ViewerState<T> {
    pub closed spec fn spec_phase(&self) -> ViewerPhase {
        self.phase
    }

    /// The point set drawn on each tick, if one was received.
    pub closed spec fn spec_points(&self) -> Option<T> {
        self.points
    }

    pub fn new() -> (s: ViewerState<T>)
        ensures
            s.spec_phase() == ViewerPhase::Initializing,
            s.spec_points() is None,
    {
        ViewerState { phase: ViewerPhase::Initializing, points: None }
    }

    /// The display surface is up: ticks may run.
    pub fn start(&mut self)
        ensures
            final(self).spec_phase() == if old(self).spec_phase() == ViewerPhase::Initializing {
                ViewerPhase::Running
            } else {
                old(self).spec_phase()
            },
            final(self).spec_points() == old(self).spec_points(),
    {
        if self.phase == ViewerPhase::Initializing {
            self.phase = ViewerPhase::Running;
        }
    }

    /// One render tick with what a non-blocking receive gave: a new point set
    /// replaces the retained one, nothing new keeps it. Returns whether the
    /// tick should draw (only while running).
    pub fn step(&mut self, received: Option<T>) -> (draw: bool)
        ensures
            draw == (old(self).spec_phase() == ViewerPhase::Running),
            final(self).spec_phase() == old(self).spec_phase(),
            final(self).spec_points() == if draw && received is Some {
                received
            } else {
                old(self).spec_points()
            },
    {
        if self.phase != ViewerPhase::Running {
            return false;
        }
        if let Some(points) = received {
            self.points = Some(points);
        }
        true
    }

    /// The host asked to shut down: no further ticks draw.
    pub fn terminate(&mut self)
        ensures
            final(self).spec_phase() == ViewerPhase::Terminated,
            final(self).spec_points() == old(self).spec_points(),
    {
        self.phase = ViewerPhase::Terminated;
    }

    pub fn phase(&self) -> (r: ViewerPhase)
        ensures
            r == self.spec_phase(),
    {
        self.phase
    }

    /// The retained point set.
    pub fn points(&self) -> (r: Option<&T>)
        ensures
            r matches Some(p) ==> self.spec_points() == Some(*p),
            r is None <==> self.spec_points() is None,
    {
        match &self.points {
            Some(p) => Some(p),
            None => None,
        }
    }
}

} // verus!
