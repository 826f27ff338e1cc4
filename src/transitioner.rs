use vstd::prelude::*;
use crate::transitioning::{Transitioning, all_transitions};

verus! {

/// How long a transition lasts, in milliseconds of progress.
pub const TRANSITIONING_TIME: u64 = 1000;

/// Progress advances this many times faster than the clock.
pub const TRANSITION_RATE: u64 = 2;

/// Blends from the previous slide to the next: idle, or transitioning with
/// its progress.
#[derive(Clone, Debug)]
pub struct Transitioner {
    /// The mask in use.
    pub transition: Transitioning,
    pub transition_progress: u64,
    pub transitioning: bool,
    /// The catalog cycled through when every slide shows another transition.
    pub transitions: Vec<Transitioning>,
    pub current_transition: usize,
}

/// The state after `delta` milliseconds: progress grows at the rate and, once
/// past the duration, drops back to 0 as the transition ends.
pub open spec fn after_update(transitioning: bool, progress: int, delta: int) -> (bool, int) {
    if !transitioning {
        (transitioning, progress)
    } else if progress + TRANSITION_RATE * delta > TRANSITIONING_TIME {
        (false, 0)
    } else {
        (true, progress + TRANSITION_RATE * delta)
    }
}

impl Transitioner {
    /// Progress stays within the duration, and is 0 while idle.
    pub open spec fn wf(&self) -> bool {
        &&& self.transition_progress <= TRANSITIONING_TIME
        &&& (!self.transitioning ==> self.transition_progress == 0)
        &&& self.transitions@.len() > 0
        &&& self.current_transition < self.transitions@.len()
    }

    /// An idle transitioner showing `transitioning`, cycling through the
    /// whole catalog from its start.
    pub fn load(transitioning: Transitioning) -> (t: Transitioner)
        ensures
            t.wf(),
            t.transition == transitioning,
            t.transition_progress == 0,
            !t.transitioning,
            t.transitions@ == all_transitions(),
            t.current_transition == 0,
    {
        Transitioner {
            transition: transitioning,
            transition_progress: 0,
            transitioning: false,
            transitions: Transitioning::all(),
            current_transition: 0,
        }
    }

    /// Starts a transition: from idle with progress 0; one already running
    /// goes on.
    pub fn start(&mut self)
        requires
            old(self).wf(),
        ensures
            final(self).wf(),
            *final(self) == (Transitioner { transitioning: true, ..*old(self) }),
            !old(self).transitioning ==> final(self).transition_progress == 0,
    {
        self.transitioning = true;
    }

    pub fn current_transition(&self) -> (t: Option<Transitioning>)
        requires
            self.wf(),
        ensures
            t == Some(self.transitions@[self.current_transition as int]),
    {
        Some(self.transitions[self.current_transition])
    }

    pub fn set_transition(&mut self, transitioning: Transitioning)
        requires
            old(self).wf(),
        ensures
            final(self).wf(),
            *final(self) == (Transitioner { transition: transitioning, ..*old(self) }),
    {
        self.transition = transitioning;
    }

    /// Moves to the next transition of the catalog, from the last back to the
    /// first.
    pub fn next_transition(&mut self)
        requires
            old(self).wf(),
        ensures
            final(self).wf(),
            final(self).current_transition == if old(self).current_transition + 1 == old(
                self,
            ).transitions@.len() {
                0
            } else {
                old(self).current_transition + 1
            },
            final(self).transitions == old(self).transitions,
            final(self).transition == old(self).transition,
            final(self).transitioning == old(self).transitioning,
            final(self).transition_progress == old(self).transition_progress,
    {
        let n = self.transitions.len();
        self.current_transition = self.current_transition + 1;
        if self.current_transition == n {
            self.current_transition = 0;
        }
    }

    /// Advances a running transition by `delta` milliseconds.
    pub fn update(&mut self, delta: u64)
        requires
            old(self).wf(),
        ensures
            final(self).wf(),
            (final(self).transitioning, final(self).transition_progress as int) == after_update(
                old(self).transitioning,
                old(self).transition_progress as int,
                delta as int,
            ),
            final(self).transitions == old(self).transitions,
            final(self).current_transition == old(self).current_transition,
            final(self).transition == old(self).transition,
    {
        if !self.transitioning {
            return;
        }
        if delta > TRANSITIONING_TIME {
            self.transition_progress = 0;
            self.transitioning = false;
            return;
        }
        let progress = self.transition_progress + TRANSITION_RATE * delta;
        if progress > TRANSITIONING_TIME {
            self.transition_progress = 0;
            self.transitioning = false;
        } else {
            self.transition_progress = progress;
        }
    }
}

} // verus!
