//! The cooperative shutdown protocol: two monotonic flags shared between the
//! main workflow and the shutdown coordinator, and the coordinator's bounded
//! grace-period wait.
use vstd::prelude::*;

verus! {

/// The two flags of the shutdown protocol. Each moves from false to true at
/// most once and never back.
pub struct ShutdownSignal {
    pub cancel_requested: bool,
    pub work_completed: bool,
}

impl ShutdownSignal {
    /// A fresh signal: nothing requested, nothing completed.
    pub fn new() -> (r: Self)
        ensures
            !r.cancel_requested,
            !r.work_completed,
    {
        ShutdownSignal { cancel_requested: false, work_completed: false }
    }

    /// Records a termination request. Sets `cancel_requested` and touches
    /// nothing else, so the flag can only rise.
    pub fn request_cancel(&mut self)
        ensures
            final(self).cancel_requested,
            final(self).work_completed == old(self).work_completed,
    {
        self.cancel_requested = true;
    }

    /// Records that the main workflow reached one of its exit paths. Sets
    /// `work_completed` and touches nothing else, so the flag can only rise.
    pub fn mark_completed(&mut self)
        ensures
            final(self).work_completed,
            final(self).cancel_requested == old(self).cancel_requested,
    {
        self.work_completed = true;
    }
}

/// The coordinator's bounded wait for the workflow to acknowledge
/// completion: a fixed number of short polling steps, after which the
/// coordinator proceeds regardless.
pub struct GraceTimer {
    pub steps_used: u64,
    pub max_steps: u64,
}

impl GraceTimer {
    /// The timer never runs past its bound.
    pub open spec fn wf(self) -> bool {
        self.steps_used <= self.max_steps
    }

    /// A fresh timer that will allow at most `max_steps` polls.
    pub fn new(max_steps: u64) -> (r: Self)
        ensures
            r.wf(),
            r.steps_used == 0,
            r.max_steps == max_steps,
    {
        GraceTimer { steps_used: 0, max_steps }
    }

    /// One poll of the completion flag. Returns whether the coordinator
    /// should stop waiting: immediately once completion is observed, and in
    /// any case once the bound is exhausted.
    pub fn tick(&mut self, work_completed: bool) -> (stop: bool)
        requires
            old(self).wf(),
            old(self).steps_used < old(self).max_steps,
        ensures
            final(self).wf(),
            final(self).max_steps == old(self).max_steps,
            final(self).steps_used == old(self).steps_used + 1,
            stop == (work_completed || final(self).steps_used == final(self).max_steps),
    {
        self.steps_used = self.steps_used + 1;
        work_completed || self.steps_used == self.max_steps
    }
}

} // verus!
