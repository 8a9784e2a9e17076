use vstd::prelude::*;

verus! {

/// What the end-of-stroke loop does with one tentative step.
#[derive(Debug, Clone, Copy, PartialEq, Eq, Structural)]
pub enum CatchUpStep {
    /// Progress has stalled: drop the candidate and stop.
    Stop,
    /// The candidate overshoots the anchor: drop it, halve the time step and try again.
    Retry,
    /// Keep the candidate and go on.
    Emit,
    /// Keep the candidate and stop: the tip has reached the anchor.
    EmitAndStop,
}

/// The decision for one candidate, from the three tests made on it, in their order:
/// did it move less than the stopping distance, does it fall short of the anchor's
/// projection, and is it within the stopping distance of the anchor.
pub open spec fn step_decision(stalled: bool, overshoot: bool, at_anchor: bool) -> CatchUpStep {
    if stalled {
        CatchUpStep::Stop
    } else if overshoot {
        CatchUpStep::Retry
    } else if at_anchor {
        CatchUpStep::EmitAndStop
    } else {
        CatchUpStep::Emit
    }
}

pub open spec fn keeps_candidate(s: CatchUpStep) -> bool {
    s is Emit || s is EmitAndStop
}

pub open spec fn ends_loop(s: CatchUpStep) -> bool {
    s is Stop || s is EmitAndStop
}

/// Bookkeeping of the end-of-stroke catch-up: it bounds the number of tentative steps
/// and counts the samples kept.
pub struct CatchUp {
    max_iterations: usize,
    iterations: usize,
    emitted: usize,
    finished: bool,
}

impl CatchUp {
    pub closed spec fn wf(&self) -> bool {
        self.emitted <= self.iterations <= self.max_iterations
    }

    /// Tentative steps allowed in all.
    pub closed spec fn limit(&self) -> nat {
        self.max_iterations as nat
    }

    /// Tentative steps made so far.
    pub closed spec fn steps(&self) -> nat {
        self.iterations as nat
    }

    /// Candidates kept so far.
    pub closed spec fn kept(&self) -> nat {
        self.emitted as nat
    }

    /// Whether a decision has ended the loop.
    pub closed spec fn stopped(&self) -> bool {
        self.finished
    }

    /// A loop that may make up to `max_iterations` tentative steps.
    pub fn new(max_iterations: usize) -> (r: Self)
        ensures
            r.wf(),
            r.limit() == max_iterations,
            r.steps() == 0,
            r.kept() == 0,
            !r.stopped(),
    {
        CatchUp { max_iterations, iterations: 0, emitted: 0, finished: false }
    }

    /// Whether another tentative step may be made.
    pub fn active(&self) -> (r: bool)
        ensures
            r == (!self.stopped() && self.steps() < self.limit()),
    {
        !self.finished && self.iterations < self.max_iterations
    }

    /// Candidates kept so far.
    pub fn emitted(&self) -> (r: usize)
        ensures
            r == self.kept(),
    {
        self.emitted
    }

    /// Records the outcome of one tentative step and says what to do with it.
    pub fn record(&mut self, stalled: bool, overshoot: bool, at_anchor: bool) -> (r: CatchUpStep)
        requires
            old(self).wf(),
            !old(self).stopped(),
            old(self).steps() < old(self).limit(),
        ensures
            final(self).wf(),
            r == step_decision(stalled, overshoot, at_anchor),
            final(self).limit() == old(self).limit(),
            final(self).steps() == old(self).steps() + 1,
            final(self).kept() == old(self).kept() + if keeps_candidate(r) {
                1nat
            } else {
                0nat
            },
            final(self).stopped() == ends_loop(r),
    {
        self.iterations = self.iterations + 1;
        let r = if stalled {
            CatchUpStep::Stop
        } else if overshoot {
            CatchUpStep::Retry
        } else if at_anchor {
            CatchUpStep::EmitAndStop
        } else {
            CatchUpStep::Emit
        };
        match r {
            CatchUpStep::Emit | CatchUpStep::EmitAndStop => {
                self.emitted = self.emitted + 1;
            },
            _ => {},
        }
        match r {
            CatchUpStep::Stop | CatchUpStep::EmitAndStop => {
                self.finished = true;
            },
            _ => {},
        }
        r
    }
}

/// Steps made and candidates kept when the outcomes `outcomes` are fed, one per
/// tentative step, to a loop that has made `steps` steps, kept `kept` candidates and may
/// make `limit` steps in all.
pub open spec fn run(steps: nat, kept: nat, limit: nat, outcomes: Seq<(bool, bool, bool)>) -> (
    nat,
    nat,
)
    decreases outcomes.len(),
{
    if outcomes.len() == 0 || steps >= limit {
        (steps, kept)
    } else {
        let d = step_decision(outcomes[0].0, outcomes[0].1, outcomes[0].2);
        let kept2 = if keeps_candidate(d) {
            kept + 1
        } else {
            kept
        };
        if ends_loop(d) {
            (steps + 1, kept2)
        } else {
            run(steps + 1, kept2, limit, outcomes.drop_first())
        }
    }
}

/// Whatever the outcomes of its tentative steps, the catch-up makes at most
/// `max_iterations` of them and keeps at most as many samples as steps.
pub proof fn lemma_catch_up_bounded(max_iterations: nat, outcomes: Seq<(bool, bool, bool)>)
    ensures
        run(0, 0, max_iterations, outcomes).1 <= run(0, 0, max_iterations, outcomes).0,
        run(0, 0, max_iterations, outcomes).0 <= max_iterations,
{
    lemma_run_bounded(0, 0, max_iterations, outcomes);
}

proof fn lemma_run_bounded(steps: nat, kept: nat, limit: nat, outcomes: Seq<(bool, bool, bool)>)
    requires
        kept <= steps <= limit,
    ensures
        run(steps, kept, limit, outcomes).1 <= run(steps, kept, limit, outcomes).0,
        run(steps, kept, limit, outcomes).0 <= limit,
    decreases outcomes.len(),
{
    if outcomes.len() > 0 && steps < limit {
        let d = step_decision(outcomes[0].0, outcomes[0].1, outcomes[0].2);
        let kept2 = if keeps_candidate(d) {
            kept + 1
        } else {
            kept
        };
        if !ends_loop(d) {
            lemma_run_bounded(steps + 1, kept2, limit, outcomes.drop_first());
        }
    }
}

} // verus!
