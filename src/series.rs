//! Control of a series summation: how a run over the terms of the term
//! recurrence advances, when it stops, and whether its sum is trusted.
//!
//! The caller owns the doubles (term, sum, sum of magnitudes) and tells a
//! run, step by step, the facts it needs.
use vstd::prelude::*;

verus! {

/// Largest number of terms that the plain capped sum adds.
pub const SERIES_MAX_TERMS: u32 = 500;

/// Largest number of terms that the convergence-tracked sum adds.
pub const TRACKED_MAX_TERMS: u32 = 1000;

/// Number of terms of the gamma-based reference sum (indices 0 to 100).
pub const REFERENCE_MAX_TERMS: u32 = 101;

/// Where a run stands.
#[derive(Clone, Copy, Debug, PartialEq, Eq)]
pub enum RunState {
    /// The term of the current step is still to be computed and tested.
    Running,
    /// The current term was small enough: the run stopped at this step.
    Converged,
    /// Every step up to the cap went by without a small term.
    Exhausted,
    /// The current term divides a nonzero numerator by zero.
    Undefined,
}

/// How the term of a step follows from the previous one.
#[derive(Clone, Copy, Debug, PartialEq, Eq)]
pub enum TermUpdate {
    /// term *= (a + k) z / ((b + k)(k + 1)).
    Recur,
    /// 0/0 at b + k == a + k == 0: the term is 0 in the limit.
    Vanish,
    /// b + k == 0 with a + k != 0: the term is undefined.
    Undefined,
}

/// What becomes of the sum of a convergence-tracked run.
#[derive(Clone, Copy, Debug, PartialEq, Eq)]
pub enum Verdict {
    /// The sum is the result.
    Accepted,
    /// The cap was reached without a small term.
    NotConverged,
    /// The run stopped, but the estimated rounding error is too large.
    PrecisionLost,
    /// A term was undefined.
    UndefinedTerm,
}

/// A summation run: the index of the current step, the cap on the number of
/// steps, and where the run stands.
#[derive(Clone, Copy, Debug, PartialEq, Eq)]
pub struct SeriesRun {
    pub step: u32,
    pub cap: u32,
    pub state: RunState,
}

/// The rule for the term of a step, from whether b + k and a + k are zero.
pub open spec fn term_update_of(denominator_zero: bool, numerator_zero: bool) -> TermUpdate {
    if !denominator_zero {
        TermUpdate::Recur
    } else if numerator_zero {
        TermUpdate::Vanish
    } else {
        TermUpdate::Undefined
    }
}

impl SeriesRun {
    /// A run in progress is before its cap; an exhausted one stands at it.
    pub open spec fn wf(self) -> bool {
        &&& self.step <= self.cap
        &&& self.state is Running ==> self.step < self.cap
        &&& self.state is Exhausted ==> self.step == self.cap
    }

    /// The run after the term of the current step was found small or not.
    pub open spec fn next(self, small: bool) -> SeriesRun {
        if !(self.state is Running) {
            self
        } else if small {
            SeriesRun { state: RunState::Converged, ..self }
        } else if self.step + 1 == self.cap {
            SeriesRun { step: self.cap, state: RunState::Exhausted, ..self }
        } else {
            SeriesRun { step: (self.step + 1) as u32, ..self }
        }
    }

    /// The run after a sequence of smallness tests, one per step.
    pub open spec fn after(self, smalls: Seq<bool>) -> SeriesRun
        decreases smalls.len(),
    {
        if smalls.len() == 0 {
            self
        } else {
            self.next(smalls[0]).after(smalls.drop_first())
        }
    }

    /// The verdict on a run that has stopped, given whether its estimated
    /// rounding error is within budget.
    pub open spec fn verdict_of(self, within_budget: bool) -> Verdict {
        match self.state {
            RunState::Converged => if within_budget {
                Verdict::Accepted
            } else {
                Verdict::PrecisionLost
            },
            RunState::Undefined => Verdict::UndefinedTerm,
            _ => Verdict::NotConverged,
        }
    }

    /// A run of at most `cap` steps, at its first step.
    pub fn new(cap: u32) -> (r: SeriesRun)
        ensures
            r.wf(),
            r.cap == cap,
            r.step == 0,
            r.state == (if cap == 0 { RunState::Exhausted } else { RunState::Running }),
    {
        let state = if cap == 0 {
            RunState::Exhausted
        } else {
            RunState::Running
        };
        SeriesRun { step: 0, cap, state }
    }

    pub fn is_running(&self) -> (r: bool)
        ensures
            r == (self.state is Running),
    {
        match self.state {
            RunState::Running => true,
            _ => false,
        }
    }

    /// The index of the current step: where a converged run stopped.
    pub fn step(&self) -> (r: u32)
        ensures
            r == self.step,
    {
        self.step
    }

    /// Picks the rule for the term of the current step; a run in progress
    /// ends as undefined where the term divides a nonzero number by zero.
    pub fn term_update(&mut self, denominator_zero: bool, numerator_zero: bool) -> (u:
        TermUpdate)
        requires
            old(self).wf(),
        ensures
            u == term_update_of(denominator_zero, numerator_zero),
            final(self).wf(),
            *final(self) == (if old(self).state is Running && u is Undefined {
                SeriesRun { state: RunState::Undefined, ..*old(self) }
            } else {
                *old(self)
            }),
    {
        let u = if !denominator_zero {
            TermUpdate::Recur
        } else if numerator_zero {
            TermUpdate::Vanish
        } else {
            TermUpdate::Undefined
        };
        if self.is_running() {
            if let TermUpdate::Undefined = u {
                self.state = RunState::Undefined;
            }
        }
        u
    }

    /// Records whether the term of the current step was small enough to stop;
    /// a run that has stopped stays as it is.
    pub fn advance(&mut self, small: bool)
        requires
            old(self).wf(),
        ensures
            *final(self) == old(self).next(small),
            final(self).wf(),
    {
        if !self.is_running() {
            return;
        }
        if small {
            self.state = RunState::Converged;
        } else if self.step + 1 == self.cap {
            self.step = self.cap;
            self.state = RunState::Exhausted;
        } else {
            self.step = self.step + 1;
        }
    }

    /// Judges a run that has stopped: a converged run is accepted only where
    /// its estimated rounding error is within budget.
    pub fn verdict(&self, within_budget: bool) -> (v: Verdict)
        requires
            !(self.state is Running),
        ensures
            v == self.verdict_of(within_budget),
    {
        match self.state {
            RunState::Converged => if within_budget {
                Verdict::Accepted
            } else {
                Verdict::PrecisionLost
            },
            RunState::Undefined => Verdict::UndefinedTerm,
            _ => Verdict::NotConverged,
        }
    }
}

/// Where a and b are integers with b <= a < 0, the terms up to the one at
/// k = -a, where the series ends, are never undefined: a zero denominator
/// can only come with a zero numerator.
pub proof fn lemma_cancelled_pole_has_no_undefined_term(a: int, b: int, k: int)
    requires
        b <= a < 0,
        0 <= k <= -a,
    ensures
        term_update_of(b + k == 0, a + k == 0) != TermUpdate::Undefined,
{
}

/// Where a and b are integers with a < b <= 0, the term at k = -b divides a
/// nonzero numerator by zero.
pub proof fn lemma_uncancelled_pole_has_undefined_term(a: int, b: int)
    requires
        a < b <= 0,
    ensures
        term_update_of(b + (-b) == 0, a + (-b) == 0) == TermUpdate::Undefined,
{
}

/// A run that has stopped is left as it is by further tests.
pub proof fn lemma_stopped_run_stays(r: SeriesRun, smalls: Seq<bool>)
    requires
        !(r.state is Running),
    ensures
        r.after(smalls) == r,
    decreases smalls.len(),
{
    if smalls.len() > 0 {
        lemma_stopped_run_stays(r.next(smalls[0]), smalls.drop_first());
    }
}

/// Every run stops within its cap: after as many tests as steps remain
/// before the cap, whatever they said, it is no longer running.
pub proof fn lemma_run_stops_by_cap(r: SeriesRun, smalls: Seq<bool>)
    requires
        r.wf(),
        r.step + smalls.len() >= r.cap,
    ensures
        !(r.after(smalls).state is Running),
        r.after(smalls).wf(),
    decreases smalls.len(),
{
    if smalls.len() > 0 {
        let n = r.next(smalls[0]);
        if n.state is Running {
            lemma_run_stops_by_cap(n, smalls.drop_first());
        } else {
            lemma_stopped_run_stays(n, smalls.drop_first());
        }
    }
}

/// A run that meets no small term before its cap ends exhausted, at the cap.
pub proof fn lemma_no_small_term_exhausts(r: SeriesRun, smalls: Seq<bool>)
    requires
        r.wf(),
        r.state is Running,
        r.step + smalls.len() == r.cap,
        forall|i: int| 0 <= i < smalls.len() ==> !smalls[i],
    ensures
        r.after(smalls) == (SeriesRun { step: r.cap, state: RunState::Exhausted, ..r }),
    decreases smalls.len(),
{
    let n = r.next(smalls[0]);
    if n.state is Running {
        let rest = smalls.drop_first();
        assert forall|i: int| 0 <= i < rest.len() implies !rest[i] by {
            assert(rest[i] == smalls[i + 1]);
        }
        lemma_no_small_term_exhausts(n, rest);
    } else {
        lemma_stopped_run_stays(n, smalls.drop_first());
    }
}

/// A run stops at the first small term: where the first test that passes
/// is the one at offset i, the run ends converged, i steps further on.
pub proof fn lemma_run_stops_at_first_small_term(r: SeriesRun, smalls: Seq<bool>, i: int)
    requires
        r.wf(),
        r.state is Running,
        0 <= i < smalls.len(),
        r.step + i < r.cap,
        smalls[i],
        forall|j: int| 0 <= j < i ==> !smalls[j],
    ensures
        r.after(smalls) == (SeriesRun {
            step: (r.step + i) as u32,
            state: RunState::Converged,
            ..r
        }),
    decreases i,
{
    let n = r.next(smalls[0]);
    let rest = smalls.drop_first();
    if i == 0 {
        lemma_stopped_run_stays(n, rest);
    } else {
        assert forall|j: int| 0 <= j < i - 1 implies !rest[j] by {
            assert(rest[j] == smalls[j + 1]);
        }
        lemma_run_stops_at_first_small_term(n, rest, i - 1);
    }
}

} // verus!
