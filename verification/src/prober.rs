//! Bounded readiness probe: the decision logic of the loop that polls the
//! backend's health endpoint until it answers with a success status or a
//! fixed attempt budget is exhausted.
//!
//! One HTTP attempt is summarised as a [`ProbeOutcome`]; the caller performs
//! the request and hands the outcome in. [`Prober`] is the step-by-step state
//! machine the application drives; [`wait_for_ready`] runs the whole loop
//! over a recorded outcome per prospective attempt.

use vstd::prelude::*;

verus! {

/// What one health-check attempt observed.
#[derive(Clone, Copy, Debug, PartialEq, Eq, Structural)]
pub enum ProbeOutcome {
    /// A response arrived carrying this HTTP status code.
    Status(u16),
    /// The request itself failed: connection refused, timeout, and the like.
    NoResponse,
}

/// A status code in the 2xx range signals readiness.
pub open spec fn spec_is_success_status(code: u16) -> bool {
    200 <= code <= 299
}

/// Decide whether a status code counts as success (2xx).
pub fn is_success_status(code: u16) -> (r: bool)
    ensures
        r == spec_is_success_status(code),
{
    200 <= code && code <= 299
}

/// An attempt succeeds exactly when a response arrived with a 2xx status.
pub open spec fn outcome_ok(o: ProbeOutcome) -> bool {
    match o {
        ProbeOutcome::Status(code) => spec_is_success_status(code),
        ProbeOutcome::NoResponse => false,
    }
}

/// Decide whether one attempt's outcome counts as success.
pub fn outcome_is_ok(o: &ProbeOutcome) -> (r: bool)
    ensures
        r == outcome_ok(*o),
{
    match o {
        ProbeOutcome::Status(code) => is_success_status(*code),
        ProbeOutcome::NoResponse => false,
    }
}

/// Number of attempts the loop makes when attempts `i+1 ..= n` remain and
/// attempt `k+1` would observe `outcomes[k]`: it stops at the first success
/// and never exceeds the budget.
pub open spec fn attempts_from(outcomes: Seq<ProbeOutcome>, i: int, n: int) -> int
    decreases n - i,
{
    if i >= n {
        0
    } else if outcome_ok(outcomes[i]) {
        1
    } else {
        1 + attempts_from(outcomes, i + 1, n)
    }
}

/// Whether the loop reports readiness: some attempt within the budget
/// observes a success.
pub open spec fn succeeds_from(outcomes: Seq<ProbeOutcome>, i: int, n: int) -> bool
    decreases n - i,
{
    i < n && (outcome_ok(outcomes[i]) || succeeds_from(outcomes, i + 1, n))
}

/// Number of inter-attempt delays the loop takes: one after every failed
/// attempt that is not the last of the budget, and none after a success.
pub open spec fn delays_from(outcomes: Seq<ProbeOutcome>, i: int, n: int) -> int
    decreases n - i,
{
    if i >= n {
        0
    } else if outcome_ok(outcomes[i]) {
        0
    } else if i + 1 < n {
        1 + delays_from(outcomes, i + 1, n)
    } else {
        0
    }
}

/// What the probe loop does right after recording one outcome.
#[derive(Clone, Copy, Debug, PartialEq, Eq, Structural)]
pub enum ProbeStep {
    /// The backend answered with a success status: stop and report readiness.
    Ready,
    /// The attempt failed and budget remains: pause for the inter-attempt
    /// delay, then retry.
    RetryAfterDelay,
    /// The attempt failed and the budget is exhausted: stop and report
    /// failure.
    GiveUp,
}

/// The step the prober takes after `made` of `max` attempts ended with `o`.
pub open spec fn spec_step(o: ProbeOutcome, made: int, max: int) -> ProbeStep {
    if outcome_ok(o) {
        ProbeStep::Ready
    } else if made < max {
        ProbeStep::RetryAfterDelay
    } else {
        ProbeStep::GiveUp
    }
}

/// Readiness probe with a fixed attempt budget: counts the attempts made and
/// decides after each observed outcome whether to stop or retry.
pub struct Prober {
    /// The fixed attempt budget; at least one.
    pub max_attempts: u32,
    /// Attempts recorded so far; never exceeds the budget.
    pub attempts_made: u32,
}

impl Prober {
    /// The prober's invariant: a positive budget that the count never exceeds.
    pub open spec fn wf(self) -> bool {
        1 <= self.max_attempts && self.attempts_made <= self.max_attempts
    }

    /// Whether the whole budget has been spent.
    pub open spec fn exhausted(self) -> bool {
        self.attempts_made == self.max_attempts
    }

    /// A fresh prober that has made no attempt yet.
    pub fn new(max_attempts: u32) -> (r: Prober)
        requires
            max_attempts >= 1,
        ensures
            r.max_attempts == max_attempts,
            r.attempts_made == 0,
            r.wf(),
    {
        Prober { max_attempts, attempts_made: 0 }
    }

    /// Record the outcome of the attempt that just ran and decide the next
    /// move: stop on success, retry after a delay while budget remains, give
    /// up once it is spent.
    pub fn record_outcome(&mut self, o: &ProbeOutcome) -> (step: ProbeStep)
        requires
            old(self).wf(),
            !old(self).exhausted(),
        ensures
            final(self).wf(),
            final(self).max_attempts == old(self).max_attempts,
            final(self).attempts_made == old(self).attempts_made + 1,
            step == spec_step(*o, final(self).attempts_made as int, final(self).max_attempts as int),
    {
        self.attempts_made = self.attempts_made + 1;
        if outcome_is_ok(o) {
            ProbeStep::Ready
        } else if self.attempts_made < self.max_attempts {
            ProbeStep::RetryAfterDelay
        } else {
            ProbeStep::GiveUp
        }
    }
}

/// Result of a full probe run: whether the backend reported ready, how many
/// attempts ran, and how many inter-attempt delays were taken.
#[derive(Clone, Copy, Debug, PartialEq, Eq, Structural)]
pub struct ProbeReport {
    /// Some attempt observed a 2xx response.
    pub ready: bool,
    /// Attempts actually made; between one and the budget.
    pub attempts: u32,
    /// Inter-attempt delays taken; always one fewer than the attempts.
    pub delays: u32,
}

/// Run the probe loop to completion, attempt `k` observing `outcomes[k - 1]`:
/// stop at the first success, or report failure once `max_attempts` attempts
/// have all failed. A delay is taken after every failed attempt but the last.
pub fn wait_for_ready(outcomes: &Vec<ProbeOutcome>, max_attempts: u32) -> (r: ProbeReport)
    requires
        max_attempts >= 1,
        outcomes@.len() >= max_attempts,
    ensures
        r.ready == succeeds_from(outcomes@, 0, max_attempts as int),
        r.attempts == attempts_from(outcomes@, 0, max_attempts as int),
        r.delays == delays_from(outcomes@, 0, max_attempts as int),
        1 <= r.attempts <= max_attempts,
        r.delays == r.attempts - 1,
{
    let mut prober = Prober::new(max_attempts);
    let mut delays: u32 = 0;
    let mut i: usize = 0;
    loop
        invariant
            prober.wf(),
            prober.max_attempts == max_attempts,
            prober.attempts_made == i,
            i < max_attempts,
            outcomes@.len() >= max_attempts,
            delays == i,
            attempts_from(outcomes@, 0, max_attempts as int) == i + attempts_from(
                outcomes@,
                i as int,
                max_attempts as int,
            ),
            succeeds_from(outcomes@, 0, max_attempts as int) == succeeds_from(
                outcomes@,
                i as int,
                max_attempts as int,
            ),
            delays_from(outcomes@, 0, max_attempts as int) == i + delays_from(
                outcomes@,
                i as int,
                max_attempts as int,
            ),
        decreases max_attempts - i,
    {
        let step = prober.record_outcome(&outcomes[i]);
        match step {
            ProbeStep::Ready => {
                return ProbeReport { ready: true, attempts: (i + 1) as u32, delays };
            },
            ProbeStep::GiveUp => {
                proof {
                    assert(attempts_from(outcomes@, i + 1, max_attempts as int) == 0);
                    assert(!succeeds_from(outcomes@, i + 1, max_attempts as int));
                }
                return ProbeReport { ready: false, attempts: (i + 1) as u32, delays };
            },
            ProbeStep::RetryAfterDelay => {
                delays = delays + 1;
                i = i + 1;
            },
        }
    }
}

/// Law: against an endpoint whose first `n` answers all fail, the prober
/// makes exactly `n` attempts and reports failure.
pub proof fn lemma_exhausts_on_persistent_failure(outcomes: Seq<ProbeOutcome>, n: int)
    requires
        0 <= n,
        forall|k: int| 0 <= k < n ==> !outcome_ok(outcomes[k]),
    ensures
        attempts_from(outcomes, 0, n) == n,
        !succeeds_from(outcomes, 0, n),
{
    lemma_exhausts_from(outcomes, 0, n);
}

proof fn lemma_exhausts_from(outcomes: Seq<ProbeOutcome>, i: int, n: int)
    requires
        0 <= i <= n,
        forall|k: int| i <= k < n ==> !outcome_ok(outcomes[k]),
    ensures
        attempts_from(outcomes, i, n) == n - i,
        !succeeds_from(outcomes, i, n),
    decreases n - i,
{
    if i < n {
        lemma_exhausts_from(outcomes, i + 1, n);
    }
}

/// Law: if attempt `k+1` is the first to observe a success within the budget,
/// the prober reports readiness after exactly `k+1` attempts and no more.
pub proof fn lemma_stops_at_first_success(outcomes: Seq<ProbeOutcome>, k: int, n: int)
    requires
        0 <= k < n,
        outcome_ok(outcomes[k]),
        forall|j: int| 0 <= j < k ==> !outcome_ok(outcomes[j]),
    ensures
        attempts_from(outcomes, 0, n) == k + 1,
        succeeds_from(outcomes, 0, n),
{
    lemma_success_from(outcomes, 0, k, n);
}

proof fn lemma_success_from(outcomes: Seq<ProbeOutcome>, i: int, k: int, n: int)
    requires
        0 <= i <= k < n,
        outcome_ok(outcomes[k]),
        forall|j: int| i <= j < k ==> !outcome_ok(outcomes[j]),
    ensures
        attempts_from(outcomes, i, n) == k + 1 - i,
        succeeds_from(outcomes, i, n),
    decreases k - i,
{
    if i < k {
        lemma_success_from(outcomes, i + 1, k, n);
    }
}

/// Law: a delay is taken between attempts but never after the final one, so
/// every run takes exactly one delay fewer than it makes attempts.
pub proof fn lemma_delays_one_fewer_than_attempts(outcomes: Seq<ProbeOutcome>, n: int)
    requires
        1 <= n,
    ensures
        delays_from(outcomes, 0, n) == attempts_from(outcomes, 0, n) - 1,
{
    lemma_delays_from(outcomes, 0, n);
}

proof fn lemma_delays_from(outcomes: Seq<ProbeOutcome>, i: int, n: int)
    requires
        0 <= i < n,
    ensures
        delays_from(outcomes, i, n) == attempts_from(outcomes, i, n) - 1,
    decreases n - i,
{
    if !outcome_ok(outcomes[i]) {
        if i + 1 < n {
            lemma_delays_from(outcomes, i + 1, n);
        } else {
            assert(attempts_from(outcomes, i + 1, n) == 0);
        }
    }
}

/// Law: a success on the very first attempt resolves the probe after one
/// attempt and with no delay elapsed.
pub proof fn lemma_immediate_success(outcomes: Seq<ProbeOutcome>, n: int)
    requires
        1 <= n,
        outcome_ok(outcomes[0]),
    ensures
        succeeds_from(outcomes, 0, n),
        attempts_from(outcomes, 0, n) == 1,
        delays_from(outcomes, 0, n) == 0,
{
}

} // verus!
