use vstd::prelude::*;
use crate::status::ServiceState;

verus! {

/// What a poller asks for next.
#[derive(Clone, Copy, Debug, PartialEq, Eq, Structural)]
pub enum PollAction {
    /// Query the service's status and report it with `observe`.
    Query,
    /// Sleep for the poll interval and report it with `slept`.
    Sleep,
    /// The target state was observed.
    Reached,
    /// Every attempt was made without observing the target state.
    TimedOut,
}

/// Waits for a service to reach a target state with a bounded number of
/// status queries, sleeping between consecutive queries only.
#[derive(Clone, Copy, Debug)]
pub struct Poller {
    pub target: ServiceState,
    pub interval_ms: u64,
    pub max_attempts: u64,
    /// Status queries made so far.
    pub queries: u64,
    /// Sleeps made so far.
    pub sleeps: u64,
    pub next: PollAction,
}

impl Poller {
    pub open spec fn wf(&self) -> bool {
        &&& self.queries <= self.max_attempts
        &&& match self.next {
            PollAction::Query => self.queries < self.max_attempts && self.sleeps == self.queries,
            PollAction::Sleep => self.queries < self.max_attempts && self.sleeps + 1 == self.queries,
            PollAction::Reached => self.queries >= 1 && self.sleeps + 1 == self.queries,
            PollAction::TimedOut => self.queries == self.max_attempts && if self.max_attempts == 0 {
                self.sleeps == 0
            } else {
                self.sleeps + 1 == self.queries
            },
        }
    }

    /// A poller that has not queried yet.
    pub open spec fn initial(target: ServiceState, interval_ms: u64, max_attempts: u64) -> Poller {
        Poller {
            target,
            interval_ms,
            max_attempts,
            queries: 0,
            sleeps: 0,
            next: if max_attempts == 0 {
                PollAction::TimedOut
            } else {
                PollAction::Query
            },
        }
    }

    /// The poller after a query that observed `observed` (`None`: the query failed).
    pub open spec fn after_query(self, observed: Option<ServiceState>) -> Poller {
        let queries = (self.queries + 1) as u64;
        Poller {
            queries,
            next: if observed == Some(self.target) {
                PollAction::Reached
            } else if queries >= self.max_attempts {
                PollAction::TimedOut
            } else {
                PollAction::Sleep
            },
            ..self
        }
    }

    /// The poller after a sleep.
    pub open spec fn after_sleep(self) -> Poller {
        Poller { sleeps: (self.sleeps + 1) as u64, next: PollAction::Query, ..self }
    }

    pub fn new(target: ServiceState, interval_ms: u64, max_attempts: u64) -> (r: Poller)
        ensures
            r == Poller::initial(target, interval_ms, max_attempts),
            r.wf(),
    {
        Poller {
            target,
            interval_ms,
            max_attempts,
            queries: 0,
            sleeps: 0,
            next: if max_attempts == 0 {
                PollAction::TimedOut
            } else {
                PollAction::Query
            },
        }
    }

    /// Records the result of a status query; a failed query counts as not reached.
    pub fn observe(&mut self, observed: Option<ServiceState>) -> (r: PollAction)
        requires
            old(self).wf(),
            old(self).next == PollAction::Query,
        ensures
            *final(self) == old(self).after_query(observed),
            final(self).wf(),
            r == final(self).next,
    {
        self.queries = self.queries + 1;
        self.next = if observed == Some(self.target) {
            PollAction::Reached
        } else if self.queries >= self.max_attempts {
            PollAction::TimedOut
        } else {
            PollAction::Sleep
        };
        self.next
    }

    /// Records that the poller slept; the next action is a query.
    pub fn slept(&mut self) -> (r: PollAction)
        requires
            old(self).wf(),
            old(self).next == PollAction::Sleep,
        ensures
            *final(self) == old(self).after_sleep(),
            final(self).wf(),
            r == PollAction::Query,
    {
        self.sleeps = self.sleeps + 1;
        self.next = PollAction::Query;
        self.next
    }
}

/// Runs a poller to its end, the query of attempt `i` (from 0) observing `obs[i]`.
pub open spec fn run_poller(p: Poller, obs: Seq<Option<ServiceState>>) -> Poller
    decreases p.max_attempts - p.queries,
{
    if p.wf() && p.next == PollAction::Query && p.queries < obs.len() {
        let q = p.after_query(obs[p.queries as int]);
        if q.next == PollAction::Sleep {
            run_poller(q.after_sleep(), obs)
        } else {
            q
        }
    } else {
        p
    }
}

proof fn lemma_run_from(p: Poller, obs: Seq<Option<ServiceState>>)
    requires
        p.wf(),
        p.next == PollAction::Query,
        obs.len() >= p.max_attempts,
        forall|j: int| 0 <= j < p.queries ==> obs[j] != Some(p.target),
    ensures
        ({
            let r = run_poller(p, obs);
            &&& forall|k: int|
                #![trigger obs[k]]
                p.queries <= k < p.max_attempts && obs[k] == Some(p.target) && (forall|j: int|
                    0 <= j < k ==> obs[j] != Some(p.target)) ==> r.next == PollAction::Reached
                    && r.queries == k + 1 && r.sleeps == k
            &&& (forall|j: int| 0 <= j < p.max_attempts ==> obs[j] != Some(p.target)) ==> r.next
                == PollAction::TimedOut && r.queries == p.max_attempts && r.sleeps + 1
                == p.max_attempts
        }),
    decreases p.max_attempts - p.queries,
{
    let q = p.after_query(obs[p.queries as int]);
    if q.next == PollAction::Sleep {
        let n = q.after_sleep();
        assert forall|j: int| 0 <= j < n.queries implies obs[j] != Some(p.target) by {
            if j == p.queries {
            }
        }
        lemma_run_from(n, obs);
    }
}

/// A poll that first observes its target on attempt `k` (counting from 1,
/// `k <= max_attempts`) succeeds after exactly `k` queries and `k - 1` sleeps;
/// one that never does within `max_attempts` attempts times out after exactly
/// `max_attempts` queries and `max_attempts - 1` sleeps; with no attempts
/// allowed it times out without a query.
pub proof fn lemma_poll_counts(
    target: ServiceState,
    interval_ms: u64,
    max_attempts: u64,
    obs: Seq<Option<ServiceState>>,
)
    requires
        obs.len() >= max_attempts,
    ensures
        ({
            let r = run_poller(Poller::initial(target, interval_ms, max_attempts), obs);
            &&& forall|k: int|
                #![trigger obs[k]]
                0 <= k < max_attempts && obs[k] == Some(target) && (forall|j: int|
                    0 <= j < k ==> obs[j] != Some(target)) ==> r.next == PollAction::Reached
                    && r.queries == k + 1 && r.sleeps == k
            &&& max_attempts > 0 && (forall|j: int| 0 <= j < max_attempts ==> obs[j] != Some(target))
                ==> r.next == PollAction::TimedOut && r.queries == max_attempts && r.sleeps + 1
                == max_attempts
            &&& max_attempts == 0 ==> r.next == PollAction::TimedOut && r.queries == 0 && r.sleeps
                == 0
        }),
{
    let p = Poller::initial(target, interval_ms, max_attempts);
    if max_attempts > 0 {
        lemma_run_from(p, obs);
    }
}

} // verus!
