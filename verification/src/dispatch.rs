//! The correlation dispatcher: tracks in-flight backend requests by
//! correlation id, resolves each exactly once (response, timeout, or
//! disconnect, whichever commits first), and applies a bounded
//! exponential-backoff retry policy when the backend reports it is
//! overloaded.

use vstd::prelude::*;

use crate::errors::{RestApiError, RestApiErrorKind};

verus! {

/// Ceiling on a single backoff delay, in milliseconds.
pub const MAX_BACKOFF_MS: u64 = 60000;

/// The status tag a backend response carries.
#[derive(Debug, Clone, Copy, PartialEq, Eq, Structural)]
pub enum BackendStatus {
    Accepted,
    InternalError,
    QueueFull,
    NotReady,
    InvalidInput,
}

/// The status tag a reply byte stands for, if it stands for one.
pub open spec fn spec_reply_status(tag: u8) -> Option<BackendStatus> {
    match tag {
        0u8 => Some(BackendStatus::Accepted),
        1u8 => Some(BackendStatus::InternalError),
        2u8 => Some(BackendStatus::QueueFull),
        3u8 => Some(BackendStatus::NotReady),
        4u8 => Some(BackendStatus::InvalidInput),
        _ => None,
    }
}

/// Decodes the status tag byte of a backend reply. A tag outside the
/// protocol surfaces as an invalid-response failure rather than a raised
/// exception: retrying a structurally invalid reply would not mend it.
pub fn reply_status(tag: u8) -> (status: Result<BackendStatus, RestApiError>)
    ensures
        match spec_reply_status(tag) {
            Some(decoded) => status matches Ok(s) && s == decoded,
            None => status matches Err(e) && e.kind == RestApiErrorKind::ValidatorResponseInvalid
                && e.info is None,
        },
{
    match tag {
        0u8 => Ok(BackendStatus::Accepted),
        1u8 => Ok(BackendStatus::InternalError),
        2u8 => Ok(BackendStatus::QueueFull),
        3u8 => Ok(BackendStatus::NotReady),
        4u8 => Ok(BackendStatus::InvalidInput),
        _ => Err(
            RestApiError { info: None, kind: RestApiErrorKind::ValidatorResponseInvalid },
        ),
    }
}

/// Retry configuration for one request: how many dispatch attempts are
/// allowed, the base backoff delay, and the per-attempt response timeout.
#[derive(Debug, Clone, Copy, PartialEq, Eq, Structural)]
pub struct RetryPolicy {
    pub max_attempts: u32,
    pub base_backoff_ms: u64,
    pub timeout_per_attempt_ms: u64,
}

/// The table of in-flight requests. Each pending correlation id is present
/// at most once, and ids are minted from a counter that only grows, so an id
/// is never reused while a late response for it could still arrive.
pub struct PendingTable {
    ids: Vec<u64>,
    next_id: u64,
}

impl PendingTable {
    /// The correlation ids currently awaiting a resolution, oldest first.
    pub closed spec fn pending(self) -> Seq<u64> {
        self.ids@
    }

    /// The next correlation id the table would mint.
    pub closed spec fn next_correlation(self) -> u64 {
        self.next_id
    }

    /// Well-formedness: no id is pending twice, and every pending id was
    /// minted before the counter's current value.
    pub closed spec fn wf(self) -> bool {
        &&& forall|i: int, j: int|
            0 <= i < j < self.ids@.len() ==> self.ids@[i] != self.ids@[j]
        &&& forall|i: int| 0 <= i < self.ids@.len() ==> self.ids@[i] < self.next_id
    }

    /// An empty table.
    pub fn new() -> (table: Self)
        ensures
            table.wf(),
            table.pending().len() == 0,
    {
        Self { ids: Vec::new(), next_id: 0 }
    }

    /// How many requests are in flight.
    pub fn pending_count(&self) -> (count: usize)
        ensures
            count == self.pending().len(),
    {
        self.ids.len()
    }

    /// Whether the given correlation id is still awaiting a resolution.
    pub fn is_pending(&self, id: u64) -> (found: bool)
        ensures
            found == self.pending().contains(id),
    {
        let mut i: usize = 0;
        while i < self.ids.len()
            invariant
                i <= self.ids@.len(),
                forall|j: int| 0 <= j < i ==> self.ids@[j] != id,
            decreases self.ids@.len() - i,
        {
            if self.ids[i] == id {
                assert(self.pending().contains(id));
                return true;
            }
            i += 1;
        }
        return false;
    }

    /// Mints a fresh correlation id and marks it in flight. Returns `None`
    /// only when the id space is exhausted. The minted id is fresh: it is not
    /// pending before the call, and the counter moves past it, so it can
    /// never be minted again.
    pub fn dispatch(&mut self) -> (minted: Option<u64>)
        requires
            old(self).wf(),
        ensures
            final(self).wf(),
            minted is Some <==> old(self).next_correlation() < u64::MAX,
            match minted {
                Some(id) => {
                    &&& id == old(self).next_correlation()
                    &&& !old(self).pending().contains(id)
                    &&& final(self).pending() == old(self).pending().push(id)
                    &&& final(self).next_correlation() > id
                },
                None => *final(self) == *old(self),
            },
    {
        if self.next_id == u64::MAX {
            return None;
        }
        let id = self.next_id;
        proof {
            if self.pending().contains(id) {
                let i = choose|i: int| 0 <= i < self.ids@.len() && self.ids@[i] == id;
                assert(self.ids@[i] < self.next_id);
            }
        }
        self.next_id = self.next_id + 1;
        self.ids.push(id);
        Some(id)
    }

    /// Removes `id` from the table if it is pending, reporting whether it
    /// was. This is the atomic "first writer wins" step both resolution paths
    /// share: after one claim succeeds, the id is gone, so the racing event
    /// misses, and no other caller's entry is disturbed.
    fn claim(&mut self, id: u64) -> (hit: bool)
        requires
            old(self).wf(),
        ensures
            final(self).wf(),
            hit == old(self).pending().contains(id),
            !final(self).pending().contains(id),
            forall|other: u64|
                other != id ==> (final(self).pending().contains(other)
                    == old(self).pending().contains(other)),
            final(self).pending().len() == old(self).pending().len() - (if hit {
                1int
            } else {
                0int
            }),
            final(self).next_correlation() == old(self).next_correlation(),
    {
        let ghost pre = self.ids@;
        let mut i: usize = 0;
        while i < self.ids.len()
            invariant
                self.ids@ == pre,
                self.next_id == old(self).next_id,
                old(self).wf(),
                pre == old(self).ids@,
                i <= pre.len(),
                forall|j: int| 0 <= j < i ==> pre[j] != id,
            decreases pre.len() - i,
        {
            if self.ids[i] == id {
                self.ids.remove(i);
                proof {
                    let post = self.ids@;
                    pre.remove_ensures(i as int);
                    assert(pre.contains(id));
                    assert forall|k: int| 0 <= k < post.len() implies post[k] != id by {
                        if k < i {
                            assert(post[k] == pre[k]);
                        } else {
                            assert(post[k] == pre[k + 1]);
                        }
                    }
                    assert(!post.contains(id));
                    assert forall|k1: int, k2: int|
                        0 <= k1 < k2 < post.len() implies post[k1] != post[k2] by {
                        if k2 < i {
                            assert(post[k1] == pre[k1] && post[k2] == pre[k2]);
                        } else if k1 < i {
                            assert(post[k1] == pre[k1] && post[k2] == pre[k2 + 1]);
                        } else {
                            assert(post[k1] == pre[k1 + 1] && post[k2] == pre[k2 + 1]);
                        }
                    }
                    assert forall|k: int|
                        0 <= k < post.len() implies post[k] < self.next_id by {
                        if k < i {
                            assert(post[k] == pre[k]);
                        } else {
                            assert(post[k] == pre[k + 1]);
                        }
                    }
                    assert forall|other: u64|
                        other != id implies (post.contains(other) == pre.contains(
                        other,
                    )) by {
                        if post.contains(other) {
                            let k = choose|k: int| 0 <= k < post.len() && post[k] == other;
                            if k < i {
                                assert(pre[k] == other);
                            } else {
                                assert(pre[k + 1] == other);
                            }
                            assert(pre.contains(other));
                        }
                        if pre.contains(other) {
                            let k = choose|k: int| 0 <= k < pre.len() && pre[k] == other;
                            if k < i {
                                assert(post[k] == other);
                            } else {
                                assert(k != i);
                                assert(post[k - 1] == other);
                            }
                            assert(post.contains(other));
                        }
                    }
                }
                return true;
            }
            i += 1;
        }
        proof {
            if pre.contains(id) {
                let k = choose|k: int| 0 <= k < pre.len() && pre[k] == id;
                assert(pre[k] != id);
            }
        }
        return false;
    }

    /// A backend response arrived for `id`. Returns whether a caller was
    /// still waiting: on `true` the response belongs to that caller and the
    /// entry is retired; on `false` the response is late (the waiter already
    /// timed out or was failed by a disconnect) and must be discarded, never
    /// delivered to any other caller.
    pub fn take_for_response(&mut self, id: u64) -> (hit: bool)
        requires
            old(self).wf(),
        ensures
            final(self).wf(),
            hit == old(self).pending().contains(id),
            !final(self).pending().contains(id),
            forall|other: u64|
                other != id ==> (final(self).pending().contains(other)
                    == old(self).pending().contains(other)),
            final(self).pending().len() == old(self).pending().len() - (if hit {
                1int
            } else {
                0int
            }),
            final(self).next_correlation() == old(self).next_correlation(),
    {
        self.claim(id)
    }

    /// The per-attempt timer fired for `id`. Returns whether the request was
    /// still pending: on `true` the caller is woken with
    /// [`RestApiErrorKind::ValidatorTimedOut`] and any response arriving
    /// later for this id will find nothing and be discarded; on `false` a
    /// response already won the race.
    pub fn take_for_timeout(&mut self, id: u64) -> (hit: bool)
        requires
            old(self).wf(),
        ensures
            final(self).wf(),
            hit == old(self).pending().contains(id),
            !final(self).pending().contains(id),
            forall|other: u64|
                other != id ==> (final(self).pending().contains(other)
                    == old(self).pending().contains(other)),
            final(self).pending().len() == old(self).pending().len() - (if hit {
                1int
            } else {
                0int
            }),
            final(self).next_correlation() == old(self).next_correlation(),
    {
        self.claim(id)
    }

    /// What `disconnect` hands back for one pending request: its correlation
    /// id paired with a disconnect failure carrying no detail.
    pub open spec fn disconnect_failure(entry: (u64, RestApiError), id: u64) -> bool {
        &&& entry.0 == id
        &&& entry.1.kind == RestApiErrorKind::ValidatorDisconnected
        &&& entry.1.info is None
    }

    /// The transport reported a lost connection. Every pending request is
    /// resolved with [`RestApiErrorKind::ValidatorDisconnected`] and the
    /// table is left empty; the `&mut` borrow makes the sweep atomic with
    /// respect to new dispatches.
    pub fn disconnect(&mut self) -> (failed: Vec<(u64, RestApiError)>)
        requires
            old(self).wf(),
        ensures
            final(self).wf(),
            final(self).pending().len() == 0,
            failed@.len() == old(self).pending().len(),
            forall|i: int|
                0 <= i < failed@.len() ==> Self::disconnect_failure(
                    #[trigger] failed@[i],
                    old(self).pending()[i],
                ),
            final(self).next_correlation() == old(self).next_correlation(),
    {
        let mut failed: Vec<(u64, RestApiError)> = Vec::new();
        let mut i: usize = 0;
        while i < self.ids.len()
            invariant
                i <= self.ids@.len(),
                self.ids@ == old(self).ids@,
                self.next_id == old(self).next_id,
                failed@.len() == i,
                forall|j: int|
                    0 <= j < i ==> Self::disconnect_failure(#[trigger] failed@[j], self.ids@[j]),
            decreases self.ids@.len() - i,
        {
            let id = self.ids[i];
            let ghost before = failed@;
            failed.push(
                (id, RestApiError { info: None, kind: RestApiErrorKind::ValidatorDisconnected }),
            );
            proof {
                assert(failed@.len() == i + 1);
                assert forall|j: int|
                    0 <= j < i + 1 implies Self::disconnect_failure(
                    #[trigger] failed@[j],
                    self.ids@[j],
                ) by {
                    if j < i {
                        assert(failed@[j] == before[j]);
                        assert(Self::disconnect_failure(before[j], self.ids@[j]));
                    } else {
                        assert(failed@[j].0 == id);
                    }
                }
            }
            i += 1;
        }
        self.ids.clear();
        failed
    }
}

/// What the dispatcher does with one backend-reported attempt outcome:
/// deliver the response to the caller, surface a failure kind, or retry
/// after a backoff delay.
#[derive(Debug, Clone, Copy, PartialEq, Eq, Structural)]
pub enum RetryDecision {
    Deliver,
    Surface(RestApiErrorKind),
    RetryAfter(u64),
}

/// The backoff delay before re-dispatching, doubling per attempt, without
/// the cap: `base * 2^attempt`.
pub open spec fn spec_backoff_raw(base: u64, attempt: u32) -> int
    decreases attempt,
{
    if attempt == 0 {
        base as int
    } else {
        2 * spec_backoff_raw(base, (attempt - 1) as u32)
    }
}

/// The backoff delay before re-dispatching after `attempt` failed attempts:
/// `base * 2^attempt`, capped at [`MAX_BACKOFF_MS`].
pub open spec fn spec_backoff(base: u64, attempt: u32) -> u64 {
    if spec_backoff_raw(base, attempt) > MAX_BACKOFF_MS {
        MAX_BACKOFF_MS
    } else {
        spec_backoff_raw(base, attempt) as u64
    }
}

proof fn lemma_backoff_raw_nonneg(base: u64, attempt: u32)
    ensures
        spec_backoff_raw(base, attempt) >= base,
    decreases attempt,
{
    if attempt > 0 {
        lemma_backoff_raw_nonneg(base, (attempt - 1) as u32);
    }
}

/// Computes the capped exponential backoff delay, in milliseconds.
pub fn backoff_delay(base: u64, attempt: u32) -> (delay: u64)
    ensures
        delay == spec_backoff(base, attempt),
        delay <= MAX_BACKOFF_MS,
{
    let mut delay: u64 = if base > MAX_BACKOFF_MS {
        MAX_BACKOFF_MS
    } else {
        base
    };
    proof {
        lemma_backoff_raw_nonneg(base, 0);
    }
    let mut i: u32 = 0;
    while i < attempt
        invariant
            i <= attempt,
            delay == spec_backoff(base, i),
        decreases attempt - i,
    {
        proof {
            lemma_backoff_raw_nonneg(base, i);
            assert(spec_backoff_raw(base, (i + 1) as u32) == 2 * spec_backoff_raw(base, i));
        }
        if delay > MAX_BACKOFF_MS / 2 {
            delay = MAX_BACKOFF_MS;
        } else {
            delay = delay * 2;
        }
        i += 1;
    }
    proof {
        lemma_backoff_raw_nonneg(base, attempt);
    }
    delay
}

/// Decides what to do with the status the backend reported for the attempt
/// numbered `attempt` (counting from zero). Overload reports (queue full,
/// not ready) are retried with exponential backoff until the policy's
/// attempt budget is spent, then surfaced as their registered kinds; every
/// other failure surfaces immediately, since retrying cannot mend it.
pub fn decide_attempt(policy: &RetryPolicy, attempt: u32, status: BackendStatus) -> (decision:
    RetryDecision)
    ensures
        status == BackendStatus::Accepted ==> decision == RetryDecision::Deliver,
        status == BackendStatus::InternalError ==> decision == RetryDecision::Surface(
            RestApiErrorKind::UnknownValidator,
        ),
        status == BackendStatus::InvalidInput ==> decision == RetryDecision::Surface(
            RestApiErrorKind::SubmittedBatchesInvalid,
        ),
        (status == BackendStatus::QueueFull || status == BackendStatus::NotReady) && attempt + 1
            < policy.max_attempts ==> decision == RetryDecision::RetryAfter(
            spec_backoff(policy.base_backoff_ms, attempt),
        ),
        status == BackendStatus::QueueFull && attempt + 1 >= policy.max_attempts ==> decision
            == RetryDecision::Surface(RestApiErrorKind::BatchQueueFull),
        status == BackendStatus::NotReady && attempt + 1 >= policy.max_attempts ==> decision
            == RetryDecision::Surface(RestApiErrorKind::ValidatorNotReady),
{
    match status {
        BackendStatus::Accepted => RetryDecision::Deliver,
        BackendStatus::InternalError => RetryDecision::Surface(RestApiErrorKind::UnknownValidator),
        BackendStatus::InvalidInput => RetryDecision::Surface(
            RestApiErrorKind::SubmittedBatchesInvalid,
        ),
        BackendStatus::QueueFull => {
            if attempt < u32::MAX && attempt + 1 < policy.max_attempts {
                RetryDecision::RetryAfter(backoff_delay(policy.base_backoff_ms, attempt))
            } else {
                RetryDecision::Surface(RestApiErrorKind::BatchQueueFull)
            }
        },
        BackendStatus::NotReady => {
            if attempt < u32::MAX && attempt + 1 < policy.max_attempts {
                RetryDecision::RetryAfter(backoff_delay(policy.base_backoff_ms, attempt))
            } else {
                RetryDecision::Surface(RestApiErrorKind::ValidatorNotReady)
            }
        },
    }
}

/// The caller-visible result of one request, retries included: whether a
/// response was delivered, the failure kind otherwise, how many dispatch
/// attempts were made, and the total backoff delay slept between them.
#[derive(Debug, Clone, Copy)]
pub struct RetryOutcome {
    pub delivered: bool,
    pub failure: Option<RestApiErrorKind>,
    pub attempts_made: u32,
    pub total_backoff_ms: u64,
}

/// Whether the backend's report is the transient kind the dispatcher
/// retries.
pub open spec fn spec_retryable(status: BackendStatus) -> bool {
    status == BackendStatus::QueueFull || status == BackendStatus::NotReady
}

/// The failure kind a terminal attempt surfaces (`None`: the response is
/// delivered to the caller).
pub open spec fn spec_surfaced(status: BackendStatus) -> Option<RestApiErrorKind> {
    match status {
        BackendStatus::Accepted => None,
        BackendStatus::InternalError => Some(RestApiErrorKind::UnknownValidator),
        BackendStatus::InvalidInput => Some(RestApiErrorKind::SubmittedBatchesInvalid),
        BackendStatus::QueueFull => Some(RestApiErrorKind::BatchQueueFull),
        BackendStatus::NotReady => Some(RestApiErrorKind::ValidatorNotReady),
    }
}

/// The run of a request from attempt number `attempt` on, given the status
/// the backend reports at each attempt: the surfaced failure (or `None` for
/// delivery), the total number of attempts made, and the backoff incurred
/// from this attempt on.
pub open spec fn spec_run_from(
    policy: RetryPolicy,
    statuses: Seq<BackendStatus>,
    attempt: u32,
) -> (Option<RestApiErrorKind>, u32, int)
    decreases policy.max_attempts - attempt,
{
    let status = statuses[attempt as int];
    if spec_retryable(status) && attempt + 1 < policy.max_attempts {
        let rest = spec_run_from(policy, statuses, (attempt + 1) as u32);
        (rest.0, rest.1, spec_backoff(policy.base_backoff_ms, attempt) + rest.2)
    } else {
        (spec_surfaced(status), (attempt + 1) as u32, 0int)
    }
}

/// Drives one request through its attempts. `statuses[i]` is the status the
/// backend reports on attempt `i`; the backend is consulted once per attempt
/// until a terminal decision, so the slice must cover the policy's attempt
/// budget. The caller observes exactly one outcome, with the backoff delays
/// the dispatcher slept summed up.
pub fn run_attempts(policy: &RetryPolicy, statuses: &Vec<BackendStatus>) -> (outcome:
    RetryOutcome)
    requires
        policy.max_attempts >= 1,
        statuses@.len() >= policy.max_attempts,
    ensures
        ({
            let run = spec_run_from(*policy, statuses@, 0);
            &&& outcome.delivered == (run.0 is None)
            &&& outcome.failure == run.0
            &&& outcome.attempts_made == run.1
            &&& outcome.total_backoff_ms == run.2
        }),
{
    let ghost run = spec_run_from(*policy, statuses@, 0);
    let mut attempt: u32 = 0;
    let mut total: u64 = 0;
    loop
        invariant
            attempt < policy.max_attempts,
            policy.max_attempts <= statuses@.len(),
            total <= attempt * (MAX_BACKOFF_MS as int),
            run == spec_run_from(*policy, statuses@, 0),
            spec_run_from(*policy, statuses@, attempt).0 == run.0,
            spec_run_from(*policy, statuses@, attempt).1 == run.1,
            total + spec_run_from(*policy, statuses@, attempt).2 == run.2,
        decreases policy.max_attempts - attempt,
    {
        let status = statuses[attempt as usize];
        match decide_attempt(policy, attempt, status) {
            RetryDecision::Deliver => {
                return RetryOutcome {
                    delivered: true,
                    failure: None,
                    attempts_made: attempt + 1,
                    total_backoff_ms: total,
                };
            },
            RetryDecision::Surface(kind) => {
                return RetryOutcome {
                    delivered: false,
                    failure: Some(kind),
                    attempts_made: attempt + 1,
                    total_backoff_ms: total,
                };
            },
            RetryDecision::RetryAfter(delay) => {
                proof {
                    lemma_backoff_raw_nonneg(policy.base_backoff_ms, attempt);
                }
                total = total + delay;
                attempt = attempt + 1;
            },
        }
    }
}

} // verus!
