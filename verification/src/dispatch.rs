//! The resilient dispatcher. One batch is offered to the sink up to a fixed
//! number of attempts, with a constant delay between consecutive attempts;
//! on exhaustion the failure is reported, never raised, and that batch's
//! data is dropped. The decision after each attempt is a pure step, so the
//! whole retry behaviour is checked here against a recorded script of sink
//! responses, while the loop that performs real writes consumes the same
//! step function.

use vstd::prelude::*;
use crate::transform::WriteUnit;

verus! {

/// The retry policy: how many attempts one batch gets, and the fixed delay
/// between consecutive attempts. Immutable for the process lifetime.
pub struct RetryPolicy {
    pub attempts: u32,
    pub delay_ms: u64,
}

/// What the sink said to one write attempt, as a plain value.
pub enum SinkResponse {
    Accepted,
    Rejected(String),
}

/// The report of an exhausted dispatch: how many attempts were made, the
/// size of the batch they carried, and the last underlying error.
pub struct DispatchFailure {
    pub attempts: u32,
    pub batch_size: usize,
    pub last_error: String,
}

/// What to do after one attempt: stop on success, wait and try again, or
/// give the batch up and report.
pub enum DispatchStep {
    Delivered,
    RetryAfter(u64),
    Exhausted(DispatchFailure),
}

/// `c` is `r` up to the text of a rejection's error.
pub open spec fn resp_like(c: SinkResponse, r: SinkResponse) -> bool {
    match (c, r) {
        (SinkResponse::Accepted, SinkResponse::Accepted) => true,
        (SinkResponse::Rejected(x), SinkResponse::Rejected(y)) => x@ == y@,
        _ => false,
    }
}

fn clone_response(r: &SinkResponse) -> (c: SinkResponse)
    ensures
        resp_like(c, *r),
{
    match r {
        SinkResponse::Accepted => SinkResponse::Accepted,
        SinkResponse::Rejected(e) => SinkResponse::Rejected(e.clone()),
    }
}

impl RetryPolicy {
    /// At least one attempt must be allowed.
    pub open spec fn wf(&self) -> bool {
        self.attempts >= 1
    }

    /// The dispatch decision after attempt number `attempt` (counted from
    /// one) on a batch of `batch_size` units came back with `response`.
    pub fn decide(&self, attempt: u32, batch_size: usize, response: SinkResponse) -> (step:
        DispatchStep)
        requires
            self.wf(),
            1 <= attempt <= self.attempts,
        ensures
            (match response {
                SinkResponse::Accepted => step == DispatchStep::Delivered,
                SinkResponse::Rejected(e) => if attempt == self.attempts {
                    step matches DispatchStep::Exhausted(f) && f.attempts == self.attempts
                        && f.batch_size == batch_size && f.last_error == e
                } else {
                    step == DispatchStep::RetryAfter(self.delay_ms)
                },
            }),
    {
        match response {
            SinkResponse::Accepted => DispatchStep::Delivered,
            SinkResponse::Rejected(e) => {
                if attempt == self.attempts {
                    DispatchStep::Exhausted(
                        DispatchFailure {
                            attempts: self.attempts,
                            batch_size,
                            last_error: e,
                        },
                    )
                } else {
                    DispatchStep::RetryAfter(self.delay_ms)
                }
            },
        }
    }
}

/// The first index at or after `i`, below `n`, at which the sink accepts;
/// `n` when it never does.
pub open spec fn spec_first_accept_from(rs: Seq<SinkResponse>, i: int, n: int) -> int
    decreases n - i,
{
    if i >= n {
        n
    } else if rs[i] is Accepted {
        i
    } else {
        spec_first_accept_from(rs, i + 1, n)
    }
}

/// The first index below `n` at which the sink accepts; `n` when it never
/// does.
pub open spec fn spec_first_accept(rs: Seq<SinkResponse>, n: int) -> int {
    spec_first_accept_from(rs, 0, n)
}

proof fn lemma_first_accept_skip(rs: Seq<SinkResponse>, i: int, n: int)
    requires
        0 <= i <= n,
        forall|k: int| 0 <= k < i ==> !((#[trigger] rs[k]) is Accepted),
    ensures
        spec_first_accept(rs, n) == spec_first_accept_from(rs, i, n),
    decreases i,
{
    if i > 0 {
        lemma_first_accept_skip(rs, i - 1, n);
        assert(!(rs[i - 1] is Accepted));
    }
}

/// With the first acceptance at index `j`, a dispatch makes exactly `j + 1`
/// calls and succeeds.
pub proof fn lemma_first_accept_at(rs: Seq<SinkResponse>, j: int, n: int)
    requires
        0 <= j < n,
        rs[j] is Accepted,
        forall|k: int| 0 <= k < j ==> !((#[trigger] rs[k]) is Accepted),
    ensures
        spec_first_accept(rs, n) == j,
{
    lemma_first_accept_skip(rs, j, n);
}

/// A dispatch whose every response is a rejection sees no acceptance at
/// all: it makes exactly as many calls as the policy allows and ends in a
/// reported failure.
pub proof fn lemma_all_rejected_exhausts(rs: Seq<SinkResponse>, n: int)
    requires
        0 <= n <= rs.len(),
        forall|k: int| 0 <= k < rs.len() ==> !((#[trigger] rs[k]) is Accepted),
    ensures
        spec_first_accept(rs, n) == n,
{
    lemma_first_accept_skip(rs, n, n);
}

/// The outcome of one whole dispatch.
pub enum DispatchOutcome {
    Delivered,
    Failed(DispatchFailure),
}

/// What one dispatch did: how many write calls it issued, the delay waited
/// between each consecutive pair, what every call offered, and the result.
pub struct DispatchReport {
    pub calls: u32,
    pub waits: Vec<u64>,
    pub outcome: DispatchOutcome,
    pub offered: Ghost<Seq<Seq<WriteUnit>>>,
}

/// Flushes one batch against a recorded script of sink responses, one
/// response consumed per attempt. The batch goes out as a single write call
/// unless rejections force retries; every call offers the batch exactly as
/// handed in, so the dispatcher itself never reorders, duplicates or drops
/// a record.
pub fn dispatch_batch(policy: &RetryPolicy, batch: &Vec<WriteUnit>, responses: &Vec<
    SinkResponse,
>) -> (r: DispatchReport)
    requires
        policy.wf(),
        responses@.len() >= policy.attempts,
    ensures
        ({
            let n = policy.attempts as int;
            let first = spec_first_accept(responses@, n);
            &&& r.calls == if first < n {
                first + 1
            } else {
                n
            }
            &&& r.waits@.len() == r.calls - 1
            &&& forall|i: int| 0 <= i < r.waits@.len() ==> r.waits@[i] == policy.delay_ms
            &&& r.offered@.len() == r.calls
            &&& forall|i: int| 0 <= i < r.offered@.len() ==> r.offered@[i] == batch@
            &&& (r.outcome is Delivered <==> first < n)
            &&& (match r.outcome {
                DispatchOutcome::Delivered => true,
                DispatchOutcome::Failed(f) => {
                    &&& f.attempts == policy.attempts
                    &&& f.batch_size == batch@.len()
                    &&& (responses@[n - 1] matches SinkResponse::Rejected(e) && f.last_error@
                        == e@)
                },
            })
        }),
{
    let n_att = policy.attempts;
    let batch_size = batch.len();
    let mut waits: Vec<u64> = Vec::new();
    let ghost mut offered: Seq<Seq<WriteUnit>> = Seq::empty();
    let mut attempt: u32 = 1;
    while attempt <= n_att
        invariant
            policy.wf(),
            n_att == policy.attempts,
            responses@.len() >= n_att,
            batch_size == batch@.len(),
            1 <= attempt <= n_att,
            forall|k: int| 0 <= k < attempt - 1 ==> !((#[trigger] responses@[k]) is Accepted),
            waits@.len() == attempt - 1,
            forall|i: int| 0 <= i < waits@.len() ==> waits@[i] == policy.delay_ms,
            offered.len() == attempt - 1,
            forall|i: int| 0 <= i < offered.len() ==> offered[i] == batch@,
        decreases n_att - attempt,
    {
        proof {
            offered = offered.push(batch@);
        }
        let idx = (attempt - 1) as usize;
        let resp = clone_response(&responses[idx]);
        let step = policy.decide(attempt, batch_size, resp);
        match step {
            DispatchStep::Delivered => {
                proof {
                    lemma_first_accept_skip(responses@, attempt - 1, n_att as int);
                }
                return DispatchReport {
                    calls: attempt,
                    waits,
                    outcome: DispatchOutcome::Delivered,
                    offered: Ghost(offered),
                };
            },
            DispatchStep::RetryAfter(d) => {
                waits.push(d);
                attempt = attempt + 1;
            },
            DispatchStep::Exhausted(f) => {
                proof {
                    lemma_first_accept_skip(responses@, n_att as int, n_att as int);
                }
                return DispatchReport {
                    calls: n_att,
                    waits,
                    outcome: DispatchOutcome::Failed(f),
                    offered: Ghost(offered),
                };
            },
        }
    }
    proof {
        assert(false);
    }
    DispatchReport {
        calls: 0,
        waits,
        outcome: DispatchOutcome::Delivered,
        offered: Ghost(offered),
    }
}

} // verus!
