//! The bounded retry controller.
//!
//! Greylisting makes a server defer an unfamiliar sender and accept a
//! prompt second try, so a whole timed attempt is re-run from scratch —
//! but only for transient, per-command-timeout or overall-timeout
//! failures, and only while attempts remain.  The countdown is an
//! explicit bounded loop; `retry_model` is its specification, and the
//! driver that performs the attempts follows `next_attempt_decision`.

use vstd::prelude::*;

use crate::SmtpDetails;
use crate::error::SmtpError;

verus! {

/// What the controller does after seeing one attempt's result.
#[derive(Clone, Copy, Debug, PartialEq, Eq, Structural)]
pub enum RetryDecision {
    /// Hand the result out as final.
    Finish,
    /// Run one more attempt from scratch.
    TryAgain,
}

/// One more attempt is run exactly when the last one failed for a
/// retryable reason and more than one attempt remains.
pub fn next_attempt_decision(result: &Result<SmtpDetails, SmtpError>, remaining: usize) -> (d:
    RetryDecision)
    ensures
        d is TryAgain <==> (result matches Err(e) && e.retryable() && remaining > 1),
{
    match result {
        Err(e) => if e.is_retryable() && remaining > 1 {
            RetryDecision::TryAgain
        } else {
            RetryDecision::Finish
        },
        Ok(_) => RetryDecision::Finish,
    }
}

/// The result the controller returns when the successive attempts would
/// come out as `outcomes`, starting with `count` attempts allowed
/// (a count of zero still gets one attempt).
pub open spec fn retry_model(
    outcomes: Seq<Result<SmtpDetails, SmtpError>>,
    count: nat,
) -> Result<SmtpDetails, SmtpError>
    recommends
        outcomes.len() > 0,
    decreases count,
{
    let first = outcomes[0];
    if count <= 1 {
        first
    } else if first matches Err(e) && e.retryable() {
        retry_model(outcomes.drop_first(), (count - 1) as nat)
    } else {
        first
    }
}

/// Run the countdown over a known schedule of attempt results.  The
/// network driver re-runs real attempts the same way; this executable
/// form pins the controller's logic to `retry_model` on plain values.
#[verifier::loop_isolation(false)]
pub fn run_retry_schedule(outcomes: Vec<Result<SmtpDetails, SmtpError>>, retries: usize) -> (r:
    Result<SmtpDetails, SmtpError>)
    requires
        outcomes@.len() > 0,
        retries <= outcomes@.len(),
    ensures
        r == retry_model(outcomes@, retries as nat),
{
    let ghost orig = outcomes@;
    let mut outcomes = outcomes;
    let mut remaining: usize = retries;
    loop
        invariant
            outcomes@.len() > 0,
            remaining <= outcomes@.len(),
            retry_model(orig, retries as nat) == retry_model(outcomes@, remaining as nat),
        decreases outcomes@.len(),
    {
        let ghost before = outcomes@;
        let first = outcomes.remove(0);
        match next_attempt_decision(&first, remaining) {
            RetryDecision::Finish => {
                assert(before[0] == first);
                assert(retry_model(before, remaining as nat) == first);
                return first;
            },
            RetryDecision::TryAgain => {
                assert(before.drop_first() =~= outcomes@);
                remaining -= 1;
            },
        }
    }
}

/// A failure that is not retryable comes back as the first attempt's
/// result, unchanged, whatever count was configured.
pub proof fn lemma_final_failure_not_retried(
    outcomes: Seq<Result<SmtpDetails, SmtpError>>,
    count: nat,
)
    requires
        outcomes.len() > 0,
        !(outcomes[0] matches Err(e) && e.retryable()),
    ensures
        retry_model(outcomes, count) == outcomes[0],
{
}

/// When every attempt fails for a retryable reason, all `count` allowed
/// attempts are made and the last failure is returned unchanged.
pub proof fn lemma_retry_exhausts_attempts(
    outcomes: Seq<Result<SmtpDetails, SmtpError>>,
    count: nat,
)
    requires
        1 <= count <= outcomes.len(),
        forall|i: int|
            0 <= i < count ==> ((#[trigger] outcomes[i]) matches Err(e) && e.retryable()),
    ensures
        retry_model(outcomes, count) == outcomes[count - 1],
    decreases count,
{
    if count > 1 {
        let rest = outcomes.drop_first();
        assert forall|i: int| 0 <= i < count - 1 implies (#[trigger] rest[i]) matches Err(e)
            && e.retryable() by {
            assert(rest[i] == outcomes[i + 1]);
        }
        lemma_retry_exhausts_attempts(rest, (count - 1) as nat);
        assert(rest[count - 2] == outcomes[count - 1]);
    }
}

} // verus!
