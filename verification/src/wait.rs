//! The decision logic of the poll-until-resolved-or-timeout loop.
//!
//! The loop itself performs sleeps and chain queries, so it lives with the
//! caller; every decision it takes comes from here. Each iteration first asks
//! [`wait_step`]: on `AllConfirmed` the call returns success, on `TimedOut`
//! it returns the timeout failure, and on `Backoff` the caller sleeps one
//! backoff interval, refreshes every record once with
//! [`crate::refresh::update_tx_sync_result`], and asks again.

use vstd::prelude::*;

use crate::record::TxStatus;
use crate::record::TxSyncResult;
use crate::refresh::refreshed_status;

verus! {

/// The fixed delay, in milliseconds, paid before every refresh pass.
pub const WAIT_BACKOFF_MS: u64 = 300;

/// True when every record's on-chain outcome is known.
pub open spec fn all_resolved(rs: Seq<TxSyncResult>) -> bool {
    forall|i: int| 0 <= i < rs.len() ==> (#[trigger] rs[i]).is_resolved()
}

/// Reports whether every tracked transaction has received its response.
pub fn all_tx_results_found(tx_sync_results: &[TxSyncResult]) -> (r: bool)
    ensures
        r == all_resolved(tx_sync_results@),
{
    let n = tx_sync_results.len();
    let mut i: usize = 0;
    while i < n
        invariant
            n == tx_sync_results@.len(),
            i <= n,
            forall|j: int| 0 <= j < i ==> (#[trigger] tx_sync_results@[j]).is_resolved(),
        decreases n - i,
    {
        match tx_sync_results[i].status {
            TxStatus::ReceivedResponse => {},
            TxStatus::Pending { message_count: _ } => {
                assert(!tx_sync_results@[i as int].is_resolved());
                return false;
            },
        }
        i = i + 1;
    }
    true
}

/// What the polling loop does next.
#[derive(Clone, Copy, PartialEq, Eq, Structural, Debug)]
pub enum WaitDecision {
    /// Every record is resolved: return success. The only success exit.
    AllConfirmed,
    /// The time budget is exhausted with records still pending: return the
    /// timeout failure. The only failure exit.
    TimedOut,
    /// Sleep one backoff interval, refresh every record once, and ask again.
    Backoff,
}

/// The loop's decision for a given set of records and elapsed time: success
/// is checked first, then the budget, and only then is another pass ordered.
pub open spec fn wait_decision(
    rs: Seq<TxSyncResult>,
    elapsed_ms: u64,
    timeout_ms: u64,
) -> WaitDecision {
    if all_resolved(rs) {
        WaitDecision::AllConfirmed
    } else if elapsed_ms > timeout_ms {
        WaitDecision::TimedOut
    } else {
        WaitDecision::Backoff
    }
}

/// Takes one decision of the polling loop.
pub fn wait_step(tx_sync_results: &[TxSyncResult], elapsed_ms: u64, timeout_ms: u64) -> (d:
    WaitDecision)
    ensures
        d == wait_decision(tx_sync_results@, elapsed_ms, timeout_ms),
{
    if all_tx_results_found(tx_sync_results) {
        WaitDecision::AllConfirmed
    } else if elapsed_ms > timeout_ms {
        WaitDecision::TimedOut
    } else {
        WaitDecision::Backoff
    }
}

/// Termination of the polling loop: another pass is ordered only while the
/// elapsed time is within the budget, and since every pass first pays the
/// fixed backoff interval, a run that has completed `passes` refresh passes
/// has `passes * WAIT_BACKOFF_MS` milliseconds or more on the clock. So no
/// run makes more than `timeout_ms / WAIT_BACKOFF_MS` passes beyond the one
/// in flight when the budget runs out: the loop ends in bounded time, by full
/// resolution or by timeout.
pub proof fn lemma_polling_terminates(
    rs: Seq<TxSyncResult>,
    elapsed_ms: u64,
    timeout_ms: u64,
    passes: nat,
)
    requires
        wait_decision(rs, elapsed_ms, timeout_ms) is Backoff,
        elapsed_ms >= passes * WAIT_BACKOFF_MS,
    ensures
        elapsed_ms <= timeout_ms,
        passes <= timeout_ms as nat / (WAIT_BACKOFF_MS as nat),
{
    assert(passes * (WAIT_BACKOFF_MS as nat) <= timeout_ms as nat);
    assert(passes <= timeout_ms as nat / (WAIT_BACKOFF_MS as nat)) by (nonlinear_arith)
        requires
            passes * (WAIT_BACKOFF_MS as nat) <= timeout_ms as nat,
            WAIT_BACKOFF_MS == 300,
    ;
}

/// Once resolved, always resolved: no refresh outcome moves a record out of
/// the terminal status.
pub proof fn lemma_resolved_is_terminal(st: TxStatus, found: bool)
    ensures
        st.is_resolved() ==> refreshed_status(st, found) == st,
{
}

/// Partial failure tolerance: in one refresh pass, a record whose query
/// failed transiently stays pending while a record whose query found the
/// transaction resolves; and with a record still pending inside the budget,
/// the loop orders another pass, so the failed record is retried.
pub proof fn lemma_partial_failure_tolerance(
    rs: Seq<TxSyncResult>,
    i: int,
    j: int,
    elapsed_ms: u64,
    timeout_ms: u64,
)
    requires
        0 <= i < rs.len(),
        0 <= j < rs.len(),
        rs[i].status is Pending,
        rs[j].status is Pending,
        elapsed_ms <= timeout_ms,
    ensures
        refreshed_status(rs[i].status, false) == rs[i].status,
        refreshed_status(rs[j].status, true).is_resolved(),
        wait_decision(rs, elapsed_ms, timeout_ms) is Backoff,
{
    assert(!rs[i].is_resolved());
}

} // verus!
