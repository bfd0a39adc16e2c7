//! Refreshing one tracking record from the outcome of a chain query.

use vstd::prelude::*;

use crate::event::chain_error_diag;
use crate::event::chain_error_events;
use crate::event::flat_events;
use crate::event::flatten_decoded_events;
use crate::event::is_chain_error_with;
use crate::event::IbcEvent;
use crate::height::Height;
use crate::record::TxStatus;
use crate::record::TxSyncResult;
use crate::Error;

verus! {

/// What the chain reported for a transaction it has included in a block: the
/// inclusion height, the execution outcome (code zero means success, any
/// other code an on-chain failure), and the log text.
#[derive(Clone, Debug, PartialEq, Eq)]
pub struct TxQueryResult {
    /// The transaction hash the response is for.
    pub hash: Vec<u8>,
    /// The height of the block that included the transaction.
    pub height: u64,
    /// The execution outcome code: zero on success.
    pub code: u32,
    /// The log text the chain attached to the execution.
    pub log: String,
}

/// The outcome of one attempt to query the chain for a transaction.
#[derive(Clone, Debug, PartialEq, Eq)]
pub enum QueryOutcome {
    /// The query itself failed (transport or other transient error); the
    /// record stays pending and is retried on the next pass.
    Failed,
    /// The chain answered but has not seen the transaction yet.
    NotFound,
    /// The chain answered with the transaction's on-chain result.
    Found(TxQueryResult),
}

impl QueryOutcome {
    /// The chain's answer, for an outcome that found the transaction.
    pub open spec fn found_result(self) -> TxQueryResult
        recommends
            self is Found,
    {
        self->0
    }
}

/// The status a record holds after one refresh: a pending record resolves
/// exactly when the query found the transaction; a resolved record never
/// changes again.
pub open spec fn refreshed_status(st: TxStatus, found: bool) -> TxStatus {
    if st is ReceivedResponse || !found {
        st
    } else {
        TxStatus::ReceivedResponse
    }
}

/// Refreshes one tracking record from the outcome of a chain query.
///
/// A record that is already resolved, or whose query failed or found nothing,
/// is left exactly as it was. A record whose transaction failed on chain
/// resolves with one synthetic chain-error event per bundled message. A
/// record whose transaction succeeded resolves with its events still empty
/// and hands back the fully qualified inclusion height: the caller decodes
/// the transaction's raw events at that height and stores them with
/// [`record_decoded_events`]. A block height of zero cannot be qualified and
/// aborts the whole call with [`Error::InvalidHeight`].
pub fn update_tx_sync_result(
    chain_version: u64,
    tx_sync_result: &mut TxSyncResult,
    outcome: QueryOutcome,
) -> (r: Result<Option<Height>, Error>)
    requires
        old(tx_sync_result).wf(),
    ensures
        final(tx_sync_result).hash == old(tx_sync_result).hash,
        final(tx_sync_result).status == refreshed_status(
            old(tx_sync_result).status,
            outcome is Found,
        ),
        final(tx_sync_result).wf(),
        old(tx_sync_result).is_resolved() ==> *final(tx_sync_result) == *old(tx_sync_result)
            && r == Ok::<Option<Height>, Error>(None),
        !(outcome is Found) ==> *final(tx_sync_result) == *old(tx_sync_result) && r == Ok::<
            Option<Height>,
            Error,
        >(None),
        old(tx_sync_result).status is Pending && outcome is Found
            && outcome.found_result().code != 0 ==> {
            &&& final(tx_sync_result).events@.len() == old(tx_sync_result).status.pending_count()
            &&& forall|i: int|
                0 <= i < final(tx_sync_result).events@.len() ==> is_chain_error_with(
                    #[trigger] final(tx_sync_result).events@[i],
                    chain_error_diag(
                        outcome.found_result().hash@,
                        outcome.found_result().code,
                        outcome.found_result().log@,
                    ),
                )
            &&& r == Ok::<Option<Height>, Error>(None)
        },
        old(tx_sync_result).status is Pending && outcome is Found
            && outcome.found_result().code == 0 && outcome.found_result().height >= 1 ==> final(tx_sync_result).events == old(tx_sync_result).events && r == Ok::<Option<Height>, Error>(
            Some(
                Height {
                    revision_number: chain_version,
                    revision_height: outcome.found_result().height,
                },
            ),
        ),
        old(tx_sync_result).status is Pending && outcome is Found
            && outcome.found_result().code == 0 && outcome.found_result().height == 0 ==> final(tx_sync_result).events == old(tx_sync_result).events && r == Err::<Option<Height>, Error>(
            Error::InvalidHeight,
        ),
{
    let message_count = match tx_sync_result.status {
        TxStatus::Pending { message_count } => message_count,
        TxStatus::ReceivedResponse => {
            return Ok(None);
        },
    };
    match outcome {
        QueryOutcome::Failed => Ok(None),
        QueryOutcome::NotFound => Ok(None),
        QueryOutcome::Found(q) => {
            tx_sync_result.status = TxStatus::ReceivedResponse;
            if q.code != 0 {
                tx_sync_result.events = chain_error_events(
                    q.hash.as_slice(),
                    q.code,
                    q.log.as_str(),
                    message_count,
                );
                Ok(None)
            } else {
                match Height::new(chain_version, q.height) {
                    Ok(height) => Ok(Some(height)),
                    Err(e) => Err(e),
                }
            }
        },
    }
}

/// Stores the decoded events of a resolved transaction: the flattening of
/// the per-raw-event decodings, in the raw events' original order. Only the
/// events change; the hash and the status stay as they were.
pub fn record_decoded_events(
    tx_sync_result: &mut TxSyncResult,
    decoded: Vec<Vec<IbcEvent>>,
)
    requires
        old(tx_sync_result).is_resolved(),
    ensures
        final(tx_sync_result).hash == old(tx_sync_result).hash,
        final(tx_sync_result).status == old(tx_sync_result).status,
        final(tx_sync_result).events@ == flat_events(decoded@),
        final(tx_sync_result).wf(),
{
    tx_sync_result.events = flatten_decoded_events(decoded);
}

} // verus!
