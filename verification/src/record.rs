//! Per-transaction tracking records.

use vstd::prelude::*;

use crate::event::IbcEvent;

verus! {

/// The confirmation status of one broadcast transaction.
///
/// A record moves from `Pending` to `ReceivedResponse` exactly once, when a
/// chain query returns a result for its hash, and never moves back.
#[derive(Clone, Copy, PartialEq, Eq, Structural, Debug)]
pub enum TxStatus {
    /// Awaiting an on-chain result. `message_count` is the number of logical
    /// messages bundled in the transaction; it sizes the synthetic error
    /// event list if the transaction turns out to have failed on chain.
    Pending { message_count: usize },
    /// Terminal: the transaction's on-chain outcome is known.
    ReceivedResponse,
}

impl TxStatus {
    /// True of a record whose on-chain outcome is known.
    pub open spec fn is_resolved(self) -> bool {
        self is ReceivedResponse
    }

    /// The number of bundled messages of a still-pending transaction.
    pub open spec fn pending_count(self) -> usize
        recommends
            self is Pending,
    {
        self->message_count
    }
}

/// The tracking record of one broadcast transaction: its hash, its
/// confirmation status, and the events attributed to it once resolved.
///
/// The tracker mutates records in place and never removes or reorders them:
/// the indices a caller sees are stable for the whole call.
#[derive(Clone, Debug, PartialEq, Eq)]
pub struct TxSyncResult {
    /// The transaction's opaque identifier, assigned at broadcast time.
    pub hash: Vec<u8>,
    /// Where the record stands in the `Pending` to `ReceivedResponse` machine.
    pub status: TxStatus,
    /// The decoded events of the transaction, in order; empty until resolved.
    pub events: Vec<IbcEvent>,
}

impl TxSyncResult {
    /// A well-formed record awaiting its result carries at least one message
    /// and no events yet.
    pub open spec fn wf(self) -> bool {
        self.status matches TxStatus::Pending { message_count } ==> message_count >= 1
            && self.events@.len() == 0
    }

    /// True of a record whose on-chain outcome is known.
    pub open spec fn is_resolved(self) -> bool {
        self.status.is_resolved()
    }
}

} // verus!
