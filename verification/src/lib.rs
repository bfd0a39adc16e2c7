//! Transaction-confirmation tracking for a blockchain client.
//!
//! After broadcasting one or more transactions, a client must learn, within a
//! bounded time budget, whether each transaction was included in a block and
//! which events it produced. This crate holds the verified core of that
//! tracker: the per-transaction state machine, the decision logic of the
//! polling loop, and the construction of the per-transaction event lists.
//! The RPC transport, the sleeping, and the decoding of raw chain events into
//! canonical events are collaborators supplied by the caller.

use vstd::prelude::*;

pub mod event;
pub mod height;
pub mod record;
pub mod refresh;
pub mod text;
pub mod wait;

verus! {

/// The failures the tracker can surface to its caller.
#[derive(Clone, Copy, PartialEq, Eq, Structural, Debug)]
pub enum Error {
    /// The time budget ran out before every record was resolved.
    TxNoConfirmation,
    /// A fully qualified height could not be built from the chain version and
    /// the block height reported by the chain: unexpected chain data.
    InvalidHeight,
}

} // verus!
