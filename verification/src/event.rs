//! Canonical chain events attributed to a tracked transaction.

use vstd::prelude::*;
use vstd::string::StringExecFns;

use crate::height::Height;
use crate::text::dec_seq;
use crate::text::dec_str;
use crate::text::hex_seq;
use crate::text::hex_str;

verus! {

/// One decoded, chain-agnostic event attributed to a transaction.
#[derive(Clone, Debug, PartialEq, Eq)]
pub enum IbcEvent {
    /// Synthetic event standing for an on-chain transaction failure; carries
    /// a diagnostic string built from the transaction hash, the error code
    /// and the log text of the failed execution.
    ChainError(String),
    /// An application event decoded from the chain's raw encoding by the
    /// caller's decoding collaborator, qualified with the height of the block
    /// that included the transaction.
    App { height: Height, kind: String },
}

/// The diagnostic text of a synthetic chain-error event: names the failed
/// transaction by its hash in hexadecimal, then the error code and the log
/// text the chain reported.
pub open spec fn chain_error_diag(hash: Seq<u8>, code: u32, log: Seq<char>) -> Seq<char> {
    "deliver_tx for "@ + hex_seq(hash) + " reports error: code="@ + dec_seq(
        code as nat,
    ) + ", log="@ + log
}

/// True of a chain-error event carrying exactly the given diagnostic text.
pub open spec fn is_chain_error_with(e: IbcEvent, diag: Seq<char>) -> bool {
    e matches IbcEvent::ChainError(s) && s@ == diag
}

/// Builds the diagnostic string of a chain-error event.
pub fn chain_error_diag_str(hash: &[u8], code: u32, log: &str) -> (s: String)
    ensures
        s@ == chain_error_diag(hash@, code, log@),
{
    let mut s = String::from_str("deliver_tx for ");
    s.append(hex_str(hash).as_str());
    s.append(" reports error: code=");
    s.append(dec_str(code as u64).as_str());
    s.append(", log=");
    s.append(log);
    s
}

/// Builds the synthetic event list for a transaction that failed on chain:
/// one chain-error event per logical message bundled in the transaction, each
/// carrying the same diagnostic string.
pub fn chain_error_events(hash: &[u8], code: u32, log: &str, message_count: usize) -> (evs: Vec<
    IbcEvent,
>)
    ensures
        evs@.len() == message_count,
        forall|i: int|
            0 <= i < evs@.len() ==> is_chain_error_with(
                #[trigger] evs@[i],
                chain_error_diag(hash@, code, log@),
            ),
{
    let diag = chain_error_diag_str(hash, code, log);
    let mut evs: Vec<IbcEvent> = Vec::new();
    let mut i: usize = 0;
    while i < message_count
        invariant
            i <= message_count,
            evs@.len() == i,
            diag@ == chain_error_diag(hash@, code, log@),
            forall|j: int|
                0 <= j < evs@.len() ==> is_chain_error_with(
                    #[trigger] evs@[j],
                    chain_error_diag(hash@, code, log@),
                ),
        decreases message_count - i,
    {
        evs.push(IbcEvent::ChainError(diag.clone()));
        i = i + 1;
    }
    evs
}

/// The flattening of per-raw-event decodings into one event list, keeping
/// the raw events' original order.
pub open spec fn flat_events(decoded: Seq<Vec<IbcEvent>>) -> Seq<IbcEvent>
    decreases decoded.len(),
{
    if decoded.len() == 0 {
        Seq::empty()
    } else {
        decoded[0]@ + flat_events(decoded.skip(1))
    }
}

/// Flattens the decodings of a transaction's raw events, in order: the
/// canonical events of the first raw event come first, then those of the
/// second, and so on.
pub fn flatten_decoded_events(decoded: Vec<Vec<IbcEvent>>) -> (evs: Vec<IbcEvent>)
    ensures
        evs@ == flat_events(decoded@),
{
    let ghost all = decoded@;
    let mut rest = decoded;
    let mut evs: Vec<IbcEvent> = Vec::new();
    while rest.len() > 0
        invariant
            flat_events(all) == evs@ + flat_events(rest@),
        decreases rest@.len(),
    {
        let ghost rest0 = rest@;
        let mut v = rest.remove(0);
        proof {
            assert(rest0.remove(0) =~= rest0.skip(1));
        }
        evs.append(&mut v);
        proof {
            assert(evs@ + flat_events(rest@) =~= flat_events(all));
        }
    }
    proof {
        assert(evs@ =~= flat_events(all));
    }
    evs
}

} // verus!
