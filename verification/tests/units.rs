//! Unit tests of the tracker's pieces: text rendering, event construction,
//! height qualification, per-record refresh, and the loop decision.

use tx_confirm::event::chain_error_diag_str;
use tx_confirm::event::chain_error_events;
use tx_confirm::event::flatten_decoded_events;
use tx_confirm::event::IbcEvent;
use tx_confirm::height::Height;
use tx_confirm::record::TxStatus;
use tx_confirm::record::TxSyncResult;
use tx_confirm::refresh::record_decoded_events;
use tx_confirm::refresh::update_tx_sync_result;
use tx_confirm::refresh::QueryOutcome;
use tx_confirm::refresh::TxQueryResult;
use tx_confirm::text::dec_str;
use tx_confirm::text::hex_str;
use tx_confirm::wait::all_tx_results_found;
use tx_confirm::wait::wait_step;
use tx_confirm::wait::WaitDecision;
use tx_confirm::Error;

fn pending_record(hash: Vec<u8>, message_count: usize) -> TxSyncResult {
    TxSyncResult { hash, status: TxStatus::Pending { message_count }, events: Vec::new() }
}

#[test]
fn hex_rendering() {
    assert_eq!(hex_str(&[]), "");
    assert_eq!(hex_str(&[0x00]), "00");
    assert_eq!(hex_str(&[0xDE, 0xAD, 0xBE, 0xEF]), "DEADBEEF");
    assert_eq!(hex_str(&[0x0F, 0xA0]), "0FA0");
}

#[test]
fn decimal_rendering() {
    assert_eq!(dec_str(0), "0");
    assert_eq!(dec_str(5), "5");
    assert_eq!(dec_str(305), "305");
    assert_eq!(dec_str(18_446_744_073_709_551_615), "18446744073709551615");
}

#[test]
fn diagnostic_text() {
    let s = chain_error_diag_str(&[0xAB, 0x01], 11, "insufficient fee");
    assert_eq!(s, "deliver_tx for AB01 reports error: code=11, log=insufficient fee");
}

#[test]
fn error_events_count_matches_message_count() {
    for k in 1..5usize {
        let evs = chain_error_events(&[0x07], 3, "boom", k);
        assert_eq!(evs.len(), k);
        for ev in &evs {
            assert_eq!(
                ev,
                &IbcEvent::ChainError(String::from("deliver_tx for 07 reports error: code=3, log=boom"))
            );
        }
    }
}

#[test]
fn flatten_keeps_raw_event_order() {
    let h = Height { revision_number: 1, revision_height: 2 };
    let ev = |k: &str| IbcEvent::App { height: h, kind: String::from(k) };
    let flat = flatten_decoded_events(vec![
        vec![ev("first"), ev("second")],
        Vec::new(),
        vec![ev("third")],
    ]);
    assert_eq!(flat, vec![ev("first"), ev("second"), ev("third")]);
    assert_eq!(flatten_decoded_events(Vec::new()), Vec::<IbcEvent>::new());
}

#[test]
fn height_qualification() {
    assert_eq!(
        Height::new(4, 100),
        Ok(Height { revision_number: 4, revision_height: 100 })
    );
    assert_eq!(Height::new(4, 0), Err(Error::InvalidHeight));
}

#[test]
fn refresh_leaves_resolved_records_alone() {
    let mut rec = TxSyncResult {
        hash: vec![0x01],
        status: TxStatus::ReceivedResponse,
        events: vec![IbcEvent::ChainError(String::from("kept"))],
    };
    let before = rec.clone();
    let outcome = QueryOutcome::Found(TxQueryResult {
        hash: vec![0x01],
        height: 9,
        code: 0,
        log: String::new(),
    });
    let r = update_tx_sync_result(2, &mut rec, outcome);
    assert_eq!(r, Ok(None));
    assert_eq!(rec, before);
}

#[test]
fn refresh_on_failed_or_missing_query_keeps_record_pending() {
    let mut rec = pending_record(vec![0x02], 2);
    let before = rec.clone();
    assert_eq!(update_tx_sync_result(2, &mut rec, QueryOutcome::Failed), Ok(None));
    assert_eq!(rec, before);
    assert_eq!(update_tx_sync_result(2, &mut rec, QueryOutcome::NotFound), Ok(None));
    assert_eq!(rec, before);
}

#[test]
fn refresh_resolves_on_chain_failure_with_synthetic_events() {
    let mut rec = pending_record(vec![0xFF], 2);
    let outcome = QueryOutcome::Found(TxQueryResult {
        hash: vec![0xFF],
        height: 33,
        code: 7,
        log: String::from("bad signature"),
    });
    let r = update_tx_sync_result(2, &mut rec, outcome);
    assert_eq!(r, Ok(None));
    assert_eq!(rec.status, TxStatus::ReceivedResponse);
    assert_eq!(
        rec.events,
        vec![
            IbcEvent::ChainError(String::from(
                "deliver_tx for FF reports error: code=7, log=bad signature"
            ));
            2
        ]
    );
}

#[test]
fn refresh_resolves_on_success_and_hands_back_the_height() {
    let mut rec = pending_record(vec![0x10], 1);
    let outcome = QueryOutcome::Found(TxQueryResult {
        hash: vec![0x10],
        height: 41,
        code: 0,
        log: String::new(),
    });
    let r = update_tx_sync_result(6, &mut rec, outcome);
    assert_eq!(r, Ok(Some(Height { revision_number: 6, revision_height: 41 })));
    assert_eq!(rec.status, TxStatus::ReceivedResponse);
    assert!(rec.events.is_empty());
    let h = Height { revision_number: 6, revision_height: 41 };
    record_decoded_events(&mut rec, vec![vec![IbcEvent::App {
        height: h,
        kind: String::from("transfer"),
    }]]);
    assert_eq!(rec.events, vec![IbcEvent::App { height: h, kind: String::from("transfer") }]);
    assert_eq!(rec.status, TxStatus::ReceivedResponse);
}

#[test]
fn refresh_rejects_an_unqualifiable_height() {
    let mut rec = pending_record(vec![0x10], 1);
    let outcome = QueryOutcome::Found(TxQueryResult {
        hash: vec![0x10],
        height: 0,
        code: 0,
        log: String::new(),
    });
    let r = update_tx_sync_result(6, &mut rec, outcome);
    assert_eq!(r, Err(Error::InvalidHeight));
    assert!(rec.events.is_empty());
}

#[test]
fn all_found_only_when_every_record_resolved() {
    assert!(all_tx_results_found(&[]));
    let pending = pending_record(vec![0x01], 1);
    let resolved = TxSyncResult {
        hash: vec![0x02],
        status: TxStatus::ReceivedResponse,
        events: Vec::new(),
    };
    assert!(!all_tx_results_found(&[pending.clone()]));
    assert!(all_tx_results_found(&[resolved.clone()]));
    assert!(!all_tx_results_found(&[resolved.clone(), pending.clone()]));
    assert!(all_tx_results_found(&[resolved.clone(), resolved.clone()]));
}

#[test]
fn wait_step_decides_in_order() {
    let pending = pending_record(vec![0x01], 1);
    let resolved = TxSyncResult {
        hash: vec![0x02],
        status: TxStatus::ReceivedResponse,
        events: Vec::new(),
    };
    // success is checked first, even past the budget
    assert_eq!(wait_step(&[resolved.clone()], 5_000, 1_000), WaitDecision::AllConfirmed);
    // within the budget (inclusive) another pass is ordered
    assert_eq!(wait_step(&[pending.clone()], 1_000, 1_000), WaitDecision::Backoff);
    assert_eq!(wait_step(&[pending.clone()], 0, 1_000), WaitDecision::Backoff);
    // past the budget with a pending record, the call times out
    assert_eq!(wait_step(&[pending.clone()], 1_001, 1_000), WaitDecision::TimedOut);
}
