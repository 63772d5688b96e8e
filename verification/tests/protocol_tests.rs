use chess_attest::chain::{chain_preconditions, extend, verify_chain};
use chess_attest::game::ChessMove;
use chess_attest::session::{accept_attestation, session_step, SessionError, SessionStep, StatusReport};
use risc0_zkvm::{Digest, FakeReceipt, InnerReceipt, Receipt, ReceiptClaim};

fn report(status: &str, receipt_url: Option<&str>, error_msg: Option<&str>) -> StatusReport {
    StatusReport {
        status: status.to_string(),
        receipt_url: receipt_url.map(|url| url.to_string()),
        error_msg: error_msg.map(|msg| msg.to_string()),
    }
}

fn envelope() -> ChessMove {
    ChessMove {
        match_id: [0u8; 32],
        nonce: [0u8; 16],
        whites_pubkey: vec![2u8; 33],
        blacks_pubkey: vec![3u8; 33],
        board_state: "rnbqkbnr/pppppppp/8/8/8/8/PPPPPPPP/RNBQKBNR w KQkq - 0 1".to_string(),
        player_move: "e2e4".to_string(),
        player_sig: vec![0u8; 64],
    }
}

#[test]
fn running_status_keeps_polling() {
    let step = session_step(&report("RUNNING", None, Some("ignored")));
    assert!(matches!(step, SessionStep::KeepPolling));
}

#[test]
fn succeeded_status_fetches_the_receipt() {
    let step = session_step(&report("SUCCEEDED", Some("https://results/1"), None));
    match step {
        SessionStep::FetchReceipt(url) => assert_eq!(url, "https://results/1"),
        other => panic!("expected a fetch step, got {:?}", step_name(&other)),
    }
}

#[test]
fn succeeded_status_without_a_location_fails() {
    let step = session_step(&report("SUCCEEDED", None, None));
    match step {
        SessionStep::Fail(status, error) => {
            assert_eq!(status, "SUCCEEDED");
            assert_eq!(error, "");
        }
        other => panic!("expected a failing step, got {:?}", step_name(&other)),
    }
}

#[test]
fn failed_status_carries_the_collaborator_error() {
    let step = session_step(&report("FAILED", None, Some("out of cycles")));
    match step {
        SessionStep::Fail(status, error) => {
            assert_eq!(status, "FAILED");
            assert_eq!(error, "out of cycles");
        }
        other => panic!("expected a failing step, got {:?}", step_name(&other)),
    }
}

#[test]
fn unknown_status_fails() {
    let step = session_step(&report("TIMED_OUT", None, None));
    assert!(matches!(step, SessionStep::Fail(_, _)));
}

fn step_name(step: &SessionStep) -> &'static str {
    match step {
        SessionStep::KeepPolling => "KeepPolling",
        SessionStep::FetchReceipt(_) => "FetchReceipt",
        SessionStep::Fail(_, _) => "Fail",
    }
}

#[test]
fn the_first_move_has_no_preconditions() {
    let bundle = extend(None, envelope());
    assert!(bundle.preconditions.is_empty());
    assert_eq!(bundle.envelope.player_move, "e2e4");
}

#[test]
fn a_later_move_carries_the_prior_attestation() {
    let prior = vec![9u8, 8, 7];
    let bundle = extend(Some(prior.clone()), envelope());
    assert_eq!(bundle.preconditions, vec![prior]);
}

#[test]
fn precondition_ids_name_exactly_the_prior_attestation() {
    assert_eq!(chain_preconditions(None), Vec::<String>::new());
    assert_eq!(chain_preconditions(Some("receipt-1".to_string())), vec!["receipt-1".to_string()]);
}

#[test]
fn garbage_bytes_never_verify_as_a_chain() {
    assert!(!verify_chain(&[1, 2, 3, 4], &[0u8; 32]));
}

#[test]
fn garbage_bytes_are_an_attestation_verification_failure() {
    let result = accept_attestation(&[1, 2, 3, 4], &[0u8; 32]);
    assert!(matches!(result, Err(SessionError::AttestationVerificationFailure)));
}

#[test]
fn an_unproven_receipt_is_rejected_before_chaining() {
    // A receipt whose claim names the right program and journal but whose
    // proof material is fake: decoding succeeds, re-verification must not.
    let image_id = [5u8; 32];
    let journal = b"next board".to_vec();
    let claim = ReceiptClaim::ok(Digest::from(image_id), journal.clone());
    let receipt = Receipt::new(InnerReceipt::Fake(FakeReceipt::new(claim)), journal);
    let bytes = bincode::serialize(&receipt).expect("a receipt serializes");
    assert!(!verify_chain(&bytes, &image_id));
    assert!(accept_attestation(&bytes, &image_id).is_err());
}
