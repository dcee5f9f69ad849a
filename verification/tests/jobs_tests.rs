use zerotrust::jobs::{
    build_artifacts, validate_prove_request, JobState, JobStore, RequestError,
};
use zerotrust::journal::{encode_journal, Journal, RoundOutcome};
use zerotrust::sim::ActionEntry;

fn entry(dev: u32, threat: u32, from: u32, to: u32) -> ActionEntry {
    ActionEntry { dev_index: dev, threat_index: threat, assigned_at_ms: from, unassigned_at_ms: to }
}

fn good_log() -> Vec<ActionEntry> {
    vec![entry(0, 0, 0, 1_000)]
}

#[test]
fn job_id_visible_as_pending_before_any_work() {
    let mut store = JobStore::new();
    let id = store.create_job();
    assert_eq!(id.len(), 36);
    match store.job_status(&id) {
        Some(JobState::Pending) => {},
        other => panic!("expected a pending job, got {:?}", other),
    }
}

#[test]
fn unknown_job_id_is_not_found() {
    let store = JobStore::new();
    assert!(store.job_status(&"no-such-job".to_string()).is_none());
}

#[test]
fn job_lifecycle_reaches_done() {
    let mut store = JobStore::new();
    let id = store.create_job();
    store.mark_proving(&id);
    match store.job_status(&id) {
        Some(JobState::Proving) => {},
        other => panic!("expected a proving job, got {:?}", other),
    }
    let journal = Journal {
        challenge_id: 1,
        player_pubkey: [0u8; 32],
        bot_config_id: 2,
        outcome: RoundOutcome {
            threats_cured: 0,
            systems_destroyed: 0,
            data_leaked_x100: 0,
            score: 26,
            duration_ms: 90_000,
            accuracy_bps: 0,
        },
    };
    let bytes = encode_journal(&journal);
    let artifacts = build_artifacts(&vec![1, 2, 3], &vec![0xaa], &bytes).expect("journal decodes");
    store.mark_done(&id, artifacts);
    match store.job_status(&id) {
        Some(JobState::Done(a)) => {
            assert_eq!(a.seal_hex, "0x010203");
            assert_eq!(a.image_id_hex, "aa");
            assert_eq!(a.journal.outcome.score, 26);
        },
        other => panic!("expected a done job, got {:?}", other),
    }
}

#[test]
fn job_failure_is_terminal_state() {
    let mut store = JobStore::new();
    let id = store.create_job();
    store.mark_proving(&id);
    store.mark_failed(&id, "proof generation failed".to_string());
    match store.job_status(&id) {
        Some(JobState::Failed(e)) => assert_eq!(e, "proof generation failed"),
        other => panic!("expected a failed job, got {:?}", other),
    }
}

#[test]
fn jobs_are_independent() {
    let mut store = JobStore::new();
    let a = store.create_job();
    let b = store.create_job();
    assert_ne!(a, b);
    store.mark_proving(&a);
    assert!(matches!(store.job_status(&a), Some(JobState::Proving)));
    assert!(matches!(store.job_status(&b), Some(JobState::Pending)));
}

#[test]
fn request_with_malformed_window_is_rejected_before_any_job() {
    // Scenario: a malformed window (end not after start) rejects the whole
    // request, whatever the other fields hold.
    let pubkey = "ab".repeat(32);
    let challenge = "cd".repeat(32);
    let log = vec![entry(0, 0, 5_000, 5_000)];
    assert_eq!(
        validate_prove_request(&challenge, &pubkey, &log),
        Err(RequestError::MalformedWindow(0))
    );
    let log = vec![entry(0, 0, 0, 1_000), entry(1, 1, 9, 3)];
    assert_eq!(
        validate_prove_request(&challenge, &pubkey, &log),
        Err(RequestError::MalformedWindow(1))
    );
}

#[test]
fn request_with_bad_pubkey_is_rejected_first() {
    let challenge = "cd".repeat(32);
    assert_eq!(
        validate_prove_request(&challenge, "xyz", &good_log()),
        Err(RequestError::InvalidPlayerPubkey)
    );
}

#[test]
fn request_with_bad_challenge_is_rejected() {
    let pubkey = "ab".repeat(32);
    assert_eq!(
        validate_prove_request("tooshort", &pubkey, &good_log()),
        Err(RequestError::InvalidChallengeId)
    );
}

#[test]
fn request_with_empty_log_is_rejected() {
    let pubkey = "ab".repeat(32);
    let challenge = "cd".repeat(32);
    assert_eq!(
        validate_prove_request(&challenge, &pubkey, &vec![]),
        Err(RequestError::EmptyActionLog)
    );
}

#[test]
fn accepted_request_carries_decoded_values() {
    let pubkey = "ab".repeat(32);
    let challenge = format!("efbeadde{}", "00".repeat(28));
    let v = validate_prove_request(&challenge, &pubkey, &good_log()).expect("request is valid");
    assert_eq!(v.challenge_id, 0xdeadbeef);
    assert_eq!(v.player_pubkey, [0xab; 32]);
}

#[test]
fn accepted_request_allows_0x_prefixes() {
    let pubkey = format!("0x{}", "ab".repeat(32));
    let challenge = format!("0x{}", "01".repeat(32));
    let v = validate_prove_request(&challenge, &pubkey, &good_log()).expect("request is valid");
    assert_eq!(v.challenge_id, u32::from_le_bytes([1, 1, 1, 1]));
}

#[test]
fn artifacts_reject_short_journal() {
    assert!(build_artifacts(&vec![], &vec![], &vec![0u8; 63]).is_none());
}
