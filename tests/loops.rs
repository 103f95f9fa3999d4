use gorc::cadence::{remaining_wait, LoopCadences};
use gorc::oracle::{claims_to_submit, search_range, EthEvent, EventKind};
use gorc::readiness::{GateAction, SyncGate};
use gorc::relayer::{
    batches_to_relay, relay_gas_price, submit_verdict, Batch, GasMultiplier, SubmitOutcome,
    SubmitVerdict,
};
use gorc::signer::{
    record_signature, targets_to_sign, EthAddress, SignTarget, SignatureRecord, TargetKind,
};

fn ev(nonce: u64) -> EthEvent {
    EthEvent { kind: EventKind::Deposit, block_height: 100 + nonce, event_nonce: nonce }
}

fn token(low: u128) -> EthAddress {
    EthAddress { high: 0, low }
}

#[test]
fn connection_timeout_is_fastest_cadence() {
    let c = LoopCadences::standard();
    assert_eq!(c.connection_timeout_ms(), 11000);
    let c = LoopCadences { oracle_ms: 7, signer_ms: 9, relayer_ms: 8 };
    assert_eq!(c.connection_timeout_ms(), 7);
    let c = LoopCadences { oracle_ms: 7, signer_ms: 9, relayer_ms: 5 };
    assert_eq!(c.connection_timeout_ms(), 5);
}

#[test]
fn instant_cycle_waits_whole_cadence() {
    assert_eq!(remaining_wait(13000, 500, 500), 13000);
    assert_eq!(remaining_wait(13000, 500, 4500), 9000);
    assert_eq!(remaining_wait(13000, 500, 13500), 0);
    assert_eq!(remaining_wait(13000, 500, 20000), 0);
}

#[test]
fn claims_ordered_ascending_in_one_broadcast() {
    let observed = vec![ev(5), ev(3), ev(4)];
    let r = claims_to_submit(&observed, 0);
    let nonces: Vec<u64> = r.iter().map(|e| e.event_nonce).collect();
    assert_eq!(nonces, vec![3, 4, 5]);
    assert_eq!(r[0], ev(3));
}

#[test]
fn claims_skip_already_claimed_and_duplicates() {
    let observed = vec![ev(7), ev(2), ev(9), ev(7), ev(3)];
    let r = claims_to_submit(&observed, 3);
    let nonces: Vec<u64> = r.iter().map(|e| e.event_nonce).collect();
    assert_eq!(nonces, vec![7, 9]);
    assert!(claims_to_submit(&observed, 9).is_empty());
    assert!(claims_to_submit(&Vec::new(), 0).is_empty());
}

#[test]
fn claims_across_restart_keep_increasing() {
    let first = claims_to_submit(&vec![ev(1), ev(2), ev(3)], 0);
    let last = first[first.len() - 1].event_nonce;
    let second = claims_to_submit(&vec![ev(2), ev(3), ev(4), ev(5)], last);
    let nonces: Vec<u64> = second.iter().map(|e| e.event_nonce).collect();
    assert_eq!(nonces, vec![4, 5]);
}

#[test]
fn search_range_is_bounded_by_window() {
    assert_eq!(search_range(100, 100, 50), None);
    assert_eq!(search_range(100, 90, 50), None);
    assert_eq!(search_range(100, 120, 0), None);
    assert_eq!(search_range(100, 120, 50), Some((101, 120)));
    assert_eq!(search_range(100, 1000, 50), Some((101, 150)));
}

#[test]
fn relayer_submits_highest_nonce_per_token() {
    let a = token(1);
    let b = token(2);
    let eligible = vec![
        Batch { token_contract: a, nonce: 10 },
        Batch { token_contract: a, nonce: 12 },
    ];
    let r = batches_to_relay(&eligible);
    assert_eq!(r, vec![Batch { token_contract: a, nonce: 12 }]);
    let eligible = vec![
        Batch { token_contract: b, nonce: 3 },
        Batch { token_contract: a, nonce: 12 },
        Batch { token_contract: b, nonce: 8 },
        Batch { token_contract: a, nonce: 10 },
    ];
    let r = batches_to_relay(&eligible);
    assert_eq!(
        r,
        vec![Batch { token_contract: b, nonce: 8 }, Batch { token_contract: a, nonce: 12 }]
    );
    assert!(batches_to_relay(&Vec::new()).is_empty());
}

#[test]
fn gas_price_applies_multiplier() {
    let m = GasMultiplier { numerator: 3, denominator: 2 };
    assert_eq!(relay_gas_price(100, m), Some(150));
    assert_eq!(relay_gas_price(101, m), Some(151));
    assert_eq!(relay_gas_price(0, m), Some(0));
    assert_eq!(relay_gas_price(u128::MAX, m), None);
    let one = GasMultiplier { numerator: 1, denominator: 1 };
    assert_eq!(relay_gas_price(u128::MAX, one), Some(u128::MAX));
    let half = GasMultiplier { numerator: 1, denominator: 2 };
    assert_eq!(relay_gas_price(u128::MAX, half), Some(u128::MAX / 2));
}

#[test]
fn signer_skips_signed_and_rerun_signs_nothing() {
    let b10 = SignTarget { kind: TargetKind::Batch, nonce: 10 };
    let v4 = SignTarget { kind: TargetKind::Valset, nonce: 4 };
    let b11 = SignTarget { kind: TargetKind::Batch, nonce: 11 };
    let pending = vec![b10, v4, b11, v4];
    let signed = vec![b11];
    let first = targets_to_sign(&pending, &signed);
    assert_eq!(first, vec![b10, v4]);
    let mut all = signed.clone();
    all.extend(first.iter().copied());
    assert!(targets_to_sign(&pending, &all).is_empty());
}

#[test]
fn signature_ledger_dedupes() {
    let rec = SignatureRecord {
        operator: token(9),
        target: SignTarget { kind: TargetKind::Batch, nonce: 10 },
    };
    let mut ledger = Vec::new();
    assert!(record_signature(&mut ledger, rec));
    assert!(!record_signature(&mut ledger, rec));
    assert_eq!(ledger, vec![rec]);
}

#[test]
fn readiness_gate_opens_once() {
    let mut g = SyncGate::new();
    let mut actions = Vec::new();
    for syncing in [true, true, false, true, false] {
        let (next, a) = g.step(syncing);
        g = next;
        actions.push(a);
    }
    assert_eq!(
        actions,
        vec![
            GateAction::PollAgain,
            GateAction::PollAgain,
            GateAction::StartLoops,
            GateAction::Idle,
            GateAction::Idle,
        ]
    );
    assert_eq!(g, SyncGate::Open);
}

#[test]
fn submission_race_counts_as_success() {
    assert_eq!(submit_verdict(SubmitOutcome::Included), SubmitVerdict::Success);
    assert_eq!(submit_verdict(SubmitOutcome::AlreadyExecuted), SubmitVerdict::Success);
    assert_eq!(submit_verdict(SubmitOutcome::Reverted), SubmitVerdict::RetryNextCycle);
    assert_eq!(submit_verdict(SubmitOutcome::TimedOut), SubmitVerdict::RetryNextCycle);
    assert_eq!(submit_verdict(SubmitOutcome::Underpriced), SubmitVerdict::RetryNextCycle);
}
