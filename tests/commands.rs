use gorc::cadence::LoopCadences;
use gorc::delegate::{encode_delegate_keys_sign_msg, DelegateArgError, SignDelegateKeysCmd};
use gorc::keys::{
    RenameAction, RenameArgError, RenameCosmosKeyCmd, RenameEvent, RenameFailure, RenameStage,
};
use gorc::start::{LoopSet, StartCommand, StartError};

const CONTRACT: &str = "0x0102030405060708090a0b0c0d0e0f1011121314";
const VALIDATOR_HEX: &str = "0102030405060708090a0b0c0d0e0f1011121314";

fn strings(v: &[&str]) -> Vec<String> {
    v.iter().map(|s| s.to_string()).collect()
}

fn run_rename(overwrite: bool, events: &[RenameEvent]) -> Vec<RenameAction> {
    let mut stage = RenameStage::start();
    let mut actions = Vec::new();
    for e in events {
        let (next, a) = stage.step(overwrite, *e);
        stage = next;
        actions.push(a);
    }
    actions
}

#[test]
fn rename_refuses_existing_without_overwrite() {
    let actions = run_rename(false, &[RenameEvent::TargetInfo { exists: true }]);
    assert_eq!(actions, vec![RenameAction::RefuseExisting]);
}

#[test]
fn rename_with_overwrite_deletes_after_store() {
    let actions = run_rename(
        true,
        &[
            RenameEvent::TargetInfo { exists: true },
            RenameEvent::Loaded { ok: true },
            RenameEvent::Stored { ok: true },
            RenameEvent::Deleted { ok: true },
        ],
    );
    assert_eq!(
        actions,
        vec![
            RenameAction::LoadSource,
            RenameAction::StoreTarget,
            RenameAction::DeleteSource,
            RenameAction::Done,
        ]
    );
}

#[test]
fn rename_keeps_source_when_store_fails() {
    let actions = run_rename(
        false,
        &[
            RenameEvent::TargetInfo { exists: false },
            RenameEvent::Loaded { ok: true },
            RenameEvent::Stored { ok: false },
        ],
    );
    assert_eq!(actions[2], RenameAction::Fail(RenameFailure::StoreFailed));
    let actions = run_rename(
        false,
        &[RenameEvent::TargetInfo { exists: false }, RenameEvent::Loaded { ok: false }],
    );
    assert_eq!(actions[1], RenameAction::Fail(RenameFailure::SourceUnreadable));
    let actions = run_rename(false, &[RenameEvent::Stored { ok: true }]);
    assert_eq!(actions, vec![RenameAction::Fail(RenameFailure::OutOfOrder)]);
}

#[test]
fn rename_arguments() {
    let cmd = |a: &[&str]| RenameCosmosKeyCmd { args: strings(a), overwrite: false };
    assert_eq!(cmd(&[]).key_names(), Err(RenameArgError::MissingName));
    assert_eq!(cmd(&["al ice"]).key_names(), Err(RenameArgError::InvalidName));
    assert_eq!(cmd(&["alice"]).key_names(), Err(RenameArgError::MissingNewName));
    assert_eq!(cmd(&["alice", "alice/2"]).key_names(), Err(RenameArgError::InvalidNewName));
    assert_eq!(
        cmd(&["alice", "alice2"]).key_names(),
        Ok(("alice".to_string(), "alice2".to_string()))
    );
    assert_eq!(
        cmd(&["a-B_9", "Z"]).key_names(),
        Ok(("a-B_9".to_string(), "Z".to_string()))
    );
}

#[test]
fn start_plan_checks_inputs() {
    let c = LoopCadences::standard();
    let cmd = |ck: &str, ek: &str, only: bool| StartCommand {
        cosmos_key: ck.to_string(),
        ethereum_key: ek.to_string(),
        orchestrator_only: only,
    };
    assert_eq!(cmd("bad key", "eth", false).plan(CONTRACT, &c), Err(StartError::InvalidCosmosKeyName));
    assert_eq!(cmd("cosmos", "eth!", false).plan(CONTRACT, &c), Err(StartError::InvalidEthereumKeyName));
    assert_eq!(cmd("cosmos", "eth", false).plan("0x12", &c), Err(StartError::InvalidContractAddress));
    let plan = cmd("cosmos", "eth", false).plan(CONTRACT, &c).unwrap();
    assert_eq!(plan.connection_timeout_ms, 11000);
    assert_eq!(plan.loops, LoopSet { oracle: true, signer: true, relayer: true });
    let plan = cmd("cosmos", "eth", true).plan(CONTRACT, &c).unwrap();
    assert_eq!(plan.loops, LoopSet { oracle: false, signer: true, relayer: true });
}

#[test]
fn delegate_request_reads_arguments() {
    let cmd = |a: &[&str]| SignDelegateKeysCmd { args: strings(a) };
    assert_eq!(cmd(&[]).request().unwrap_err(), DelegateArgError::MissingKeyName);
    assert_eq!(cmd(&["my key"]).request().unwrap_err(), DelegateArgError::InvalidKeyName);
    assert_eq!(cmd(&["eth"]).request().unwrap_err(), DelegateArgError::MissingValidatorAddress);
    assert_eq!(
        cmd(&["eth", "not an address"]).request().unwrap_err(),
        DelegateArgError::InvalidValidatorAddress
    );
    assert_eq!(
        cmd(&["eth", VALIDATOR_HEX, "-1"]).request().unwrap_err(),
        DelegateArgError::InvalidNonce
    );
    let r = cmd(&["eth", VALIDATOR_HEX]).request().unwrap();
    assert_eq!(r.key_name, "eth");
    assert_eq!(r.validator_address, VALIDATOR_HEX);
    assert_eq!(r.nonce, None);
    let r = cmd(&["eth", VALIDATOR_HEX, "+42"]).request().unwrap();
    assert_eq!(r.nonce, Some(42));
}

#[test]
fn delegate_message_encoding() {
    let mut expected = vec![0x0A, 3];
    expected.extend_from_slice(b"val");
    expected.extend_from_slice(&[0x10, 5]);
    assert_eq!(encode_delegate_keys_sign_msg("val", 5), expected);
    assert_eq!(encode_delegate_keys_sign_msg("", 0), Vec::<u8>::new());
    assert_eq!(encode_delegate_keys_sign_msg("", 300), vec![0x10, 0xAC, 0x02]);
    let long = "x".repeat(200);
    let enc = encode_delegate_keys_sign_msg(&long, 0);
    assert_eq!(&enc[..3], &[0x0A, 0xC8, 0x01]);
    assert_eq!(enc.len(), 203);
}
