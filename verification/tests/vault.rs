use vesting_vault::AccountId;
use vesting_vault::AssetId;
use vesting_vault::VaultEvent;
use vesting_vault::VestingError;
use vesting_vault::VestingVault;

fn account(tag: u8) -> AccountId {
    AccountId::new([tag; 32])
}

#[test]
fn test_deposit_and_claim() {
    let admin = account(1);
    let alice = account(2);
    let mut vault = VestingVault::new(admin);

    // A lock of 30_000 is below the vault's minimum, so the deposit is
    // rejected as too short and nothing is left to claim afterwards.
    let deposit = vault.deposit_with_asset(alice, 0, AssetId(1), 1_000_000_000_000, 30_000, 2000);
    assert_eq!(deposit, Err(VestingError::LockTooShort));
    assert_eq!(vault.get_total_locked(), 0);

    let claim = vault.claim_cross_chain(alice, 31_000);
    assert!(matches!(claim, Err(VestingError::NoDepositFound)));
}

#[test]
fn test_full_vesting_cycle() {
    let admin = account(1);
    let alice = account(2);
    let bob = account(3);
    let mut vault = VestingVault::new(admin);

    let deposit = vault.deposit_with_asset(alice, 0, AssetId(1), 1000, 120_000, 2000);
    assert_eq!(deposit, Ok(()));
    assert_eq!(vault.get_total_locked(), 1000);

    let info = vault.get_deposit_info(alice).expect("record after deposit");
    assert_eq!(info.amount, 1000);
    assert_eq!(info.unlock_timestamp, 120_000);
    assert_eq!(info.asset_id, AssetId(1));
    assert_eq!(info.destination_parachain, 2000);

    let unauthorized = vault.emergency_unlock(bob, 5);
    assert_eq!(unauthorized, Err(VestingError::UnauthorizedAccess));
    assert!(!vault.is_emergency_mode());

    let authorized = vault.emergency_unlock(admin, 6);
    assert_eq!(authorized, Ok(()));
    assert!(vault.is_emergency_mode());

    // Emergency mode relaxes the lock: the claim succeeds long before the
    // unlock time.
    let claim = vault.claim_cross_chain(alice, 10);
    assert!(claim.is_ok());
    assert_eq!(vault.get_total_locked(), 0);
}

#[test]
fn test_time_locked_claim() {
    let admin = account(1);
    let alice = account(2);
    let mut vault = VestingVault::new(admin);

    let deposit = vault.deposit_with_asset(alice, 0, AssetId(1), 1000, 120_000, 2000);
    assert_eq!(deposit, Ok(()));

    let early = vault.claim_cross_chain(alice, 0);
    assert!(matches!(early, Err(VestingError::TokensStillLocked)));
    assert_eq!(vault.get_total_locked(), 1000);

    let late = vault.claim_cross_chain(alice, 121_000);
    assert!(late.is_ok());
    assert_eq!(vault.get_total_locked(), 0);
    assert!(vault.get_deposit_info(alice).is_none());
}

#[test]
fn test_asset_support() {
    let admin = account(1);
    let alice = account(2);
    let mut vault = VestingVault::new(admin);

    let supported = vault.get_supported_assets();
    assert_eq!(supported, vec![AssetId(1), AssetId(2)]);
    assert!(vault.is_asset_supported(AssetId(1)));
    assert!(vault.is_asset_supported(AssetId(2)));
    assert!(!vault.is_asset_supported(AssetId(999)));

    let deposit = vault.deposit_with_asset(alice, 0, AssetId(999), 1000, 120_000, 2000);
    assert_eq!(deposit, Err(VestingError::AssetNotSupported));
    assert_eq!(vault.get_total_locked(), 0);
    assert!(vault.get_deposit_info(alice).is_none());
}

#[test]
fn test_deposit_increases_total_and_creates_record() {
    let admin = account(1);
    let alice = account(2);
    let bob = account(3);
    let mut vault = VestingVault::new(admin);

    assert_eq!(vault.deposit_with_asset(alice, 0, AssetId(1), 700, 60_000, 10), Ok(()));
    assert_eq!(vault.get_total_locked(), 700);
    assert_eq!(vault.deposit_with_asset(bob, 0, AssetId(2), 300, 60_000, 20), Ok(()));
    assert_eq!(vault.get_total_locked(), 1000);
    assert!(vault.get_deposit_info(alice).is_some());
    assert!(vault.get_deposit_info(bob).is_some());
}

#[test]
fn test_claim_removes_record_and_second_claim_fails() {
    let admin = account(1);
    let alice = account(2);
    let mut vault = VestingVault::new(admin);

    assert_eq!(vault.deposit_with_asset(alice, 0, AssetId(1), 42, 60_000, 10), Ok(()));
    let first = vault.claim_cross_chain(alice, 60_000);
    assert!(first.is_ok());
    assert!(vault.get_deposit_info(alice).is_none());

    let second = vault.claim_cross_chain(alice, 60_001);
    assert!(matches!(second, Err(VestingError::NoDepositFound)));
    assert_eq!(vault.get_total_locked(), 0);
}

#[test]
fn test_invalid_amount_rejected() {
    let admin = account(1);
    let alice = account(2);
    let mut vault = VestingVault::new(admin);

    let deposit = vault.deposit_with_asset(alice, 0, AssetId(1), 0, 60_000, 10);
    assert_eq!(deposit, Err(VestingError::InvalidAmount));
    assert_eq!(vault.get_total_locked(), 0);
    assert!(vault.get_deposit_info(alice).is_none());
    assert!(vault.events.is_empty());
}

#[test]
fn test_lock_too_short_rejected() {
    let admin = account(1);
    let alice = account(2);
    let mut vault = VestingVault::new(admin);

    let deposit = vault.deposit_with_asset(alice, 0, AssetId(1), 1000, 59_999, 10);
    assert_eq!(deposit, Err(VestingError::LockTooShort));
    assert_eq!(vault.get_total_locked(), 0);
}

#[test]
fn test_unauthorized_emergency_leaves_state_unchanged() {
    let admin = account(1);
    let alice = account(2);
    let bob = account(3);
    let mut vault = VestingVault::new(admin);

    assert_eq!(vault.deposit_with_asset(alice, 0, AssetId(1), 5, 60_000, 10), Ok(()));
    let events_before = vault.events.len();

    assert_eq!(vault.emergency_unlock(bob, 9), Err(VestingError::UnauthorizedAccess));
    assert!(!vault.is_emergency_mode());
    assert_eq!(vault.get_total_locked(), 5);
    assert!(vault.get_deposit_info(alice).is_some());
    assert_eq!(vault.events.len(), events_before);
}

#[test]
fn test_emergency_unlock_is_idempotent() {
    let admin = account(1);
    let mut vault = VestingVault::new(admin);

    assert_eq!(vault.emergency_unlock(admin, 1), Ok(()));
    assert!(vault.is_emergency_mode());
    assert_eq!(vault.emergency_unlock(admin, 2), Ok(()));
    assert!(vault.is_emergency_mode());
    assert_eq!(vault.events.len(), 2);
    assert!(matches!(vault.events[0], VaultEvent::EmergencyTriggered(ref e) if e.timestamp == 1));
    assert!(matches!(vault.events[1], VaultEvent::EmergencyTriggered(ref e) if e.timestamp == 2));
}

#[test]
fn test_event_log_records_each_transition() {
    let admin = account(1);
    let alice = account(2);
    let mut vault = VestingVault::new(admin);

    assert_eq!(vault.deposit_with_asset(alice, 0, AssetId(2), 9, 60_000, 77), Ok(()));
    let receipt = vault.claim_cross_chain(alice, 60_000).expect("claim after unlock");

    assert_eq!(vault.events.len(), 3);
    match &vault.events[0] {
        VaultEvent::Deposited(e) => {
            assert_eq!(e.amount, 9);
            assert_eq!(e.asset_id, AssetId(2));
            assert_eq!(e.unlock_time, 60_000);
        },
        other => panic!("expected a deposit event, got {:?}", other),
    }
    match &vault.events[1] {
        VaultEvent::XCMExecuted(e) => {
            assert_eq!(e.amount, 9);
            assert_eq!(e.destination, 77);
            assert!(e.success);
        },
        other => panic!("expected a handoff event, got {:?}", other),
    }
    match &vault.events[2] {
        VaultEvent::ClaimInitiated(e) => {
            assert_eq!(e.amount, 9);
            assert_eq!(e.destination_parachain, 77);
            assert_eq!(e.xcm_hash, receipt.xcm_hash);
        },
        other => panic!("expected a claim event, got {:?}", other),
    }
}
