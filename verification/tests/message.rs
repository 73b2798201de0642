use vesting_vault::build_xcm_message;
use vesting_vault::calculate_xcm_hash;
use vesting_vault::AccountId;
use vesting_vault::AssetId;
use vesting_vault::VestingVault;

fn beneficiary_one() -> AccountId {
    let mut bytes = [0u8; 32];
    bytes[0] = 1;
    AccountId::new(bytes)
}

#[test]
fn test_message_layout() {
    let message = build_xcm_message(&beneficiary_one(), 1, 2, AssetId(1));
    assert_eq!(message.len(), 56);
    // Beneficiary bytes first.
    assert_eq!(message[0], 1);
    assert!(message[1..32].iter().all(|b| *b == 0));
    // Then the amount on 16 little-endian bytes.
    assert_eq!(message[32], 1);
    assert!(message[33..48].iter().all(|b| *b == 0));
    // Then the destination chain and the asset tag on 4 bytes each.
    assert_eq!(&message[48..52], &[2, 0, 0, 0]);
    assert_eq!(&message[52..56], &[1, 0, 0, 0]);
}

#[test]
fn test_message_encodes_wide_values() {
    let message = build_xcm_message(&beneficiary_one(), 0x0102_0304, 0xAABB_CCDD, AssetId(2));
    assert_eq!(&message[32..36], &[0x04, 0x03, 0x02, 0x01]);
    assert!(message[36..48].iter().all(|b| *b == 0));
    assert_eq!(&message[48..52], &[0xDD, 0xCC, 0xBB, 0xAA]);
    assert_eq!(&message[52..56], &[2, 0, 0, 0]);
}

#[test]
fn test_digest_exact_value() {
    let message = build_xcm_message(&beneficiary_one(), 1, 2, AssetId(1));
    let digest = calculate_xcm_hash(&message);
    // The fold sends byte i of the message into slot i % 32: the beneficiary's
    // leading 1 and the amount's leading 1 cancel in slot 0, the destination
    // lands in slot 16 and the asset tag in slot 20.
    let mut expected = [0u8; 32];
    expected[16] = 2;
    expected[20] = 1;
    assert_eq!(digest, expected);
}

#[test]
fn test_digest_deterministic_and_input_sensitive() {
    let first = calculate_xcm_hash(&build_xcm_message(&beneficiary_one(), 500, 2000, AssetId(1)));
    let second = calculate_xcm_hash(&build_xcm_message(&beneficiary_one(), 500, 2000, AssetId(1)));
    assert_eq!(first, second);

    let other_amount = calculate_xcm_hash(&build_xcm_message(&beneficiary_one(), 501, 2000, AssetId(1)));
    assert_ne!(first, other_amount);
    let other_destination = calculate_xcm_hash(&build_xcm_message(&beneficiary_one(), 500, 2001, AssetId(1)));
    assert_ne!(first, other_destination);
}

#[test]
fn test_claim_receipt_carries_message_digest() {
    let admin = AccountId::new([1u8; 32]);
    let alice = AccountId::new([2u8; 32]);
    let mut vault = VestingVault::new(admin);
    assert!(vault.deposit_with_asset(alice, 0, AssetId(1), 500, 120_000, 2000).is_ok());
    let receipt = vault.claim_cross_chain(alice, 120_000).expect("claim after unlock");

    let message = build_xcm_message(&alice, 500, 2000, AssetId(1));
    assert_eq!(receipt.xcm_hash, calculate_xcm_hash(&message));
}
