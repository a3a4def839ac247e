use fusion_escrow::errors::EscrowError;
use fusion_escrow::fusion_escrow::EscrowOrder;
use fusion_escrow::fusion_escrow::FusionEscrow;
use fusion_escrow::timelocks::Stage;
use fusion_escrow::timelocks::TimeBoundKind;
use fusion_escrow::timelocks::Timelocks;
use sha3::Digest;

fn accounts(id: usize) -> String {
    ["alice", "bob", "charlie", "danny", "eugene", "fargo"][id].to_string()
}

fn test_timelocks() -> Timelocks {
    Timelocks {
        src_withdrawal: 1000,
        src_public_withdrawal: 2000,
        src_cancellation: 3000,
        src_public_cancellation: 4000,
        dst_withdrawal: 1000,
        dst_public_withdrawal: 2000,
        dst_cancellation: 3000,
        deployed_at: 0,
    }
}

fn keccak(bytes: &[u8]) -> [u8; 32] {
    let mut hasher = sha3::Keccak256::new();
    hasher.update(bytes);
    hasher.finalize().into()
}

fn test_escrow_order() -> EscrowOrder {
    EscrowOrder {
        order_hash: [1; 32],
        secret_hash: [2; 32],
        maker: accounts(1),
        taker: accounts(2),
        token_contract: accounts(3),
        amount: 1000,
        safety_deposit: 100,
        timelocks: test_timelocks(),
        is_active: false,
    }
}

#[test]
fn test_deposit() {
    let mut contract = FusionEscrow::new("contract.near".to_string());
    let order = test_escrow_order();

    let (result, transfer) = contract.deposit(&accounts(1), 0, order).unwrap();
    assert_eq!(result, [1; 32]);
    assert_eq!(contract.get_escrow_count(), 1);
    // The deposit is pulled from the maker into the escrow account.
    assert_eq!(transfer.sender, Some(accounts(1)));
    assert_eq!(transfer.receiver, "contract.near");
    assert_eq!(transfer.amount, 1000);
}

#[test]
fn deposit_rejections() {
    let mut contract = FusionEscrow::new("contract.near".to_string());

    // Only the maker may deposit.
    assert!(matches!(
        contract.deposit(&accounts(2), 0, test_escrow_order()),
        Err(EscrowError::Unauthorized)
    ));
    // An already-active order is malformed input.
    let active = EscrowOrder { is_active: true, ..test_escrow_order() };
    assert!(matches!(
        contract.deposit(&accounts(1), 0, active),
        Err(EscrowError::InvalidConfiguration)
    ));
    // The same order hash cannot be deposited twice.
    contract.deposit(&accounts(1), 0, test_escrow_order()).unwrap();
    assert!(matches!(
        contract.deposit(&accounts(1), 0, test_escrow_order()),
        Err(EscrowError::AlreadyExists)
    ));
}

#[test]
fn withdraw_lifecycle() {
    let mut contract = FusionEscrow::new("contract.near".to_string());
    let secret = "swap secret";
    let order = EscrowOrder { secret_hash: keccak(secret.as_bytes()), ..test_escrow_order() };
    let (hash, _) = contract.deposit(&accounts(1), 0, order).unwrap();

    // Deposited at time 0: the withdrawal window is [1000, 3000).
    assert!(matches!(
        contract.withdraw(&accounts(2), 500, secret, &hash),
        Err(EscrowError::TooEarly)
    ));
    assert!(matches!(
        contract.withdraw(&accounts(2), 3000, secret, &hash),
        Err(EscrowError::TooLate)
    ));
    assert!(matches!(
        contract.withdraw(&accounts(1), 1500, secret, &hash),
        Err(EscrowError::Unauthorized)
    ));
    assert!(matches!(
        contract.withdraw(&accounts(2), 1500, "wrong", &hash),
        Err(EscrowError::InvalidSecret)
    ));

    let transfer = contract.withdraw(&accounts(2), 1500, secret, &hash).unwrap();
    assert_eq!(transfer.receiver, accounts(2));
    assert_eq!(transfer.amount, 1000);

    // The entry is settled: every further operation is rejected,
    // whatever the caller or the time.
    assert!(matches!(
        contract.withdraw(&accounts(2), 1500, secret, &hash),
        Err(EscrowError::AlreadySettled)
    ));
    assert!(matches!(
        contract.cancel(&accounts(1), 5000, &hash),
        Err(EscrowError::AlreadySettled)
    ));
    assert!(matches!(
        contract.public_withdraw(2500, secret, &hash),
        Err(EscrowError::AlreadySettled)
    ));
    assert!(matches!(
        contract.public_cancel(5000, &hash),
        Err(EscrowError::AlreadySettled)
    ));
}

#[test]
fn withdraw_to_sends_to_target() {
    let mut contract = FusionEscrow::new("contract.near".to_string());
    let secret = "swap secret";
    let order = EscrowOrder { secret_hash: keccak(secret.as_bytes()), ..test_escrow_order() };
    let (hash, _) = contract.deposit(&accounts(1), 0, order).unwrap();

    let transfer = contract
        .withdraw_to(&accounts(2), 1500, secret, accounts(4), &hash)
        .unwrap();
    assert_eq!(transfer.receiver, accounts(4));
}

#[test]
fn public_withdraw_window() {
    let mut contract = FusionEscrow::new("contract.near".to_string());
    let secret = "swap secret";
    let order = EscrowOrder { secret_hash: keccak(secret.as_bytes()), ..test_escrow_order() };
    let (hash, _) = contract.deposit(&accounts(1), 0, order).unwrap();

    // The public window only opens at 2000.
    assert!(matches!(
        contract.public_withdraw(1500, secret, &hash),
        Err(EscrowError::TooEarly)
    ));
    let transfer = contract.public_withdraw(2500, secret, &hash).unwrap();
    assert_eq!(transfer.receiver, accounts(2));
}

#[test]
fn cancel_refunds_maker() {
    let mut contract = FusionEscrow::new("contract.near".to_string());
    let (hash, _) = contract.deposit(&accounts(1), 0, test_escrow_order()).unwrap();

    assert!(matches!(
        contract.cancel(&accounts(1), 2999, &hash),
        Err(EscrowError::TooEarly)
    ));
    assert!(matches!(
        contract.cancel(&accounts(2), 3000, &hash),
        Err(EscrowError::Unauthorized)
    ));
    let transfer = contract.cancel(&accounts(1), 3000, &hash).unwrap();
    assert_eq!(transfer.receiver, accounts(1));
    assert_eq!(transfer.amount, 1000);
}

#[test]
fn public_cancel_refunds_maker() {
    let mut contract = FusionEscrow::new("contract.near".to_string());
    let (hash, _) = contract.deposit(&accounts(1), 0, test_escrow_order()).unwrap();

    assert!(matches!(
        contract.public_cancel(3999, &hash),
        Err(EscrowError::TooEarly)
    ));
    let transfer = contract.public_cancel(4000, &hash).unwrap();
    assert_eq!(transfer.receiver, accounts(1));
}

#[test]
fn missing_order_is_not_found() {
    let mut contract = FusionEscrow::new("contract.near".to_string());
    assert!(contract.get_order(&[7; 32]).is_none());
    assert!(matches!(
        contract.withdraw(&accounts(2), 1500, "s", &[7; 32]),
        Err(EscrowError::NotFound)
    ));
}

#[test]
fn deposit_anchors_timelocks() {
    let mut contract = FusionEscrow::new("contract.near".to_string());
    let (hash, _) = contract.deposit(&accounts(1), 12345, test_escrow_order()).unwrap();
    let stored = contract.get_order(&hash).unwrap();
    assert!(stored.is_active);
    assert_eq!(stored.timelocks.deployed_at, 12345);
}

#[test]
fn stage_time_and_bounds() {
    let mut timelocks = test_timelocks();
    timelocks.deployed_at = 100;
    assert_eq!(timelocks.get_stage_time(Stage::SrcWithdrawal), 1100);
    assert_eq!(timelocks.get_stage_time(Stage::DstCancellation), 3100);

    // `Before` is strict, `After` is inclusive: at the deadline itself
    // only `After` holds, and the two are complementary at every time.
    for now in [0u64, 1099, 1100, 1101, 10_000] {
        let before = timelocks.is_stage_time(Stage::SrcWithdrawal, TimeBoundKind::Before, now);
        let after = timelocks.is_stage_time(Stage::SrcWithdrawal, TimeBoundKind::After, now);
        assert_ne!(before, after);
        assert_eq!(after, now >= 1100);
    }

    let mut other = timelocks;
    other.set_deployed_at(200);
    assert_eq!(other.get_stage_time(Stage::SrcWithdrawal), 1200);
    assert_eq!(timelocks.get_stage_time(Stage::SrcWithdrawal), 1100);
}
