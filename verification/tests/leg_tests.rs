use fusion_escrow::errors::EscrowError;
use fusion_escrow::escrow_leg::EscrowDst;
use fusion_escrow::escrow_leg::EscrowSrc;
use fusion_escrow::immutables::Immutables;
use fusion_escrow::timelocks::Timelocks;
use sha3::Digest;

fn accounts(id: usize) -> String {
    ["alice", "bob", "charlie", "danny", "eugene", "fargo"][id].to_string()
}

fn keccak(bytes: &[u8]) -> [u8; 32] {
    let mut hasher = sha3::Keccak256::new();
    hasher.update(bytes);
    hasher.finalize().into()
}

const SECRET: &str = "leg secret";

fn test_immutables() -> Immutables {
    Immutables {
        order_hash: [1; 32],
        hashlock: keccak(SECRET.as_bytes()),
        maker: accounts(1),
        taker: accounts(2),
        token: accounts(3),
        amount: 1000,
        safety_deposit: 100,
        timelocks: Timelocks {
            src_withdrawal: 3600,
            src_public_withdrawal: 7200,
            src_cancellation: 10800,
            src_public_cancellation: 14400,
            dst_withdrawal: 1800,
            dst_public_withdrawal: 3600,
            dst_cancellation: 7200,
            deployed_at: 0,
        },
    }
}

#[test]
fn src_withdraw_happy_path() {
    let mut leg = EscrowSrc::new("factory.near".to_string(), test_immutables());
    let transfer = leg.withdraw(&accounts(2), 3600, SECRET).unwrap();
    assert_eq!(transfer.token, accounts(3));
    assert_eq!(transfer.receiver, accounts(2));
    assert_eq!(transfer.amount, 1000);
    assert!(leg.settled);
}

#[test]
fn src_withdraw_gates() {
    let mut leg = EscrowSrc::new("factory.near".to_string(), test_immutables());
    assert!(matches!(
        leg.withdraw(&accounts(1), 3600, SECRET),
        Err(EscrowError::Unauthorized)
    ));
    assert!(matches!(
        leg.withdraw(&accounts(2), 3599, SECRET),
        Err(EscrowError::TooEarly)
    ));
    assert!(matches!(
        leg.withdraw(&accounts(2), 10800, SECRET),
        Err(EscrowError::TooLate)
    ));
    assert!(matches!(
        leg.withdraw(&accounts(2), 3600, "not the secret"),
        Err(EscrowError::InvalidSecret)
    ));
    assert!(!leg.settled);
}

#[test]
fn src_settled_leg_rejects_everything() {
    let mut leg = EscrowSrc::new("factory.near".to_string(), test_immutables());
    leg.withdraw(&accounts(2), 3600, SECRET).unwrap();

    // Settled: every operation is rejected, whatever the caller, the
    // time, or the secret.
    assert!(matches!(
        leg.withdraw(&accounts(2), 3600, SECRET),
        Err(EscrowError::AlreadySettled)
    ));
    assert!(matches!(
        leg.withdraw_to(&accounts(2), 3600, SECRET, accounts(4)),
        Err(EscrowError::AlreadySettled)
    ));
    assert!(matches!(
        leg.public_withdraw(7200, SECRET),
        Err(EscrowError::AlreadySettled)
    ));
    assert!(matches!(
        leg.cancel(&accounts(2), 10800),
        Err(EscrowError::AlreadySettled)
    ));
    assert!(matches!(
        leg.public_cancel(14400),
        Err(EscrowError::AlreadySettled)
    ));
}

#[test]
fn src_withdraw_to_and_public_paths() {
    let mut leg = EscrowSrc::new("factory.near".to_string(), test_immutables());
    let transfer = leg
        .withdraw_to(&accounts(2), 3600, SECRET, accounts(4))
        .unwrap();
    assert_eq!(transfer.receiver, accounts(4));

    let mut leg = EscrowSrc::new("factory.near".to_string(), test_immutables());
    assert!(matches!(
        leg.public_withdraw(7199, SECRET),
        Err(EscrowError::TooEarly)
    ));
    let transfer = leg.public_withdraw(7200, SECRET).unwrap();
    assert_eq!(transfer.receiver, accounts(2));
}

#[test]
fn src_cancel_paths_refund_maker() {
    let mut leg = EscrowSrc::new("factory.near".to_string(), test_immutables());
    assert!(matches!(
        leg.cancel(&accounts(2), 10799),
        Err(EscrowError::TooEarly)
    ));
    let transfer = leg.cancel(&accounts(2), 10800).unwrap();
    assert_eq!(transfer.receiver, accounts(1));

    let mut leg = EscrowSrc::new("factory.near".to_string(), test_immutables());
    assert!(matches!(
        leg.public_cancel(14399),
        Err(EscrowError::TooEarly)
    ));
    let transfer = leg.public_cancel(14400).unwrap();
    assert_eq!(transfer.receiver, accounts(1));
}

#[test]
fn dst_withdraw_releases_to_maker() {
    let mut leg = EscrowDst::new("factory.near".to_string(), test_immutables());
    assert!(matches!(
        leg.withdraw(&accounts(2), 1799, SECRET),
        Err(EscrowError::TooEarly)
    ));
    assert!(matches!(
        leg.withdraw(&accounts(2), 7200, SECRET),
        Err(EscrowError::TooLate)
    ));
    let transfer = leg.withdraw(&accounts(2), 1800, SECRET).unwrap();
    assert_eq!(transfer.receiver, accounts(1));
    assert!(leg.settled);
}

#[test]
fn dst_settled_leg_rejects_everything() {
    let mut leg = EscrowDst::new("factory.near".to_string(), test_immutables());
    leg.withdraw(&accounts(2), 1800, SECRET).unwrap();
    assert!(matches!(
        leg.withdraw(&accounts(2), 1800, SECRET),
        Err(EscrowError::AlreadySettled)
    ));
    assert!(matches!(
        leg.public_withdraw(3600, SECRET),
        Err(EscrowError::AlreadySettled)
    ));
    assert!(matches!(
        leg.cancel(&accounts(2), 7200),
        Err(EscrowError::AlreadySettled)
    ));
}

#[test]
fn dst_public_withdraw_and_cancel() {
    let mut leg = EscrowDst::new("factory.near".to_string(), test_immutables());
    assert!(matches!(
        leg.public_withdraw(3599, SECRET),
        Err(EscrowError::TooEarly)
    ));
    let transfer = leg.public_withdraw(3600, SECRET).unwrap();
    assert_eq!(transfer.receiver, accounts(1));

    // The destination deposit was funded by the taker, so cancellation
    // refunds the taker.
    let mut leg = EscrowDst::new("factory.near".to_string(), test_immutables());
    assert!(matches!(
        leg.cancel(&accounts(1), 7200),
        Err(EscrowError::Unauthorized)
    ));
    let transfer = leg.cancel(&accounts(2), 7200).unwrap();
    assert_eq!(transfer.receiver, accounts(2));
}
