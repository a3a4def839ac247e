use fusion_escrow::errors::EscrowError;
use fusion_escrow::fusion_order::FusionOrderContract;
use fusion_escrow::order::AuctionDetails;
use fusion_escrow::order::AuctionPoint;
use fusion_escrow::order::FusionOrder;
use fusion_escrow::order::ResolverFee;

fn accounts(id: usize) -> String {
    ["alice", "bob", "charlie", "danny", "eugene", "fargo"][id].to_string()
}

fn create_test_order() -> FusionOrder {
    FusionOrder {
        order_hash: [1; 32],
        maker: accounts(1),
        resolver: Some(accounts(3)),
        maker_asset: "token1.near".to_string(),
        taker_asset: "token2.near".to_string(),
        making_amount: 1000,
        taking_amount: 2000,
        maker_traits: 0,
        salt: [2; 32],
    }
}

fn create_test_auction() -> AuctionDetails {
    AuctionDetails {
        start_time: 1000,
        duration: 3600,
        initial_rate_bump: 100, // 1%
        points: vec![
            AuctionPoint { delay: 900, coefficient: 750000 },  // 75% after 15 min
            AuctionPoint { delay: 1800, coefficient: 500000 }, // 50% after 30 min
        ],
    }
}

fn new_contract(fee_basis_points: u32) -> FusionOrderContract {
    FusionOrderContract::new("contract.near".to_string(), accounts(5), fee_basis_points).unwrap()
}

#[test]
fn test_create_order() {
    let mut contract = new_contract(30); // 0.3% fee
    let order = create_test_order();

    let order_hash = contract.create_order(&accounts(1), order.clone(), None).unwrap();
    assert_eq!(order_hash, order.hash());

    let stored_order = contract.get_order(&order_hash).unwrap();
    assert_eq!(stored_order.order.maker, accounts(1));
    assert_eq!(stored_order.filled_making_amount, 0);
    assert!(!stored_order.is_cancelled);
}

#[test]
fn create_order_rejects_non_maker_and_duplicates() {
    let mut contract = new_contract(30);
    let order = create_test_order();

    assert_eq!(
        contract.create_order(&accounts(2), order.clone(), None),
        Err(EscrowError::Unauthorized)
    );
    contract.create_order(&accounts(1), order.clone(), None).unwrap();
    assert_eq!(
        contract.create_order(&accounts(1), order, None),
        Err(EscrowError::AlreadyExists)
    );
}

#[test]
fn test_partial_fill_validation() {
    let order = create_test_order();

    // Valid partial fill (50%)
    assert!(order.is_valid_partial_fill(500, 1000));

    // Invalid partial fill (wrong ratio)
    assert!(!order.is_valid_partial_fill(500, 900));

    // Invalid partial fill (zero amounts)
    assert!(!order.is_valid_partial_fill(0, 0));
    assert!(!order.is_valid_partial_fill(500, 0));
    assert!(!order.is_valid_partial_fill(0, 1000));
}

#[test]
fn partial_fill_validation_is_exact_at_large_amounts() {
    // Cross-multiplication overflows 128 bits here; the comparison must
    // still be exact.
    let order = FusionOrder {
        making_amount: u128::MAX / 2,
        taking_amount: u128::MAX - 1,
        ..create_test_order()
    };
    assert!(!order.is_valid_partial_fill(u128::MAX / 2, u128::MAX - 2));
    let order = FusionOrder {
        making_amount: 1 << 100,
        taking_amount: 1 << 101,
        ..create_test_order()
    };
    assert!(order.is_valid_partial_fill(1 << 99, 1 << 100));
    assert!(!order.is_valid_partial_fill(1 << 99, (1 << 100) + 1));
}

#[test]
fn test_dutch_auction_rate_bump() {
    let auction = create_test_auction();

    // Before auction starts
    assert_eq!(auction.get_rate_bump(500), 100);

    // At auction start
    assert_eq!(auction.get_rate_bump(1000), 100);

    // After 15 minutes (900 seconds)
    assert_eq!(auction.get_rate_bump(1900), 75);

    // After 30 minutes (1800 seconds)
    assert_eq!(auction.get_rate_bump(2800), 37);

    // After auction ends
    assert_eq!(auction.get_rate_bump(5000), 0);
}

#[test]
fn test_cancel_order() {
    let mut contract = new_contract(30);
    let order = create_test_order();

    let order_hash = contract.create_order(&accounts(1), order, None).unwrap();
    contract.cancel_order(&accounts(1), &order_hash).unwrap();

    let stored_order = contract.get_order(&order_hash).unwrap();
    assert!(stored_order.is_cancelled);
}

#[test]
fn cancel_order_rejections() {
    let mut contract = new_contract(30);
    let order = create_test_order();
    let order_hash = contract.create_order(&accounts(1), order, None).unwrap();

    // Only the maker may cancel.
    assert_eq!(
        contract.cancel_order(&accounts(2), &order_hash),
        Err(EscrowError::Unauthorized)
    );
    // An unknown hash is not found.
    assert_eq!(
        contract.cancel_order(&accounts(1), &[9; 32]),
        Err(EscrowError::NotFound)
    );
    // Cancelling twice fails.
    contract.cancel_order(&accounts(1), &order_hash).unwrap();
    assert_eq!(
        contract.cancel_order(&accounts(1), &order_hash),
        Err(EscrowError::AlreadyCancelled)
    );
    // A cancelled order can no longer be filled.
    assert_eq!(
        contract.fill_order(&accounts(2), 0, &order_hash, 500, 1000, None),
        Err(EscrowError::AlreadyCancelled)
    );
}

#[test]
fn test_resolver_management() {
    let mut contract = new_contract(30);
    let admin = "contract.near".to_string();

    contract.add_resolver(&admin, accounts(3)).unwrap();
    assert!(contract.resolver_whitelist.contains(&accounts(3)));

    contract.remove_resolver(&admin, &accounts(3)).unwrap();
    assert!(!contract.resolver_whitelist.contains(&accounts(3)));
}

#[test]
fn resolver_management_requires_admin() {
    let mut contract = new_contract(30);
    assert_eq!(
        contract.add_resolver(&accounts(1), accounts(3)),
        Err(EscrowError::Unauthorized)
    );
    assert_eq!(
        contract.remove_resolver(&accounts(1), &accounts(3)),
        Err(EscrowError::Unauthorized)
    );
}

#[test]
fn test_get_remaining_amounts() {
    let mut contract = new_contract(30);
    let order = create_test_order();

    let order_hash = contract.create_order(&accounts(1), order, None).unwrap();

    let (remaining_making, remaining_taking) = contract.get_remaining_amounts(&order_hash);
    assert_eq!(remaining_making, 1000);
    assert_eq!(remaining_taking, 2000);
}

#[test]
fn invalid_fee_configuration_is_rejected() {
    assert!(matches!(
        FusionOrderContract::new("contract.near".to_string(), accounts(5), 10_001),
        Err(EscrowError::InvalidConfiguration)
    ));
    assert!(FusionOrderContract::new("contract.near".to_string(), accounts(5), 10_000).is_ok());
}

#[test]
fn fill_order_rejects_bad_amounts() {
    let mut contract = new_contract(30);
    let order = create_test_order();
    let order_hash = contract.create_order(&accounts(1), order, None).unwrap();

    assert_eq!(
        contract.fill_order(&accounts(2), 0, &[9; 32], 500, 1000, None),
        Err(EscrowError::NotFound)
    );
    assert_eq!(
        contract.fill_order(&accounts(2), 0, &order_hash, 500, 900, None),
        Err(EscrowError::InvalidFillAmounts)
    );
    assert_eq!(
        contract.fill_order(&accounts(2), 0, &order_hash, 0, 0, None),
        Err(EscrowError::InvalidFillAmounts)
    );
    assert_eq!(
        contract.fill_order(&accounts(2), 0, &order_hash, 2000, 4000, None),
        Err(EscrowError::ExceedsRemaining)
    );
}

#[test]
fn fill_order_resolver_fee_rules() {
    let mut contract = new_contract(0);
    let order = create_test_order();
    let order_hash = contract.create_order(&accounts(1), order, None).unwrap();

    // A fee addressed to someone other than the designated resolver.
    let wrong_fee = ResolverFee { receiver: accounts(4), amount: 5 };
    assert_eq!(
        contract.fill_order(&accounts(2), 0, &order_hash, 500, 1000, Some(wrong_fee)),
        Err(EscrowError::InvalidResolver)
    );

    // The right receiver, but the resolver is not whitelisted.
    let fee = ResolverFee { receiver: accounts(3), amount: 5 };
    assert_eq!(
        contract.fill_order(&accounts(2), 0, &order_hash, 500, 1000, Some(fee)),
        Err(EscrowError::ResolverNotWhitelisted)
    );

    // Whitelisted: the fee lands on top of the maker's proceeds.
    let admin = "contract.near".to_string();
    contract.add_resolver(&admin, accounts(3)).unwrap();
    let fee = ResolverFee { receiver: accounts(3), amount: 5 };
    let transfers = contract
        .fill_order(&accounts(2), 0, &order_hash, 500, 1000, Some(fee))
        .unwrap();
    assert_eq!(transfers.len(), 2);
    assert_eq!(transfers[0].amount, 1005);
}

#[test]
fn fill_order_applies_auction_bump() {
    let mut contract = new_contract(0);
    let order = create_test_order();
    let auction = create_test_auction();
    let order_hash = contract.create_order(&accounts(1), order, Some(auction)).unwrap();

    // At t=1900 the bump is 75 basis points: 1000 + 1000*75/10000 = 1007.
    let transfers = contract
        .fill_order(&accounts(2), 1900, &order_hash, 500, 1000, None)
        .unwrap();
    assert_eq!(transfers[0].amount, 1007);
    // The ledger records the raw amounts.
    let stored = contract.get_order(&order_hash).unwrap();
    assert_eq!(stored.filled_making_amount, 500);
    assert_eq!(stored.filled_taking_amount, 1000);
}

#[test]
fn end_to_end_two_partial_fills() {
    // A maker rests (making=1000, taking=2000); a taker fills half, then
    // the other half, before any auction start and with no auction
    // attached.
    let mut contract = new_contract(0);
    let order = create_test_order();
    let maker = accounts(1);
    let taker = accounts(2);
    let order_hash = contract.create_order(&maker, order, None).unwrap();

    let transfers = contract.fill_order(&taker, 0, &order_hash, 500, 1000, None).unwrap();
    assert_eq!(transfers.len(), 2);
    // The maker receives the taking side of the fill.
    assert_eq!(transfers[0].token, "token2.near");
    assert_eq!(transfers[0].sender, Some(taker.clone()));
    assert_eq!(transfers[0].receiver, maker);
    assert_eq!(transfers[0].amount, 1000);
    // The taker receives the making side, net of the (zero) protocol fee.
    assert_eq!(transfers[1].token, "token1.near");
    assert_eq!(transfers[1].sender, Some(maker.clone()));
    assert_eq!(transfers[1].receiver, taker);
    assert_eq!(transfers[1].amount, 500);

    let (remaining_making, remaining_taking) = contract.get_remaining_amounts(&order_hash);
    assert_eq!(remaining_making, 500);
    assert_eq!(remaining_taking, 1000);

    // The second half completes the order exactly.
    contract.fill_order(&taker, 0, &order_hash, 500, 1000, None).unwrap();
    let (remaining_making, remaining_taking) = contract.get_remaining_amounts(&order_hash);
    assert_eq!(remaining_making, 0);
    assert_eq!(remaining_taking, 0);

    // Nothing is left to fill.
    assert_eq!(
        contract.fill_order(&taker, 0, &order_hash, 500, 1000, None),
        Err(EscrowError::ExceedsRemaining)
    );
}

#[test]
fn fill_order_charges_protocol_fee() {
    let mut contract = new_contract(30); // 0.3%
    let order = create_test_order();
    let order_hash = contract.create_order(&accounts(1), order, None).unwrap();

    // protocol fee = 500 * 30 / 10000 = 1 (truncated).
    let transfers = contract.fill_order(&accounts(2), 0, &order_hash, 500, 1000, None).unwrap();
    assert_eq!(transfers.len(), 3);
    assert_eq!(transfers[1].amount, 499);
    assert_eq!(transfers[2].receiver, accounts(5));
    assert_eq!(transfers[2].amount, 1);
}
