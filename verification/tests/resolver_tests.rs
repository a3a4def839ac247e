use fusion_escrow::errors::EscrowError;
use fusion_escrow::order::FusionOrder;
use fusion_escrow::resolver::EscrowSide;
use fusion_escrow::resolver::FusionResolver;
use sha3::Digest;

fn accounts(id: usize) -> String {
    ["alice", "bob", "charlie", "danny", "eugene", "fargo"][id].to_string()
}

fn keccak(bytes: &[u8]) -> [u8; 32] {
    let mut hasher = sha3::Keccak256::new();
    hasher.update(bytes);
    hasher.finalize().into()
}

const SECRET: &str = "cross chain secret";

fn src_order() -> FusionOrder {
    FusionOrder {
        order_hash: [1; 32],
        maker: accounts(1),
        resolver: None,
        maker_asset: "token1.near".to_string(),
        taker_asset: "token2.near".to_string(),
        making_amount: 1000,
        taking_amount: 2000,
        maker_traits: 0,
        salt: [2; 32],
    }
}

fn dst_order() -> FusionOrder {
    FusionOrder {
        order_hash: [3; 32],
        maker: accounts(2),
        resolver: None,
        maker_asset: "token2.eth".to_string(),
        taker_asset: "token1.eth".to_string(),
        making_amount: 2000,
        taking_amount: 1000,
        maker_traits: 0,
        salt: [4; 32],
    }
}

fn new_resolver_with_operator() -> FusionResolver {
    let mut resolver = FusionResolver::new(
        "resolver.near".to_string(),
        "factory.near".to_string(),
        "orders.near".to_string(),
    );
    resolver
        .add_operator(&"resolver.near".to_string(), accounts(4))
        .unwrap();
    resolver
}

#[test]
fn operator_management() {
    let mut resolver = new_resolver_with_operator();
    assert!(resolver.resolver_operators.contains(&accounts(4)));

    // Only the contract's own account manages operators.
    assert!(matches!(
        resolver.add_operator(&accounts(4), accounts(5)),
        Err(EscrowError::Unauthorized)
    ));
    resolver
        .remove_operator(&"resolver.near".to_string(), &accounts(4))
        .unwrap();
    assert!(!resolver.resolver_operators.contains(&accounts(4)));
}

#[test]
fn initiate_requires_whitelisted_operator() {
    let mut resolver = new_resolver_with_operator();
    assert!(matches!(
        resolver.initiate_cross_chain_swap(&accounts(5), src_order(), dst_order(),
            keccak(SECRET.as_bytes())),
        Err(EscrowError::Unauthorized)
    ));
}

#[test]
fn initiate_rejects_duplicates() {
    let mut resolver = new_resolver_with_operator();
    let operator = accounts(4);
    let secret_hash = keccak(SECRET.as_bytes());
    resolver
        .initiate_cross_chain_swap(&operator, src_order(), dst_order(), secret_hash)
        .unwrap();
    assert!(matches!(
        resolver.initiate_cross_chain_swap(&operator, src_order(), dst_order(), secret_hash),
        Err(EscrowError::AlreadyExists)
    ));
}

#[test]
fn deployment_requests_and_callbacks() {
    let mut resolver = new_resolver_with_operator();
    let operator = accounts(4);
    let secret_hash = keccak(SECRET.as_bytes());
    let order_hash = resolver
        .initiate_cross_chain_swap(&operator, src_order(), dst_order(), secret_hash)
        .unwrap();

    // The source deployment request goes to the factory.
    let immutables = fusion_escrow::immutables::Immutables {
        order_hash: src_order().hash(),
        hashlock: secret_hash,
        maker: accounts(1),
        taker: accounts(2),
        token: "token1.near".to_string(),
        amount: 1000,
        safety_deposit: 0,
        timelocks: fusion_escrow::timelocks::Timelocks {
            src_withdrawal: 3600,
            src_public_withdrawal: 7200,
            src_cancellation: 10800,
            src_public_cancellation: 14400,
            dst_withdrawal: 1800,
            dst_public_withdrawal: 3600,
            dst_cancellation: 7200,
            deployed_at: 0,
        },
    };
    let request = resolver
        .deploy_src_escrow(&operator, &order_hash, immutables.clone())
        .unwrap();
    assert_eq!(request.factory, "factory.near");
    assert_eq!(request.side, EscrowSide::Source);
    assert_eq!(request.order_hash, order_hash);

    // Only the order's resolver may ask.
    assert!(matches!(
        resolver.deploy_src_escrow(&accounts(5), &order_hash, immutables.clone()),
        Err(EscrowError::Unauthorized)
    ));

    // The callback must come from the contract itself, and assigns only
    // once.
    let own = "resolver.near".to_string();
    assert!(matches!(
        resolver.on_src_escrow_created(&operator, &order_hash, "src-esc.near".to_string()),
        Err(EscrowError::Unauthorized)
    ));
    resolver
        .on_src_escrow_created(&own, &order_hash, "src-esc.near".to_string())
        .unwrap();
    assert!(matches!(
        resolver.on_src_escrow_created(&own, &order_hash, "src-esc2.near".to_string()),
        Err(EscrowError::AlreadyExists)
    ));

    // Once the source escrow is assigned, a second deployment request is
    // rejected too.
    assert!(matches!(
        resolver.deploy_src_escrow(&operator, &order_hash, immutables.clone()),
        Err(EscrowError::AlreadyExists)
    ));

    // The destination deployment is asked for by the taker of the
    // immutables.
    let request = resolver
        .deploy_dst_escrow(&accounts(2), &order_hash, immutables, 20000)
        .unwrap();
    assert_eq!(request.side, EscrowSide::Destination);
    assert_eq!(request.src_cancellation_timestamp, Some(20000));
    resolver
        .on_dst_escrow_created(&own, &order_hash, "dst-esc.near".to_string())
        .unwrap();

    let stored = resolver.get_cross_chain_order(&order_hash).unwrap();
    assert_eq!(stored.src_escrow.as_deref(), Some("src-esc.near"));
    assert_eq!(stored.dst_escrow.as_deref(), Some("dst-esc.near"));
}

#[test]
fn cross_chain_fill_lifecycle() {
    let mut resolver = new_resolver_with_operator();
    let operator = accounts(4);
    let own = "resolver.near".to_string();
    let secret_hash = keccak(SECRET.as_bytes());
    let order_hash = resolver
        .initiate_cross_chain_swap(&operator, src_order(), dst_order(), secret_hash)
        .unwrap();

    // Both escrow addresses must be assigned before a fill can run.
    assert!(matches!(
        resolver.execute_cross_chain_fill(&operator, 100, &order_hash, SECRET, 500, 1000),
        Err(EscrowError::NotFound)
    ));
    resolver
        .on_src_escrow_created(&own, &order_hash, "src-esc.near".to_string())
        .unwrap();
    assert!(matches!(
        resolver.execute_cross_chain_fill(&operator, 100, &order_hash, SECRET, 500, 1000),
        Err(EscrowError::NotFound)
    ));
    resolver
        .on_dst_escrow_created(&own, &order_hash, "dst-esc.near".to_string())
        .unwrap();

    // The secret must match, and only the resolver may execute.
    assert!(matches!(
        resolver.execute_cross_chain_fill(&operator, 100, &order_hash, "wrong", 500, 1000),
        Err(EscrowError::InvalidSecret)
    ));
    assert!(matches!(
        resolver.execute_cross_chain_fill(&accounts(5), 100, &order_hash, SECRET, 500, 1000),
        Err(EscrowError::Unauthorized)
    ));

    let actions = resolver
        .execute_cross_chain_fill(&operator, 100, &order_hash, SECRET, 500, 1000)
        .unwrap();
    assert_eq!(actions.secret, SECRET);
    assert_eq!(actions.src_withdrawal.escrow, "src-esc.near");
    assert_eq!(actions.dst_withdrawal.escrow, "dst-esc.near");
    assert_eq!(actions.fill_target, "orders.near");
    assert_eq!(actions.fill_order_hash, src_order().hash());
    assert_eq!(actions.making_amount, 500);
    assert_eq!(actions.taking_amount, 1000);
    // The rebuilt immutables bind the source order to the shared secret.
    assert_eq!(actions.src_withdrawal.immutables.order_hash, src_order().hash());
    assert_eq!(actions.src_withdrawal.immutables.hashlock, secret_hash);
    assert_eq!(actions.src_withdrawal.immutables.maker, accounts(1));
    assert_eq!(actions.src_withdrawal.immutables.taker, accounts(2));
    assert_eq!(actions.src_withdrawal.immutables.amount, 1000);
    assert_eq!(actions.src_withdrawal.immutables.timelocks.deployed_at, 100);

    // The swap is completed: a second execution is rejected.
    let stored = resolver.get_cross_chain_order(&order_hash).unwrap();
    assert!(stored.is_completed);
    assert!(matches!(
        resolver.execute_cross_chain_fill(&operator, 100, &order_hash, SECRET, 500, 1000),
        Err(EscrowError::AlreadyCompleted)
    ));
}
