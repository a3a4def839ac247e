//! The cross-chain orchestrator: correlates a source and a destination
//! order under one secret hash, tracks the two escrow addresses as the
//! factory reports them, and releases both legs at once when the secret
//! is revealed.

use crate::errors::EscrowError;
use crate::hashing::keccak256;
use crate::hashing::keccak256_digest;
use crate::hashing::spec_secret_matches;
use crate::hashing::verify_secret;
use crate::hashing::Digest;
use crate::encode::push_bytes;
use crate::immutables::Immutables;
use crate::order::spec_order_bytes;
use crate::order::FusionOrder;
use crate::registry::AccountSet;
use crate::registry::DigestMap;
use crate::timelocks::Timelocks;
use vstd::prelude::*;
use vstd::string::StringSliceAdditionalSpecFns;

verus! {

/// One correlated swap: the two orders, the shared secret hash, the two
/// escrow addresses once assigned, the authorized resolver, and the
/// completion flag.
pub struct CrossChainOrder {
    pub src_order: FusionOrder,
    pub dst_order: FusionOrder,
    pub src_escrow: Option<String>,
    pub dst_escrow: Option<String>,
    pub secret_hash: Digest,
    pub resolver: String,
    pub is_completed: bool,
}

/// Which side of a swap an escrow deployment serves.
#[derive(Clone, Copy, Debug, PartialEq, Eq, Structural)]
pub enum EscrowSide {
    Source,
    Destination,
}

/// A deployment the host must ask the factory for: which factory, which
/// side, with which immutables, and — for the destination side — the
/// source leg's cancellation deadline.  `order_hash` keys the callback
/// that reports the new escrow's address.
pub struct EscrowDeploymentRequest {
    pub factory: String,
    pub side: EscrowSide,
    pub immutables: Immutables,
    pub src_cancellation_timestamp: Option<u64>,
    pub order_hash: Digest,
}

/// One withdrawal the host must issue against an escrow account.
pub struct EscrowWithdrawal {
    pub escrow: String,
    pub immutables: Immutables,
}

/// Everything a successful cross-chain fill instructs the host to do:
/// withdraw both legs with the revealed secret, then record the fill
/// against the source order in the order engine.
pub struct CrossChainFillActions {
    pub secret: String,
    pub src_withdrawal: EscrowWithdrawal,
    pub dst_withdrawal: EscrowWithdrawal,
    pub fill_target: String,
    pub fill_order_hash: Digest,
    pub making_amount: u128,
    pub taking_amount: u128,
}

/// The orchestrator: its own identity, the swap table, the two
/// collaborator addresses, and the operator whitelist.
pub struct FusionResolver {
    /// The component's own identity: escrow-assignment callbacks must
    /// come from this account.
    pub account_id: String,
    pub cross_chain_orders: DigestMap<CrossChainOrder>,
    pub escrow_factory: String,
    pub fusion_order_contract: String,
    pub resolver_operators: AccountSet,
}

/// The correlation key of a swap: the digest of the two orders' content
/// hashes and the secret hash, concatenated in that order.
pub open spec fn spec_cross_chain_hash(src: FusionOrder, dst: FusionOrder, secret_hash: Seq<u8>)
    -> Seq<u8> {
    keccak256(
        keccak256(spec_order_bytes(src)) + keccak256(spec_order_bytes(dst)) + secret_hash,
    )
}

/// The fixed offsets a cross-chain fill rebuilds its immutables with.
pub open spec fn spec_fill_timelocks(now: u64) -> Timelocks {
    Timelocks {
        src_withdrawal: 3600,
        src_public_withdrawal: 7200,
        src_cancellation: 10800,
        src_public_cancellation: 14400,
        dst_withdrawal: 1800,
        dst_public_withdrawal: 3600,
        dst_cancellation: 7200,
        deployed_at: now,
    }
}

/// The immutables a cross-chain fill derives from its two orders: keyed
/// by the source order's hash, locked by the shared secret hash, moving
/// the source order's making amount from its maker to the destination
/// order's maker.
pub open spec fn spec_immutables_from_orders(
    im: Immutables,
    src: FusionOrder,
    dst: FusionOrder,
    secret_hash: Seq<u8>,
    now: u64,
) -> bool {
    &&& im.order_hash@ == keccak256(spec_order_bytes(src))
    &&& im.hashlock@ == secret_hash
    &&& im.maker == src.maker
    &&& im.taker == dst.maker
    &&& im.token == src.maker_asset
    &&& im.amount == src.making_amount
    &&& im.safety_deposit == 0
    &&& im.timelocks == spec_fill_timelocks(now)
}

impl FusionResolver {
    /// Whether the orchestrator's state is sound.
    pub open spec fn wf(&self) -> bool {
        &&& self.cross_chain_orders.wf()
        &&& self.resolver_operators.wf()
    }

    /// A fresh orchestrator with an empty swap table.
    pub fn new(account_id: String, escrow_factory: String, fusion_order_contract: String)
        -> (r: Self)
        ensures
            r.wf(),
            r.cross_chain_orders@ == Map::<Seq<u8>, CrossChainOrder>::empty(),
            r.resolver_operators@ == Set::<Seq<char>>::empty(),
            r.account_id == account_id,
            r.escrow_factory == escrow_factory,
            r.fusion_order_contract == fusion_order_contract,
    {
        FusionResolver {
            account_id,
            cross_chain_orders: DigestMap::new(),
            escrow_factory,
            fusion_order_contract,
            resolver_operators: AccountSet::new(),
        }
    }

    /// The correlation key of a swap.
    fn compute_cross_chain_hash(src_order: &FusionOrder, dst_order: &FusionOrder,
        secret_hash: &Digest) -> (r: Digest)
        ensures
            r@ == spec_cross_chain_hash(*src_order, *dst_order, secret_hash@),
    {
        let src_hash = src_order.hash();
        let dst_hash = dst_order.hash();
        let mut buf: Vec<u8> = Vec::new();
        push_bytes(&mut buf, src_hash.as_slice());
        push_bytes(&mut buf, dst_hash.as_slice());
        push_bytes(&mut buf, secret_hash.as_slice());
        proof {
            assert(buf@ =~= keccak256(spec_order_bytes(*src_order))
                + keccak256(spec_order_bytes(*dst_order)) + secret_hash@);
        }
        keccak256_digest(buf.as_slice())
    }

    /// Registers a swap correlating the two orders under one secret
    /// hash.  Only a whitelisted operator may initiate, and a key
    /// collision is rejected.
    pub fn initiate_cross_chain_swap(&mut self, caller: &String, src_order: FusionOrder,
        dst_order: FusionOrder, secret_hash: Digest) -> (r: Result<Digest, EscrowError>)
        requires
            old(self).wf(),
        ensures
            final(self).wf(),
            ({
                let h = spec_cross_chain_hash(src_order, dst_order, secret_hash@);
                if !old(self).resolver_operators@.contains(caller@) {
                    r == Err::<Digest, EscrowError>(EscrowError::Unauthorized)
                        && *final(self) == *old(self)
                } else if old(self).cross_chain_orders@.contains_key(h) {
                    r == Err::<Digest, EscrowError>(EscrowError::AlreadyExists)
                        && *final(self) == *old(self)
                } else {
                    &&& r matches Ok(d)
                    &&& d@ == h
                    &&& final(self).cross_chain_orders@
                        == old(self).cross_chain_orders@.insert(h, CrossChainOrder {
                        src_order: src_order,
                        dst_order: dst_order,
                        src_escrow: None,
                        dst_escrow: None,
                        secret_hash: secret_hash,
                        resolver: *caller,
                        is_completed: false,
                    })
                    &&& final(self).resolver_operators == old(self).resolver_operators
                    &&& final(self).account_id == old(self).account_id
                    &&& final(self).escrow_factory == old(self).escrow_factory
                    &&& final(self).fusion_order_contract == old(self).fusion_order_contract
                }
            }),
    {
        if !self.resolver_operators.contains(caller) {
            return Err(EscrowError::Unauthorized);
        }
        let order_hash = Self::compute_cross_chain_hash(&src_order, &dst_order, &secret_hash);
        if self.cross_chain_orders.contains_key(&order_hash) {
            return Err(EscrowError::AlreadyExists);
        }
        let order = CrossChainOrder {
            src_order,
            dst_order,
            src_escrow: None,
            dst_escrow: None,
            secret_hash,
            resolver: caller.clone(),
            is_completed: false,
        };
        self.cross_chain_orders.insert(order_hash, order);
        Ok(order_hash)
    }

    /// Asks for the source-side escrow of a swap to be deployed.  Only
    /// the swap's resolver may ask, and only while no source escrow is
    /// assigned; the swap table itself is untouched until the factory's
    /// callback reports the address.
    pub fn deploy_src_escrow(&self, caller: &String, order_hash: &Digest,
        immutables: Immutables) -> (r: Result<EscrowDeploymentRequest, EscrowError>)
        requires
            self.wf(),
        ensures
            ({
                let h = order_hash@;
                let ord = self.cross_chain_orders@[h];
                if !self.cross_chain_orders@.contains_key(h) {
                    r == Err::<EscrowDeploymentRequest, EscrowError>(EscrowError::NotFound)
                } else if caller@ != ord.resolver@ {
                    r == Err::<EscrowDeploymentRequest, EscrowError>(EscrowError::Unauthorized)
                } else if ord.src_escrow is Some {
                    r == Err::<EscrowDeploymentRequest, EscrowError>(EscrowError::AlreadyExists)
                } else {
                    r == Ok::<EscrowDeploymentRequest, EscrowError>(EscrowDeploymentRequest {
                        factory: self.escrow_factory,
                        side: EscrowSide::Source,
                        immutables: immutables,
                        src_cancellation_timestamp: None,
                        order_hash: *order_hash,
                    })
                }
            }),
    {
        let ord = match self.cross_chain_orders.get(order_hash) {
            Some(o) => o,
            None => {
                return Err(EscrowError::NotFound);
            },
        };
        if !caller.eq(&ord.resolver) {
            return Err(EscrowError::Unauthorized);
        }
        if ord.src_escrow.is_some() {
            return Err(EscrowError::AlreadyExists);
        }
        Ok(EscrowDeploymentRequest {
            factory: self.escrow_factory.clone(),
            side: EscrowSide::Source,
            immutables,
            src_cancellation_timestamp: None,
            order_hash: *order_hash,
        })
    }

    /// Asks for the destination-side escrow of a swap to be deployed.
    /// Only the taker named in the immutables may ask, and only while no
    /// destination escrow is assigned.
    pub fn deploy_dst_escrow(&self, caller: &String, order_hash: &Digest,
        immutables: Immutables, src_cancellation_timestamp: u64)
        -> (r: Result<EscrowDeploymentRequest, EscrowError>)
        requires
            self.wf(),
        ensures
            ({
                let h = order_hash@;
                let ord = self.cross_chain_orders@[h];
                if !self.cross_chain_orders@.contains_key(h) {
                    r == Err::<EscrowDeploymentRequest, EscrowError>(EscrowError::NotFound)
                } else if caller@ != immutables.taker@ {
                    r == Err::<EscrowDeploymentRequest, EscrowError>(EscrowError::Unauthorized)
                } else if ord.dst_escrow is Some {
                    r == Err::<EscrowDeploymentRequest, EscrowError>(EscrowError::AlreadyExists)
                } else {
                    r == Ok::<EscrowDeploymentRequest, EscrowError>(EscrowDeploymentRequest {
                        factory: self.escrow_factory,
                        side: EscrowSide::Destination,
                        immutables: immutables,
                        src_cancellation_timestamp: Some(src_cancellation_timestamp),
                        order_hash: *order_hash,
                    })
                }
            }),
    {
        let ord = match self.cross_chain_orders.get(order_hash) {
            Some(o) => o,
            None => {
                return Err(EscrowError::NotFound);
            },
        };
        if !caller.eq(&immutables.taker) {
            return Err(EscrowError::Unauthorized);
        }
        if ord.dst_escrow.is_some() {
            return Err(EscrowError::AlreadyExists);
        }
        Ok(EscrowDeploymentRequest {
            factory: self.escrow_factory.clone(),
            side: EscrowSide::Destination,
            immutables,
            src_cancellation_timestamp: Some(src_cancellation_timestamp),
            order_hash: *order_hash,
        })
    }

    /// The factory's completion signal for the source leg: records the
    /// new escrow's address, exactly once.  Only the orchestrator's own
    /// account may deliver it.
    pub fn on_src_escrow_created(&mut self, caller: &String, order_hash: &Digest,
        escrow_address: String) -> (r: Result<(), EscrowError>)
        requires
            old(self).wf(),
        ensures
            final(self).wf(),
            ({
                let h = order_hash@;
                let ord = old(self).cross_chain_orders@[h];
                if caller@ != old(self).account_id@ {
                    r == Err::<(), EscrowError>(EscrowError::Unauthorized)
                        && *final(self) == *old(self)
                } else if !old(self).cross_chain_orders@.contains_key(h) {
                    r == Err::<(), EscrowError>(EscrowError::NotFound)
                        && *final(self) == *old(self)
                } else if ord.src_escrow is Some {
                    r == Err::<(), EscrowError>(EscrowError::AlreadyExists)
                        && *final(self) == *old(self)
                } else {
                    &&& r == Ok::<(), EscrowError>(())
                    &&& final(self).cross_chain_orders@
                        == old(self).cross_chain_orders@.insert(h, CrossChainOrder {
                        src_escrow: Some(escrow_address),
                        ..ord
                    })
                    &&& final(self).resolver_operators == old(self).resolver_operators
                    &&& final(self).account_id == old(self).account_id
                    &&& final(self).escrow_factory == old(self).escrow_factory
                    &&& final(self).fusion_order_contract == old(self).fusion_order_contract
                }
            }),
    {
        let ghost h = order_hash@;
        if !caller.eq(&self.account_id) {
            return Err(EscrowError::Unauthorized);
        }
        match self.cross_chain_orders.get(order_hash) {
            Some(o) => {
                if o.src_escrow.is_some() {
                    return Err(EscrowError::AlreadyExists);
                }
            },
            None => {
                return Err(EscrowError::NotFound);
            },
        };
        let mut ord = match self.cross_chain_orders.take(order_hash) {
            Some(o) => o,
            None => {
                return Err(EscrowError::NotFound);
            },
        };
        ord.src_escrow = Some(escrow_address);
        self.cross_chain_orders.insert(*order_hash, ord);
        proof {
            assert(self.cross_chain_orders@
                =~= old(self).cross_chain_orders@.insert(h, CrossChainOrder {
                src_escrow: ord.src_escrow,
                ..old(self).cross_chain_orders@[h]
            }));
        }
        Ok(())
    }

    /// The factory's completion signal for the destination leg: records
    /// the new escrow's address, exactly once.  Only the orchestrator's
    /// own account may deliver it.
    pub fn on_dst_escrow_created(&mut self, caller: &String, order_hash: &Digest,
        escrow_address: String) -> (r: Result<(), EscrowError>)
        requires
            old(self).wf(),
        ensures
            final(self).wf(),
            ({
                let h = order_hash@;
                let ord = old(self).cross_chain_orders@[h];
                if caller@ != old(self).account_id@ {
                    r == Err::<(), EscrowError>(EscrowError::Unauthorized)
                        && *final(self) == *old(self)
                } else if !old(self).cross_chain_orders@.contains_key(h) {
                    r == Err::<(), EscrowError>(EscrowError::NotFound)
                        && *final(self) == *old(self)
                } else if ord.dst_escrow is Some {
                    r == Err::<(), EscrowError>(EscrowError::AlreadyExists)
                        && *final(self) == *old(self)
                } else {
                    &&& r == Ok::<(), EscrowError>(())
                    &&& final(self).cross_chain_orders@
                        == old(self).cross_chain_orders@.insert(h, CrossChainOrder {
                        dst_escrow: Some(escrow_address),
                        ..ord
                    })
                    &&& final(self).resolver_operators == old(self).resolver_operators
                    &&& final(self).account_id == old(self).account_id
                    &&& final(self).escrow_factory == old(self).escrow_factory
                    &&& final(self).fusion_order_contract == old(self).fusion_order_contract
                }
            }),
    {
        let ghost h = order_hash@;
        if !caller.eq(&self.account_id) {
            return Err(EscrowError::Unauthorized);
        }
        match self.cross_chain_orders.get(order_hash) {
            Some(o) => {
                if o.dst_escrow.is_some() {
                    return Err(EscrowError::AlreadyExists);
                }
            },
            None => {
                return Err(EscrowError::NotFound);
            },
        };
        let mut ord = match self.cross_chain_orders.take(order_hash) {
            Some(o) => o,
            None => {
                return Err(EscrowError::NotFound);
            },
        };
        ord.dst_escrow = Some(escrow_address);
        self.cross_chain_orders.insert(*order_hash, ord);
        proof {
            assert(self.cross_chain_orders@
                =~= old(self).cross_chain_orders@.insert(h, CrossChainOrder {
                dst_escrow: ord.dst_escrow,
                ..old(self).cross_chain_orders@[h]
            }));
        }
        Ok(())
    }

    /// Releases both legs of a swap with the revealed secret.  Only the
    /// swap's resolver may execute; the swap must be uncompleted, both
    /// escrows assigned, and the secret must match the stored hash.  On
    /// success the swap is marked completed, so a second call is
    /// rejected, and the host is told to withdraw both legs and record
    /// the fill against the source order.
    pub fn execute_cross_chain_fill(&mut self, caller: &String, now: u64, order_hash: &Digest,
        secret: &str, making_amount: u128, taking_amount: u128)
        -> (r: Result<CrossChainFillActions, EscrowError>)
        requires
            old(self).wf(),
        ensures
            final(self).wf(),
            ({
                let h = order_hash@;
                let ord = old(self).cross_chain_orders@[h];
                if !old(self).cross_chain_orders@.contains_key(h) {
                    r == Err::<CrossChainFillActions, EscrowError>(EscrowError::NotFound)
                        && *final(self) == *old(self)
                } else if caller@ != ord.resolver@ {
                    r == Err::<CrossChainFillActions, EscrowError>(EscrowError::Unauthorized)
                        && *final(self) == *old(self)
                } else if ord.is_completed {
                    r == Err::<CrossChainFillActions, EscrowError>(EscrowError::AlreadyCompleted)
                        && *final(self) == *old(self)
                } else if !spec_secret_matches(secret.spec_bytes(), ord.secret_hash@) {
                    r == Err::<CrossChainFillActions, EscrowError>(EscrowError::InvalidSecret)
                        && *final(self) == *old(self)
                } else if ord.src_escrow is None || ord.dst_escrow is None {
                    r == Err::<CrossChainFillActions, EscrowError>(EscrowError::NotFound)
                        && *final(self) == *old(self)
                } else {
                    &&& r matches Ok(a)
                    &&& a.secret@ == secret@
                    &&& (ord.src_escrow matches Some(se) && a.src_withdrawal.escrow == se)
                    &&& (ord.dst_escrow matches Some(de) && a.dst_withdrawal.escrow == de)
                    &&& spec_immutables_from_orders(a.src_withdrawal.immutables, ord.src_order,
                        ord.dst_order, ord.secret_hash@, now)
                    &&& a.dst_withdrawal.immutables == a.src_withdrawal.immutables
                    &&& a.fill_target == old(self).fusion_order_contract
                    &&& a.fill_order_hash@ == keccak256(spec_order_bytes(ord.src_order))
                    &&& a.making_amount == making_amount
                    &&& a.taking_amount == taking_amount
                    &&& final(self).cross_chain_orders@
                        == old(self).cross_chain_orders@.insert(h, CrossChainOrder {
                        is_completed: true,
                        ..ord
                    })
                    &&& final(self).resolver_operators == old(self).resolver_operators
                    &&& final(self).account_id == old(self).account_id
                    &&& final(self).escrow_factory == old(self).escrow_factory
                    &&& final(self).fusion_order_contract == old(self).fusion_order_contract
                }
            }),
    {
        let ghost h = order_hash@;
        {
            let ord = match self.cross_chain_orders.get(order_hash) {
                Some(o) => o,
                None => {
                    return Err(EscrowError::NotFound);
                },
            };
            if !caller.eq(&ord.resolver) {
                return Err(EscrowError::Unauthorized);
            }
            if ord.is_completed {
                return Err(EscrowError::AlreadyCompleted);
            }
            if !verify_secret(secret, &ord.secret_hash) {
                return Err(EscrowError::InvalidSecret);
            }
            if ord.src_escrow.is_none() || ord.dst_escrow.is_none() {
                return Err(EscrowError::NotFound);
            }
        }
        let mut ord = match self.cross_chain_orders.take(order_hash) {
            Some(o) => o,
            None => {
                return Err(EscrowError::NotFound);
            },
        };
        let immutables = Self::create_immutables_from_orders(&ord.src_order, &ord.dst_order,
            &ord.secret_hash, now);
        let fill_order_hash = ord.src_order.hash();
        let src_escrow = match &ord.src_escrow {
            Some(s) => s.clone(),
            None => {
                return Err(EscrowError::NotFound);
            },
        };
        let dst_escrow = match &ord.dst_escrow {
            Some(s) => s.clone(),
            None => {
                return Err(EscrowError::NotFound);
            },
        };
        let actions = CrossChainFillActions {
            secret: secret.to_owned(),
            src_withdrawal: EscrowWithdrawal {
                escrow: src_escrow,
                immutables: immutables.clone(),
            },
            dst_withdrawal: EscrowWithdrawal { escrow: dst_escrow, immutables },
            fill_target: self.fusion_order_contract.clone(),
            fill_order_hash,
            making_amount,
            taking_amount,
        };
        ord.is_completed = true;
        self.cross_chain_orders.insert(*order_hash, ord);
        proof {
            assert(self.cross_chain_orders@
                =~= old(self).cross_chain_orders@.insert(h, CrossChainOrder {
                is_completed: true,
                ..old(self).cross_chain_orders@[h]
            }));
        }
        Ok(actions)
    }

    /// Puts an operator on the whitelist.  Only the orchestrator's own
    /// account may do so.
    pub fn add_operator(&mut self, caller: &String, operator: String)
        -> (r: Result<(), EscrowError>)
        requires
            old(self).wf(),
        ensures
            final(self).wf(),
            ({
                if caller@ != old(self).account_id@ {
                    r == Err::<(), EscrowError>(EscrowError::Unauthorized)
                        && *final(self) == *old(self)
                } else {
                    &&& r == Ok::<(), EscrowError>(())
                    &&& final(self).resolver_operators@
                        == old(self).resolver_operators@.insert(operator@)
                    &&& final(self).cross_chain_orders == old(self).cross_chain_orders
                    &&& final(self).account_id == old(self).account_id
                    &&& final(self).escrow_factory == old(self).escrow_factory
                    &&& final(self).fusion_order_contract == old(self).fusion_order_contract
                }
            }),
    {
        if !caller.eq(&self.account_id) {
            return Err(EscrowError::Unauthorized);
        }
        self.resolver_operators.insert(operator);
        Ok(())
    }

    /// Strikes an operator off the whitelist.  Only the orchestrator's
    /// own account may do so.
    pub fn remove_operator(&mut self, caller: &String, operator: &String)
        -> (r: Result<(), EscrowError>)
        requires
            old(self).wf(),
        ensures
            final(self).wf(),
            ({
                if caller@ != old(self).account_id@ {
                    r == Err::<(), EscrowError>(EscrowError::Unauthorized)
                        && *final(self) == *old(self)
                } else {
                    &&& r == Ok::<(), EscrowError>(())
                    &&& final(self).resolver_operators@
                        == old(self).resolver_operators@.remove(operator@)
                    &&& final(self).cross_chain_orders == old(self).cross_chain_orders
                    &&& final(self).account_id == old(self).account_id
                    &&& final(self).escrow_factory == old(self).escrow_factory
                    &&& final(self).fusion_order_contract == old(self).fusion_order_contract
                }
            }),
    {
        if !caller.eq(&self.account_id) {
            return Err(EscrowError::Unauthorized);
        }
        self.resolver_operators.remove(operator);
        Ok(())
    }

    /// The immutables a cross-chain fill rebuilds from its two orders.
    fn create_immutables_from_orders(src_order: &FusionOrder, dst_order: &FusionOrder,
        secret_hash: &Digest, now: u64) -> (r: Immutables)
        ensures
            spec_immutables_from_orders(r, *src_order, *dst_order, secret_hash@, now),
    {
        Immutables {
            order_hash: src_order.hash(),
            hashlock: *secret_hash,
            maker: src_order.maker.clone(),
            taker: dst_order.maker.clone(),
            token: src_order.maker_asset.clone(),
            amount: src_order.making_amount,
            safety_deposit: 0,
            timelocks: Timelocks {
                src_withdrawal: 3600,
                src_public_withdrawal: 7200,
                src_cancellation: 10800,
                src_public_cancellation: 14400,
                dst_withdrawal: 1800,
                dst_public_withdrawal: 3600,
                dst_cancellation: 7200,
                deployed_at: now,
            },
        }
    }

    /// The swap stored under a correlation key, if there is one.
    pub fn get_cross_chain_order(&self, order_hash: &Digest) -> (r: Option<&CrossChainOrder>)
        requires
            self.wf(),
        ensures
            match r {
                Some(o) => self.cross_chain_orders@.contains_key(order_hash@)
                    && *o == self.cross_chain_orders@[order_hash@],
                None => !self.cross_chain_orders@.contains_key(order_hash@),
            },
    {
        self.cross_chain_orders.get(order_hash)
    }
}

} // verus!
