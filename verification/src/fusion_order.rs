//! The order ledger and partial-fill engine with Dutch-auction pricing
//! and fee accounting.

use crate::errors::EscrowError;
use crate::hashing::keccak256;
use crate::hashing::Digest;
use crate::order::spec_order_bytes;
use crate::order::spec_rate_bump;
use crate::order::spec_valid_partial_fill;
use crate::order::AuctionDetails;
use crate::order::FusionOrder;
use crate::order::ResolverFee;
use crate::registry::AccountSet;
use crate::registry::DigestMap;
use crate::transfer::Transfer;
use crate::BASIS_POINTS;
use vstd::prelude::*;

verus! {

/// One ledger entry: the resting order plus its mutable fill state.  An
/// entry is created on submission, mutated on each fill or cancel, and
/// never deleted, so the ledger doubles as an audit trail.
pub struct OrderState {
    pub order: FusionOrder,
    pub filled_making_amount: u128,
    pub filled_taking_amount: u128,
    pub is_cancelled: bool,
    pub auction: Option<AuctionDetails>,
}

/// The order-matching component: the order ledger, the resolver
/// whitelist, and the protocol-fee configuration.
pub struct FusionOrderContract {
    /// The component's own administrative identity: whitelist maintenance
    /// must come from this account.
    pub account_id: String,
    pub orders: DigestMap<OrderState>,
    pub resolver_whitelist: AccountSet,
    pub protocol_fee_receiver: String,
    pub protocol_fee_basis_points: u32,
}

/// A ledger entry never records more filled than the order offered.
pub open spec fn spec_order_state_wf(st: OrderState) -> bool {
    &&& st.filled_making_amount <= st.order.making_amount
    &&& st.filled_taking_amount <= st.order.taking_amount
}

/// The rate bump a fill pays at `now`: the attached auction's bump, or
/// zero when no auction is attached.
pub open spec fn spec_bump_of(st: OrderState, now: u64) -> u32 {
    match st.auction {
        Some(a) => spec_rate_bump(a, now),
        None => 0,
    }
}

/// The resolver fee honoured by a fill: the supplied fee's amount when
/// the order designates a resolver, zero otherwise.
pub open spec fn spec_fee_amount(st: OrderState, fee: Option<ResolverFee>) -> u128 {
    match fee {
        Some(f) => if st.order.resolver is Some {
            f.amount
        } else {
            0
        },
        None => 0,
    }
}

/// A supplied fee whose receiver is not the order's designated resolver.
pub open spec fn spec_fee_mismatch(st: OrderState, fee: Option<ResolverFee>) -> bool {
    fee matches Some(f) && st.order.resolver matches Some(res) && f.receiver@ != res@
}

/// A supplied fee whose receiver matches the designated resolver, but
/// that resolver is not whitelisted.
pub open spec fn spec_fee_unlisted(
    st: OrderState,
    fee: Option<ResolverFee>,
    whitelist: Set<Seq<char>>,
) -> bool {
    fee matches Some(f) && st.order.resolver matches Some(res) && f.receiver@ == res@
        && !whitelist.contains(res@)
}

/// What the maker is owed for a fill of `t` taking units: the raw amount,
/// plus the auction bump in basis points, plus the resolver fee.
pub open spec fn spec_actual_taking(
    st: OrderState,
    fee: Option<ResolverFee>,
    now: u64,
    t: u128,
) -> int {
    t + ((t as int) * (spec_bump_of(st, now) as int)) / (BASIS_POINTS as int)
        + spec_fee_amount(st, fee)
}

/// The protocol's cut of a fill of `m` making units.
pub open spec fn spec_protocol_fee(fee_basis_points: u32, m: u128) -> int {
    ((m as int) * (fee_basis_points as int)) / (BASIS_POINTS as int)
}

/// Whether a fill request passes every validation gate.
pub open spec fn spec_fill_accepted(
    c: FusionOrderContract,
    h: Seq<u8>,
    caller: Seq<char>,
    m: u128,
    t: u128,
    fee: Option<ResolverFee>,
) -> bool {
    &&& c.orders@.contains_key(h)
    &&& !c.orders@[h].is_cancelled
    &&& spec_valid_partial_fill(c.orders@[h].order, m, t)
    &&& m <= c.orders@[h].order.making_amount - c.orders@[h].filled_making_amount
    &&& t <= c.orders@[h].order.taking_amount - c.orders@[h].filled_taking_amount
    &&& !spec_fee_mismatch(c.orders@[h], fee)
    &&& !spec_fee_unlisted(c.orders@[h], fee, c.resolver_whitelist@)
}

/// Whether the fee-adjusted amounts of an accepted fill stay within the
/// 128-bit machine range; a fill that does not is outside this engine's
/// domain.
pub open spec fn spec_fill_fits(
    c: FusionOrderContract,
    h: Seq<u8>,
    caller: Seq<char>,
    m: u128,
    t: u128,
    fee: Option<ResolverFee>,
    now: u64,
) -> bool {
    spec_fill_accepted(c, h, caller, m, t, fee) ==> {
        &&& (t as int) * (spec_bump_of(c.orders@[h], now) as int) <= u128::MAX
        &&& spec_actual_taking(c.orders@[h], fee, now, t) <= u128::MAX
        &&& (m as int) * (c.protocol_fee_basis_points as int) <= u128::MAX
    }
}

impl FusionOrderContract {
    /// Whether the component's state is sound: sound registries, a fee
    /// within range, and every ledger entry within its order's amounts.
    pub open spec fn wf(&self) -> bool {
        &&& self.orders.wf()
        &&& self.resolver_whitelist.wf()
        &&& self.protocol_fee_basis_points <= BASIS_POINTS
        &&& forall|k: Seq<u8>| #[trigger] self.orders@.contains_key(k)
            ==> spec_order_state_wf(self.orders@[k])
    }

    /// A fresh component with an empty ledger and whitelist.  The fee
    /// must not exceed the basis-point denominator.
    pub fn new(account_id: String, protocol_fee_receiver: String, protocol_fee_basis_points: u32)
        -> (r: Result<Self, EscrowError>)
        ensures
            ({
                if protocol_fee_basis_points > BASIS_POINTS {
                    r == Err::<Self, EscrowError>(EscrowError::InvalidConfiguration)
                } else {
                    r matches Ok(c) && c.wf() && c.orders@ == Map::<Seq<u8>, OrderState>::empty()
                        && c.resolver_whitelist@ == Set::<Seq<char>>::empty()
                        && c.account_id == account_id
                        && c.protocol_fee_receiver == protocol_fee_receiver
                        && c.protocol_fee_basis_points == protocol_fee_basis_points
                }
            }),
    {
        if protocol_fee_basis_points > BASIS_POINTS {
            return Err(EscrowError::InvalidConfiguration);
        }
        Ok(FusionOrderContract {
            account_id,
            orders: DigestMap::new(),
            resolver_whitelist: AccountSet::new(),
            protocol_fee_receiver,
            protocol_fee_basis_points,
        })
    }

    /// Submits a resting order under its content hash.  Only the maker
    /// may submit, and an existing entry is never overwritten.
    pub fn create_order(&mut self, caller: &String, order: FusionOrder,
        auction: Option<AuctionDetails>) -> (r: Result<Digest, EscrowError>)
        requires
            old(self).wf(),
        ensures
            final(self).wf(),
            ({
                let h = keccak256(spec_order_bytes(order));
                if caller@ != order.maker@ {
                    r == Err::<Digest, EscrowError>(EscrowError::Unauthorized)
                        && *final(self) == *old(self)
                } else if old(self).orders@.contains_key(h) {
                    r == Err::<Digest, EscrowError>(EscrowError::AlreadyExists)
                        && *final(self) == *old(self)
                } else {
                    &&& r matches Ok(d) && d@ == h
                    &&& final(self).orders@ == old(self).orders@.insert(h, OrderState {
                        order: order,
                        filled_making_amount: 0,
                        filled_taking_amount: 0,
                        is_cancelled: false,
                        auction: auction,
                    })
                    &&& final(self).resolver_whitelist == old(self).resolver_whitelist
                    &&& final(self).account_id == old(self).account_id
                    &&& final(self).protocol_fee_receiver == old(self).protocol_fee_receiver
                    &&& final(self).protocol_fee_basis_points
                        == old(self).protocol_fee_basis_points
                }
            }),
    {
        if !caller.eq(&order.maker) {
            return Err(EscrowError::Unauthorized);
        }
        let order_hash = order.hash();
        if self.orders.contains_key(&order_hash) {
            return Err(EscrowError::AlreadyExists);
        }
        let state = OrderState {
            order,
            filled_making_amount: 0,
            filled_taking_amount: 0,
            is_cancelled: false,
            auction,
        };
        self.orders.insert(order_hash, state);
        Ok(order_hash)
    }

    /// Fills part (or all) of a resting order.  The fill must match the
    /// order's price exactly and stay within its unfilled balance; the
    /// maker's proceeds carry the auction bump and resolver fee, the
    /// taker's proceeds are net of the protocol fee, and the ledger
    /// records the raw amounts.
    pub fn fill_order(
        &mut self,
        caller: &String,
        now: u64,
        order_hash: &Digest,
        making_amount: u128,
        taking_amount: u128,
        resolver_fee: Option<ResolverFee>,
    ) -> (r: Result<Vec<Transfer>, EscrowError>)
        requires
            old(self).wf(),
            spec_fill_fits(*old(self), order_hash@, caller@, making_amount, taking_amount,
                resolver_fee, now),
        ensures
            final(self).wf(),
            ({
                let h = order_hash@;
                let st = old(self).orders@[h];
                let o = st.order;
                if !old(self).orders@.contains_key(h) {
                    r == Err::<Vec<Transfer>, EscrowError>(EscrowError::NotFound)
                        && *final(self) == *old(self)
                } else if st.is_cancelled {
                    r == Err::<Vec<Transfer>, EscrowError>(EscrowError::AlreadyCancelled)
                        && *final(self) == *old(self)
                } else if !spec_valid_partial_fill(o, making_amount, taking_amount) {
                    r == Err::<Vec<Transfer>, EscrowError>(EscrowError::InvalidFillAmounts)
                        && *final(self) == *old(self)
                } else if making_amount > o.making_amount - st.filled_making_amount
                        || taking_amount > o.taking_amount - st.filled_taking_amount {
                    r == Err::<Vec<Transfer>, EscrowError>(EscrowError::ExceedsRemaining)
                        && *final(self) == *old(self)
                } else if spec_fee_mismatch(st, resolver_fee) {
                    r == Err::<Vec<Transfer>, EscrowError>(EscrowError::InvalidResolver)
                        && *final(self) == *old(self)
                } else if spec_fee_unlisted(st, resolver_fee, old(self).resolver_whitelist@) {
                    r == Err::<Vec<Transfer>, EscrowError>(EscrowError::ResolverNotWhitelisted)
                        && *final(self) == *old(self)
                } else {
                    let maker_receives = spec_actual_taking(st, resolver_fee, now, taking_amount);
                    let protocol_fee = spec_protocol_fee(old(self).protocol_fee_basis_points,
                        making_amount);
                    &&& r matches Ok(v)
                    &&& v@.len() == (if protocol_fee > 0 { 3int } else { 2int })
                    &&& v@[0] == (Transfer {
                        token: o.taker_asset,
                        sender: Some(*caller),
                        receiver: o.maker,
                        amount: maker_receives as u128,
                    })
                    &&& v@[1] == (Transfer {
                        token: o.maker_asset,
                        sender: Some(o.maker),
                        receiver: *caller,
                        amount: (making_amount - protocol_fee) as u128,
                    })
                    &&& protocol_fee > 0 ==> v@[2] == (Transfer {
                        token: o.maker_asset,
                        sender: Some(o.maker),
                        receiver: old(self).protocol_fee_receiver,
                        amount: protocol_fee as u128,
                    })
                    &&& final(self).orders@ == old(self).orders@.insert(h, OrderState {
                        filled_making_amount: (st.filled_making_amount + making_amount) as u128,
                        filled_taking_amount: (st.filled_taking_amount + taking_amount) as u128,
                        ..st
                    })
                    &&& final(self).resolver_whitelist == old(self).resolver_whitelist
                    &&& final(self).account_id == old(self).account_id
                    &&& final(self).protocol_fee_receiver == old(self).protocol_fee_receiver
                    &&& final(self).protocol_fee_basis_points
                        == old(self).protocol_fee_basis_points
                }
            }),
    {
        let ghost h = order_hash@;
        let ghost old_self = *self;
        let st = match self.orders.get(order_hash) {
            Some(st) => st,
            None => {
                return Err(EscrowError::NotFound);
            },
        };
        if st.is_cancelled {
            return Err(EscrowError::AlreadyCancelled);
        }
        if !st.order.is_valid_partial_fill(making_amount, taking_amount) {
            return Err(EscrowError::InvalidFillAmounts);
        }
        proof {
            assert(spec_order_state_wf(self.orders@[h]));
        }
        let remaining_making = st.order.making_amount - st.filled_making_amount;
        let remaining_taking = st.order.taking_amount - st.filled_taking_amount;
        if making_amount > remaining_making || taking_amount > remaining_taking {
            return Err(EscrowError::ExceedsRemaining);
        }
        let rate_bump: u32 = match &st.auction {
            Some(a) => a.get_rate_bump(now),
            None => 0,
        };
        // The supplied fee is honoured only for the designated resolver,
        // and only when that resolver is whitelisted.
        let fee_amount: u128 = match (&resolver_fee, &st.order.resolver) {
            (Some(f), Some(res)) => {
                if !f.receiver.eq(res) {
                    return Err(EscrowError::InvalidResolver);
                }
                if !self.resolver_whitelist.contains(res) {
                    return Err(EscrowError::ResolverNotWhitelisted);
                }
                f.amount
            },
            _ => 0,
        };
        proof {
            assert(spec_fill_accepted(old_self, h, caller@, making_amount, taking_amount,
                resolver_fee));
            assert(fee_amount == spec_fee_amount(self.orders@[h], resolver_fee));
            assert(rate_bump == spec_bump_of(self.orders@[h], now));
        }
        let bumped = (taking_amount * (rate_bump as u128)) / (BASIS_POINTS as u128);
        let actual_taking_amount = taking_amount + bumped + fee_amount;
        let protocol_fee =
            (making_amount * (self.protocol_fee_basis_points as u128)) / (BASIS_POINTS as u128);
        proof {
            assert(protocol_fee as int
                == spec_protocol_fee(self.protocol_fee_basis_points, making_amount));
            assert((protocol_fee as int) <= making_amount) by (nonlinear_arith)
                requires
                    protocol_fee as int == ((making_amount as int)
                        * (self.protocol_fee_basis_points as int)) / (BASIS_POINTS as int),
                    0 <= (making_amount as int),
                    0 <= (self.protocol_fee_basis_points as int) <= (BASIS_POINTS as int),
                    BASIS_POINTS == 10_000;
        }
        let mut transfers: Vec<Transfer> = Vec::new();
        transfers.push(Transfer {
            token: st.order.taker_asset.clone(),
            sender: Some(caller.clone()),
            receiver: st.order.maker.clone(),
            amount: actual_taking_amount,
        });
        transfers.push(Transfer {
            token: st.order.maker_asset.clone(),
            sender: Some(st.order.maker.clone()),
            receiver: caller.clone(),
            amount: making_amount - protocol_fee,
        });
        if protocol_fee > 0 {
            transfers.push(Transfer {
                token: st.order.maker_asset.clone(),
                sender: Some(st.order.maker.clone()),
                receiver: self.protocol_fee_receiver.clone(),
                amount: protocol_fee,
            });
        }
        let mut state = match self.orders.take(order_hash) {
            Some(state) => state,
            None => {
                return Err(EscrowError::NotFound);
            },
        };
        state.filled_making_amount = state.filled_making_amount + making_amount;
        state.filled_taking_amount = state.filled_taking_amount + taking_amount;
        self.orders.insert(*order_hash, state);
        proof {
            assert(self.orders@ =~= old(self).orders@.insert(h, OrderState {
                filled_making_amount: (old(self).orders@[h].filled_making_amount
                    + making_amount) as u128,
                filled_taking_amount: (old(self).orders@[h].filled_taking_amount
                    + taking_amount) as u128,
                ..old(self).orders@[h]
            }));
            assert forall|k: Seq<u8>| #[trigger] self.orders@.contains_key(k)
                implies spec_order_state_wf(self.orders@[k]) by {
                if k != h {
                    assert(old(self).orders@.contains_key(k));
                }
            }
        }
        Ok(transfers)
    }

    /// Cancels a resting order.  Only the maker may cancel, and only
    /// once; the entry stays in the ledger as an audit record.
    pub fn cancel_order(&mut self, caller: &String, order_hash: &Digest)
        -> (r: Result<(), EscrowError>)
        requires
            old(self).wf(),
        ensures
            final(self).wf(),
            ({
                let h = order_hash@;
                let st = old(self).orders@[h];
                if !old(self).orders@.contains_key(h) {
                    r == Err::<(), EscrowError>(EscrowError::NotFound)
                        && *final(self) == *old(self)
                } else if caller@ != st.order.maker@ {
                    r == Err::<(), EscrowError>(EscrowError::Unauthorized)
                        && *final(self) == *old(self)
                } else if st.is_cancelled {
                    r == Err::<(), EscrowError>(EscrowError::AlreadyCancelled)
                        && *final(self) == *old(self)
                } else {
                    &&& r == Ok::<(), EscrowError>(())
                    &&& final(self).orders@ == old(self).orders@.insert(h, OrderState {
                        is_cancelled: true,
                        ..st
                    })
                    &&& final(self).resolver_whitelist == old(self).resolver_whitelist
                    &&& final(self).account_id == old(self).account_id
                    &&& final(self).protocol_fee_receiver == old(self).protocol_fee_receiver
                    &&& final(self).protocol_fee_basis_points
                        == old(self).protocol_fee_basis_points
                }
            }),
    {
        let ghost h = order_hash@;
        let st = match self.orders.get(order_hash) {
            Some(st) => st,
            None => {
                return Err(EscrowError::NotFound);
            },
        };
        if !caller.eq(&st.order.maker) {
            return Err(EscrowError::Unauthorized);
        }
        if st.is_cancelled {
            return Err(EscrowError::AlreadyCancelled);
        }
        let mut state = match self.orders.take(order_hash) {
            Some(state) => state,
            None => {
                return Err(EscrowError::NotFound);
            },
        };
        state.is_cancelled = true;
        self.orders.insert(*order_hash, state);
        proof {
            assert(self.orders@ =~= old(self).orders@.insert(h, OrderState {
                is_cancelled: true,
                ..old(self).orders@[h]
            }));
            assert forall|k: Seq<u8>| #[trigger] self.orders@.contains_key(k)
                implies spec_order_state_wf(self.orders@[k]) by {
                if k != h {
                    assert(old(self).orders@.contains_key(k));
                }
            }
        }
        Ok(())
    }

    /// Puts a resolver on the whitelist.  Only the component's own
    /// administrative identity may do so.
    pub fn add_resolver(&mut self, caller: &String, resolver: String)
        -> (r: Result<(), EscrowError>)
        requires
            old(self).wf(),
        ensures
            final(self).wf(),
            ({
                if caller@ != old(self).account_id@ {
                    r == Err::<(), EscrowError>(EscrowError::Unauthorized)
                        && *final(self) == *old(self)
                } else {
                    &&& r == Ok::<(), EscrowError>(())
                    &&& final(self).resolver_whitelist@
                        == old(self).resolver_whitelist@.insert(resolver@)
                    &&& final(self).orders == old(self).orders
                    &&& final(self).account_id == old(self).account_id
                    &&& final(self).protocol_fee_receiver == old(self).protocol_fee_receiver
                    &&& final(self).protocol_fee_basis_points
                        == old(self).protocol_fee_basis_points
                }
            }),
    {
        if !caller.eq(&self.account_id) {
            return Err(EscrowError::Unauthorized);
        }
        self.resolver_whitelist.insert(resolver);
        Ok(())
    }

    /// Strikes a resolver off the whitelist.  Only the component's own
    /// administrative identity may do so.
    pub fn remove_resolver(&mut self, caller: &String, resolver: &String)
        -> (r: Result<(), EscrowError>)
        requires
            old(self).wf(),
        ensures
            final(self).wf(),
            ({
                if caller@ != old(self).account_id@ {
                    r == Err::<(), EscrowError>(EscrowError::Unauthorized)
                        && *final(self) == *old(self)
                } else {
                    &&& r == Ok::<(), EscrowError>(())
                    &&& final(self).resolver_whitelist@
                        == old(self).resolver_whitelist@.remove(resolver@)
                    &&& final(self).orders == old(self).orders
                    &&& final(self).account_id == old(self).account_id
                    &&& final(self).protocol_fee_receiver == old(self).protocol_fee_receiver
                    &&& final(self).protocol_fee_basis_points
                        == old(self).protocol_fee_basis_points
                }
            }),
    {
        if !caller.eq(&self.account_id) {
            return Err(EscrowError::Unauthorized);
        }
        self.resolver_whitelist.remove(resolver);
        Ok(())
    }

    /// The ledger entry stored under an order hash, if there is one.
    pub fn get_order(&self, order_hash: &Digest) -> (r: Option<&OrderState>)
        requires
            self.wf(),
        ensures
            match r {
                Some(st) => self.orders@.contains_key(order_hash@)
                    && *st == self.orders@[order_hash@],
                None => !self.orders@.contains_key(order_hash@),
            },
    {
        self.orders.get(order_hash)
    }

    /// The unfilled balance of an order, making side then taking side;
    /// an unknown hash reads as fully filled.
    pub fn get_remaining_amounts(&self, order_hash: &Digest) -> (r: (u128, u128))
        requires
            self.wf(),
        ensures
            ({
                let h = order_hash@;
                if self.orders@.contains_key(h) {
                    r.0 == self.orders@[h].order.making_amount
                        - self.orders@[h].filled_making_amount
                        && r.1 == self.orders@[h].order.taking_amount
                        - self.orders@[h].filled_taking_amount
                } else {
                    r == (0u128, 0u128)
                }
            }),
    {
        match self.orders.get(order_hash) {
            Some(st) => {
                proof {
                    assert(spec_order_state_wf(self.orders@[order_hash@]));
                }
                (
                    st.order.making_amount - st.filled_making_amount,
                    st.order.taking_amount - st.filled_taking_amount,
                )
            },
            None => (0, 0),
        }
    }
}

} // verus!
