//! The single-contract escrow: a hash-keyed ledger of deposits, each
//! guarded by the source-side timelock schedule and a hashlock.
//!
//! A deposit is keyed by its client-supplied order hash.  Its `is_active`
//! flag is the leg's settled marker: the first withdraw or cancel that
//! passes every check clears it, and every later call is rejected.

use crate::errors::EscrowError;
use crate::hashing::spec_secret_matches;
use crate::hashing::verify_secret;
use crate::hashing::Digest;
use crate::registry::DigestMap;
use crate::timelocks::spec_is_stage;
use crate::timelocks::Stage;
use crate::timelocks::TimeBoundKind;
use crate::timelocks::Timelocks;
use crate::transfer::Transfer;
use vstd::prelude::*;
use vstd::string::StringSliceAdditionalSpecFns;

verus! {

/// One escrowed deposit: the swap's parameters plus the active flag.
pub struct EscrowOrder {
    pub order_hash: Digest,
    pub secret_hash: Digest,
    pub maker: String,
    pub taker: String,
    pub token_contract: String,
    pub amount: u128,
    pub safety_deposit: u128,
    pub timelocks: Timelocks,
    pub is_active: bool,
}

impl Clone for EscrowOrder {
    /// An exact copy: every field of the clone equals the original's.
    fn clone(&self) -> (res: Self)
        ensures
            res == *self,
    {
        EscrowOrder {
            order_hash: self.order_hash,
            secret_hash: self.secret_hash,
            maker: self.maker.clone(),
            taker: self.taker.clone(),
            token_contract: self.token_contract.clone(),
            amount: self.amount,
            safety_deposit: self.safety_deposit,
            timelocks: self.timelocks,
            is_active: self.is_active,
        }
    }
}

/// The escrow component: its own account identity, the deposit ledger,
/// and a running count of deposits ever made.
pub struct FusionEscrow {
    /// The component's own identity: deposits are pulled into this
    /// account's balance.
    pub account_id: String,
    pub escrows: DigestMap<EscrowOrder>,
    pub escrow_count: u64,
}

impl FusionEscrow {
    /// Whether the component's state is sound: a sound ledger whose size
    /// the counter tracks.
    pub open spec fn wf(&self) -> bool {
        &&& self.escrows.wf()
        &&& self.escrow_count == self.escrows.spec_len()
    }

    /// A fresh escrow component with an empty ledger.
    pub fn new(account_id: String) -> (r: Self)
        ensures
            r.wf(),
            r.escrows@ == Map::<Seq<u8>, EscrowOrder>::empty(),
            r.escrow_count == 0,
            r.account_id == account_id,
    {
        FusionEscrow { account_id, escrows: DigestMap::new(), escrow_count: 0 }
    }

    /// The maker deposits into escrow: the entry is recorded under its
    /// order hash, activated, and anchored at `now`; the deposit itself
    /// is pulled from the maker's balance into the escrow account.
    pub fn deposit(&mut self, caller: &String, now: u64, escrow_order: EscrowOrder)
        -> (r: Result<(Digest, Transfer), EscrowError>)
        requires
            old(self).wf(),
            old(self).escrow_count < u64::MAX,
        ensures
            final(self).wf(),
            ({
                let h = escrow_order.order_hash@;
                if caller@ != escrow_order.maker@ {
                    r == Err::<(Digest, Transfer), EscrowError>(EscrowError::Unauthorized)
                        && *final(self) == *old(self)
                } else if escrow_order.is_active {
                    r == Err::<(Digest, Transfer), EscrowError>(EscrowError::InvalidConfiguration)
                        && *final(self) == *old(self)
                } else if old(self).escrows@.contains_key(h) {
                    r == Err::<(Digest, Transfer), EscrowError>(EscrowError::AlreadyExists)
                        && *final(self) == *old(self)
                } else {
                    &&& r matches Ok(out)
                    &&& out.0@ == h
                    &&& out.1 == (Transfer {
                        token: escrow_order.token_contract,
                        sender: Some(escrow_order.maker),
                        receiver: old(self).account_id,
                        amount: escrow_order.amount,
                    })
                    &&& final(self).escrows@ == old(self).escrows@.insert(h, EscrowOrder {
                        is_active: true,
                        timelocks: Timelocks {
                            deployed_at: now,
                            ..escrow_order.timelocks
                        },
                        ..escrow_order
                    })
                    &&& final(self).escrow_count == old(self).escrow_count + 1
                    &&& final(self).account_id == old(self).account_id
                }
            }),
    {
        if !caller.eq(&escrow_order.maker) {
            return Err(EscrowError::Unauthorized);
        }
        if escrow_order.is_active {
            return Err(EscrowError::InvalidConfiguration);
        }
        if self.escrows.contains_key(&escrow_order.order_hash) {
            return Err(EscrowError::AlreadyExists);
        }
        let mut order = escrow_order;
        order.is_active = true;
        order.timelocks.set_deployed_at(now);
        let order_hash = order.order_hash;
        let transfer = Transfer {
            token: order.token_contract.clone(),
            sender: Some(order.maker.clone()),
            receiver: self.account_id.clone(),
            amount: order.amount,
        };
        self.escrows.insert(order_hash, order);
        self.escrow_count = self.escrow_count + 1;
        Ok((order_hash, transfer))
    }

    /// The taker withdraws an active deposit to itself: allowed in
    /// `[withdrawal, cancellation)` of the source schedule, gated by the
    /// secret.
    pub fn withdraw(&mut self, caller: &String, now: u64, secret: &str, order_hash: &Digest)
        -> (r: Result<Transfer, EscrowError>)
        requires
            old(self).wf(),
        ensures
            final(self).wf(),
            ({
                let h = order_hash@;
                let e = old(self).escrows@[h];
                if !old(self).escrows@.contains_key(h) {
                    r == Err::<Transfer, EscrowError>(EscrowError::NotFound)
                        && *final(self) == *old(self)
                } else if caller@ != e.taker@ {
                    r == Err::<Transfer, EscrowError>(EscrowError::Unauthorized)
                        && *final(self) == *old(self)
                } else if !e.is_active {
                    r == Err::<Transfer, EscrowError>(EscrowError::AlreadySettled)
                        && *final(self) == *old(self)
                } else if !spec_is_stage(e.timelocks, Stage::SrcWithdrawal,
                        TimeBoundKind::After, now) {
                    r == Err::<Transfer, EscrowError>(EscrowError::TooEarly)
                        && *final(self) == *old(self)
                } else if !spec_is_stage(e.timelocks, Stage::SrcCancellation,
                        TimeBoundKind::Before, now) {
                    r == Err::<Transfer, EscrowError>(EscrowError::TooLate)
                        && *final(self) == *old(self)
                } else if !spec_secret_matches(secret.spec_bytes(), e.secret_hash@) {
                    r == Err::<Transfer, EscrowError>(EscrowError::InvalidSecret)
                        && *final(self) == *old(self)
                } else {
                    &&& r == Ok::<Transfer, EscrowError>(Transfer {
                        token: e.token_contract,
                        sender: None,
                        receiver: e.taker,
                        amount: e.amount,
                    })
                    &&& final(self).escrows@ == old(self).escrows@.insert(h, EscrowOrder {
                        is_active: false,
                        ..e
                    })
                    &&& final(self).escrow_count == old(self).escrow_count
                    &&& final(self).account_id == old(self).account_id
                }
            }),
    {
        let ghost h = order_hash@;
        let entry = match self.escrows.get(order_hash) {
            Some(e) => e,
            None => {
                return Err(EscrowError::NotFound);
            },
        };
        if !caller.eq(&entry.taker) {
            return Err(EscrowError::Unauthorized);
        }
        if !entry.is_active {
            return Err(EscrowError::AlreadySettled);
        }
        if !entry.timelocks.is_stage_time(Stage::SrcWithdrawal, TimeBoundKind::After, now) {
            return Err(EscrowError::TooEarly);
        }
        if !entry.timelocks.is_stage_time(Stage::SrcCancellation, TimeBoundKind::Before, now) {
            return Err(EscrowError::TooLate);
        }
        if !verify_secret(secret, &entry.secret_hash) {
            return Err(EscrowError::InvalidSecret);
        }
        let transfer = Transfer {
            token: entry.token_contract.clone(),
            sender: None,
            receiver: entry.taker.clone(),
            amount: entry.amount,
        };
        self.deactivate(order_hash);
        Ok(transfer)
    }

    /// The taker withdraws an active deposit to a target of its choice:
    /// the same window and secret gate as `withdraw`.
    pub fn withdraw_to(&mut self, caller: &String, now: u64, secret: &str, target: String,
        order_hash: &Digest) -> (r: Result<Transfer, EscrowError>)
        requires
            old(self).wf(),
        ensures
            final(self).wf(),
            ({
                let h = order_hash@;
                let e = old(self).escrows@[h];
                if !old(self).escrows@.contains_key(h) {
                    r == Err::<Transfer, EscrowError>(EscrowError::NotFound)
                        && *final(self) == *old(self)
                } else if caller@ != e.taker@ {
                    r == Err::<Transfer, EscrowError>(EscrowError::Unauthorized)
                        && *final(self) == *old(self)
                } else if !e.is_active {
                    r == Err::<Transfer, EscrowError>(EscrowError::AlreadySettled)
                        && *final(self) == *old(self)
                } else if !spec_is_stage(e.timelocks, Stage::SrcWithdrawal,
                        TimeBoundKind::After, now) {
                    r == Err::<Transfer, EscrowError>(EscrowError::TooEarly)
                        && *final(self) == *old(self)
                } else if !spec_is_stage(e.timelocks, Stage::SrcCancellation,
                        TimeBoundKind::Before, now) {
                    r == Err::<Transfer, EscrowError>(EscrowError::TooLate)
                        && *final(self) == *old(self)
                } else if !spec_secret_matches(secret.spec_bytes(), e.secret_hash@) {
                    r == Err::<Transfer, EscrowError>(EscrowError::InvalidSecret)
                        && *final(self) == *old(self)
                } else {
                    &&& r == Ok::<Transfer, EscrowError>(Transfer {
                        token: e.token_contract,
                        sender: None,
                        receiver: target,
                        amount: e.amount,
                    })
                    &&& final(self).escrows@ == old(self).escrows@.insert(h, EscrowOrder {
                        is_active: false,
                        ..e
                    })
                    &&& final(self).escrow_count == old(self).escrow_count
                    &&& final(self).account_id == old(self).account_id
                }
            }),
    {
        let ghost h = order_hash@;
        let entry = match self.escrows.get(order_hash) {
            Some(e) => e,
            None => {
                return Err(EscrowError::NotFound);
            },
        };
        if !caller.eq(&entry.taker) {
            return Err(EscrowError::Unauthorized);
        }
        if !entry.is_active {
            return Err(EscrowError::AlreadySettled);
        }
        if !entry.timelocks.is_stage_time(Stage::SrcWithdrawal, TimeBoundKind::After, now) {
            return Err(EscrowError::TooEarly);
        }
        if !entry.timelocks.is_stage_time(Stage::SrcCancellation, TimeBoundKind::Before, now) {
            return Err(EscrowError::TooLate);
        }
        if !verify_secret(secret, &entry.secret_hash) {
            return Err(EscrowError::InvalidSecret);
        }
        let transfer = Transfer {
            token: entry.token_contract.clone(),
            sender: None,
            receiver: target,
            amount: entry.amount,
        };
        self.deactivate(order_hash);
        Ok(transfer)
    }

    /// Anyone may trigger the withdrawal to the taker once the public
    /// window `[public_withdrawal, cancellation)` opens; still gated by
    /// the secret.
    pub fn public_withdraw(&mut self, now: u64, secret: &str, order_hash: &Digest)
        -> (r: Result<Transfer, EscrowError>)
        requires
            old(self).wf(),
        ensures
            final(self).wf(),
            ({
                let h = order_hash@;
                let e = old(self).escrows@[h];
                if !old(self).escrows@.contains_key(h) {
                    r == Err::<Transfer, EscrowError>(EscrowError::NotFound)
                        && *final(self) == *old(self)
                } else if !e.is_active {
                    r == Err::<Transfer, EscrowError>(EscrowError::AlreadySettled)
                        && *final(self) == *old(self)
                } else if !spec_is_stage(e.timelocks, Stage::SrcPublicWithdrawal,
                        TimeBoundKind::After, now) {
                    r == Err::<Transfer, EscrowError>(EscrowError::TooEarly)
                        && *final(self) == *old(self)
                } else if !spec_is_stage(e.timelocks, Stage::SrcCancellation,
                        TimeBoundKind::Before, now) {
                    r == Err::<Transfer, EscrowError>(EscrowError::TooLate)
                        && *final(self) == *old(self)
                } else if !spec_secret_matches(secret.spec_bytes(), e.secret_hash@) {
                    r == Err::<Transfer, EscrowError>(EscrowError::InvalidSecret)
                        && *final(self) == *old(self)
                } else {
                    &&& r == Ok::<Transfer, EscrowError>(Transfer {
                        token: e.token_contract,
                        sender: None,
                        receiver: e.taker,
                        amount: e.amount,
                    })
                    &&& final(self).escrows@ == old(self).escrows@.insert(h, EscrowOrder {
                        is_active: false,
                        ..e
                    })
                    &&& final(self).escrow_count == old(self).escrow_count
                    &&& final(self).account_id == old(self).account_id
                }
            }),
    {
        let ghost h = order_hash@;
        let entry = match self.escrows.get(order_hash) {
            Some(e) => e,
            None => {
                return Err(EscrowError::NotFound);
            },
        };
        if !entry.is_active {
            return Err(EscrowError::AlreadySettled);
        }
        if !entry.timelocks.is_stage_time(Stage::SrcPublicWithdrawal, TimeBoundKind::After, now) {
            return Err(EscrowError::TooEarly);
        }
        if !entry.timelocks.is_stage_time(Stage::SrcCancellation, TimeBoundKind::Before, now) {
            return Err(EscrowError::TooLate);
        }
        if !verify_secret(secret, &entry.secret_hash) {
            return Err(EscrowError::InvalidSecret);
        }
        let transfer = Transfer {
            token: entry.token_contract.clone(),
            sender: None,
            receiver: entry.taker.clone(),
            amount: entry.amount,
        };
        self.deactivate(order_hash);
        Ok(transfer)
    }

    /// The maker cancels an active deposit from the cancellation stage
    /// onward: the deposit is refunded to the maker.  No secret needed.
    pub fn cancel(&mut self, caller: &String, now: u64, order_hash: &Digest)
        -> (r: Result<Transfer, EscrowError>)
        requires
            old(self).wf(),
        ensures
            final(self).wf(),
            ({
                let h = order_hash@;
                let e = old(self).escrows@[h];
                if !old(self).escrows@.contains_key(h) {
                    r == Err::<Transfer, EscrowError>(EscrowError::NotFound)
                        && *final(self) == *old(self)
                } else if caller@ != e.maker@ {
                    r == Err::<Transfer, EscrowError>(EscrowError::Unauthorized)
                        && *final(self) == *old(self)
                } else if !e.is_active {
                    r == Err::<Transfer, EscrowError>(EscrowError::AlreadySettled)
                        && *final(self) == *old(self)
                } else if !spec_is_stage(e.timelocks, Stage::SrcCancellation,
                        TimeBoundKind::After, now) {
                    r == Err::<Transfer, EscrowError>(EscrowError::TooEarly)
                        && *final(self) == *old(self)
                } else {
                    &&& r == Ok::<Transfer, EscrowError>(Transfer {
                        token: e.token_contract,
                        sender: None,
                        receiver: e.maker,
                        amount: e.amount,
                    })
                    &&& final(self).escrows@ == old(self).escrows@.insert(h, EscrowOrder {
                        is_active: false,
                        ..e
                    })
                    &&& final(self).escrow_count == old(self).escrow_count
                    &&& final(self).account_id == old(self).account_id
                }
            }),
    {
        let ghost h = order_hash@;
        let entry = match self.escrows.get(order_hash) {
            Some(e) => e,
            None => {
                return Err(EscrowError::NotFound);
            },
        };
        if !caller.eq(&entry.maker) {
            return Err(EscrowError::Unauthorized);
        }
        if !entry.is_active {
            return Err(EscrowError::AlreadySettled);
        }
        if !entry.timelocks.is_stage_time(Stage::SrcCancellation, TimeBoundKind::After, now) {
            return Err(EscrowError::TooEarly);
        }
        let transfer = Transfer {
            token: entry.token_contract.clone(),
            sender: None,
            receiver: entry.maker.clone(),
            amount: entry.amount,
        };
        self.deactivate(order_hash);
        Ok(transfer)
    }

    /// Anyone cancels an active deposit from the public-cancellation
    /// stage onward: the deposit is refunded to the maker.
    pub fn public_cancel(&mut self, now: u64, order_hash: &Digest)
        -> (r: Result<Transfer, EscrowError>)
        requires
            old(self).wf(),
        ensures
            final(self).wf(),
            ({
                let h = order_hash@;
                let e = old(self).escrows@[h];
                if !old(self).escrows@.contains_key(h) {
                    r == Err::<Transfer, EscrowError>(EscrowError::NotFound)
                        && *final(self) == *old(self)
                } else if !e.is_active {
                    r == Err::<Transfer, EscrowError>(EscrowError::AlreadySettled)
                        && *final(self) == *old(self)
                } else if !spec_is_stage(e.timelocks, Stage::SrcPublicCancellation,
                        TimeBoundKind::After, now) {
                    r == Err::<Transfer, EscrowError>(EscrowError::TooEarly)
                        && *final(self) == *old(self)
                } else {
                    &&& r == Ok::<Transfer, EscrowError>(Transfer {
                        token: e.token_contract,
                        sender: None,
                        receiver: e.maker,
                        amount: e.amount,
                    })
                    &&& final(self).escrows@ == old(self).escrows@.insert(h, EscrowOrder {
                        is_active: false,
                        ..e
                    })
                    &&& final(self).escrow_count == old(self).escrow_count
                    &&& final(self).account_id == old(self).account_id
                }
            }),
    {
        let ghost h = order_hash@;
        let entry = match self.escrows.get(order_hash) {
            Some(e) => e,
            None => {
                return Err(EscrowError::NotFound);
            },
        };
        if !entry.is_active {
            return Err(EscrowError::AlreadySettled);
        }
        if !entry.timelocks.is_stage_time(Stage::SrcPublicCancellation, TimeBoundKind::After,
            now) {
            return Err(EscrowError::TooEarly);
        }
        let transfer = Transfer {
            token: entry.token_contract.clone(),
            sender: None,
            receiver: entry.maker.clone(),
            amount: entry.amount,
        };
        self.deactivate(order_hash);
        Ok(transfer)
    }

    /// The deposit stored under an order hash, if there is one.
    pub fn get_order(&self, order_hash: &Digest) -> (r: Option<&EscrowOrder>)
        requires
            self.wf(),
        ensures
            match r {
                Some(e) => self.escrows@.contains_key(order_hash@)
                    && *e == self.escrows@[order_hash@],
                None => !self.escrows@.contains_key(order_hash@),
            },
    {
        self.escrows.get(order_hash)
    }

    /// How many deposits have ever been made.
    pub fn get_escrow_count(&self) -> (r: u64)
        ensures
            r == self.escrow_count,
    {
        self.escrow_count
    }

    /// Marks a stored deposit settled, leaving every other field and
    /// every other entry as it was.
    fn deactivate(&mut self, order_hash: &Digest)
        requires
            old(self).wf(),
            old(self).escrows@.contains_key(order_hash@),
        ensures
            final(self).wf(),
            final(self).escrows@ == old(self).escrows@.insert(order_hash@, EscrowOrder {
                is_active: false,
                ..old(self).escrows@[order_hash@]
            }),
            final(self).escrow_count == old(self).escrow_count,
            final(self).account_id == old(self).account_id,
    {
        let ghost h = order_hash@;
        let mut entry = match self.escrows.take(order_hash) {
            Some(e) => e,
            None => {
                proof {
                    assert(false);
                }
                return;
            },
        };
        entry.is_active = false;
        self.escrows.insert(*order_hash, entry);
        proof {
            assert(self.escrows@ =~= old(self).escrows@.insert(h, EscrowOrder {
                is_active: false,
                ..old(self).escrows@[h]
            }));
        }
    }
}

} // verus!
