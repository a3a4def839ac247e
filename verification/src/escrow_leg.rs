//! The per-leg escrow state machines.
//!
//! One instance guards one side of one swap.  Its only transition is
//! `Active` to `Settled`, taken by the first withdraw or cancel that
//! passes every check; a settled leg rejects every further call, so one
//! deposit can never pay out twice.

use crate::errors::EscrowError;
use crate::hashing::spec_secret_matches;
use crate::hashing::verify_secret;
use crate::immutables::Immutables;
use crate::timelocks::spec_is_stage;
use crate::timelocks::Stage;
use crate::timelocks::TimeBoundKind;
use crate::transfer::Transfer;
use vstd::prelude::*;
use vstd::string::StringSliceAdditionalSpecFns;

verus! {

/// The escrow leg on the source chain: it holds the maker's deposit and
/// releases it to the taker (or a target of the taker's choice) against
/// the secret, or back to the maker on cancellation.
pub struct EscrowSrc {
    pub factory: String,
    pub immutables: Immutables,
    pub settled: bool,
}

/// The escrow leg on the destination chain: it holds the taker's deposit
/// and releases it to the maker against the secret, or back to the taker
/// on cancellation.
pub struct EscrowDst {
    pub factory: String,
    pub immutables: Immutables,
    pub settled: bool,
}

impl EscrowSrc {
    /// A fresh, still-active source leg holding the given parameters.
    pub fn new(factory: String, immutables: Immutables) -> (r: Self)
        ensures
            r == (EscrowSrc { factory: factory, immutables: immutables, settled: false }),
    {
        EscrowSrc { factory, immutables, settled: false }
    }

    /// The taker withdraws the deposit to itself: allowed in
    /// `[withdrawal, cancellation)`, gated by the secret.
    pub fn withdraw(&mut self, caller: &String, now: u64, secret: &str)
        -> (r: Result<Transfer, EscrowError>)
        ensures
            ({
                let im = old(self).immutables;
                if old(self).settled {
                    r == Err::<Transfer, EscrowError>(EscrowError::AlreadySettled)
                        && *final(self) == *old(self)
                } else if caller@ != im.taker@ {
                    r == Err::<Transfer, EscrowError>(EscrowError::Unauthorized)
                        && *final(self) == *old(self)
                } else if !spec_is_stage(im.timelocks, Stage::SrcWithdrawal,
                        TimeBoundKind::After, now) {
                    r == Err::<Transfer, EscrowError>(EscrowError::TooEarly)
                        && *final(self) == *old(self)
                } else if !spec_is_stage(im.timelocks, Stage::SrcCancellation,
                        TimeBoundKind::Before, now) {
                    r == Err::<Transfer, EscrowError>(EscrowError::TooLate)
                        && *final(self) == *old(self)
                } else if !spec_secret_matches(secret.spec_bytes(), im.hashlock@) {
                    r == Err::<Transfer, EscrowError>(EscrowError::InvalidSecret)
                        && *final(self) == *old(self)
                } else {
                    r == Ok::<Transfer, EscrowError>(Transfer {
                        token: im.token,
                        sender: None,
                        receiver: im.taker,
                        amount: im.amount,
                    }) && *final(self) == (EscrowSrc { settled: true, ..*old(self) })
                }
            }),
    {
        if self.settled {
            return Err(EscrowError::AlreadySettled);
        }
        if !caller.eq(&self.immutables.taker) {
            return Err(EscrowError::Unauthorized);
        }
        if !self.immutables.timelocks.is_stage_time(Stage::SrcWithdrawal, TimeBoundKind::After,
            now) {
            return Err(EscrowError::TooEarly);
        }
        if !self.immutables.timelocks.is_stage_time(Stage::SrcCancellation, TimeBoundKind::Before,
            now) {
            return Err(EscrowError::TooLate);
        }
        if !verify_secret(secret, &self.immutables.hashlock) {
            return Err(EscrowError::InvalidSecret);
        }
        self.settled = true;
        Ok(Transfer {
            token: self.immutables.token.clone(),
            sender: None,
            receiver: self.immutables.taker.clone(),
            amount: self.immutables.amount,
        })
    }

    /// The taker withdraws the deposit to a target of its choice: the same
    /// window and secret gate as `withdraw`.
    pub fn withdraw_to(&mut self, caller: &String, now: u64, secret: &str, target: String)
        -> (r: Result<Transfer, EscrowError>)
        ensures
            ({
                let im = old(self).immutables;
                if old(self).settled {
                    r == Err::<Transfer, EscrowError>(EscrowError::AlreadySettled)
                        && *final(self) == *old(self)
                } else if caller@ != im.taker@ {
                    r == Err::<Transfer, EscrowError>(EscrowError::Unauthorized)
                        && *final(self) == *old(self)
                } else if !spec_is_stage(im.timelocks, Stage::SrcWithdrawal,
                        TimeBoundKind::After, now) {
                    r == Err::<Transfer, EscrowError>(EscrowError::TooEarly)
                        && *final(self) == *old(self)
                } else if !spec_is_stage(im.timelocks, Stage::SrcCancellation,
                        TimeBoundKind::Before, now) {
                    r == Err::<Transfer, EscrowError>(EscrowError::TooLate)
                        && *final(self) == *old(self)
                } else if !spec_secret_matches(secret.spec_bytes(), im.hashlock@) {
                    r == Err::<Transfer, EscrowError>(EscrowError::InvalidSecret)
                        && *final(self) == *old(self)
                } else {
                    r == Ok::<Transfer, EscrowError>(Transfer {
                        token: im.token,
                        sender: None,
                        receiver: target,
                        amount: im.amount,
                    }) && *final(self) == (EscrowSrc { settled: true, ..*old(self) })
                }
            }),
    {
        if self.settled {
            return Err(EscrowError::AlreadySettled);
        }
        if !caller.eq(&self.immutables.taker) {
            return Err(EscrowError::Unauthorized);
        }
        if !self.immutables.timelocks.is_stage_time(Stage::SrcWithdrawal, TimeBoundKind::After,
            now) {
            return Err(EscrowError::TooEarly);
        }
        if !self.immutables.timelocks.is_stage_time(Stage::SrcCancellation, TimeBoundKind::Before,
            now) {
            return Err(EscrowError::TooLate);
        }
        if !verify_secret(secret, &self.immutables.hashlock) {
            return Err(EscrowError::InvalidSecret);
        }
        self.settled = true;
        Ok(Transfer {
            token: self.immutables.token.clone(),
            sender: None,
            receiver: target,
            amount: self.immutables.amount,
        })
    }

    /// Anyone may trigger the withdrawal to the taker once the public
    /// window `[public_withdrawal, cancellation)` opens; still gated by
    /// the secret.
    pub fn public_withdraw(&mut self, now: u64, secret: &str)
        -> (r: Result<Transfer, EscrowError>)
        ensures
            ({
                let im = old(self).immutables;
                if old(self).settled {
                    r == Err::<Transfer, EscrowError>(EscrowError::AlreadySettled)
                        && *final(self) == *old(self)
                } else if !spec_is_stage(im.timelocks, Stage::SrcPublicWithdrawal,
                        TimeBoundKind::After, now) {
                    r == Err::<Transfer, EscrowError>(EscrowError::TooEarly)
                        && *final(self) == *old(self)
                } else if !spec_is_stage(im.timelocks, Stage::SrcCancellation,
                        TimeBoundKind::Before, now) {
                    r == Err::<Transfer, EscrowError>(EscrowError::TooLate)
                        && *final(self) == *old(self)
                } else if !spec_secret_matches(secret.spec_bytes(), im.hashlock@) {
                    r == Err::<Transfer, EscrowError>(EscrowError::InvalidSecret)
                        && *final(self) == *old(self)
                } else {
                    r == Ok::<Transfer, EscrowError>(Transfer {
                        token: im.token,
                        sender: None,
                        receiver: im.taker,
                        amount: im.amount,
                    }) && *final(self) == (EscrowSrc { settled: true, ..*old(self) })
                }
            }),
    {
        if self.settled {
            return Err(EscrowError::AlreadySettled);
        }
        if !self.immutables.timelocks.is_stage_time(Stage::SrcPublicWithdrawal,
            TimeBoundKind::After, now) {
            return Err(EscrowError::TooEarly);
        }
        if !self.immutables.timelocks.is_stage_time(Stage::SrcCancellation, TimeBoundKind::Before,
            now) {
            return Err(EscrowError::TooLate);
        }
        if !verify_secret(secret, &self.immutables.hashlock) {
            return Err(EscrowError::InvalidSecret);
        }
        self.settled = true;
        Ok(Transfer {
            token: self.immutables.token.clone(),
            sender: None,
            receiver: self.immutables.taker.clone(),
            amount: self.immutables.amount,
        })
    }

    /// The taker cancels from the cancellation stage onward: the deposit
    /// is refunded to the maker.  No secret is needed.
    pub fn cancel(&mut self, caller: &String, now: u64) -> (r: Result<Transfer, EscrowError>)
        ensures
            ({
                let im = old(self).immutables;
                if old(self).settled {
                    r == Err::<Transfer, EscrowError>(EscrowError::AlreadySettled)
                        && *final(self) == *old(self)
                } else if caller@ != im.taker@ {
                    r == Err::<Transfer, EscrowError>(EscrowError::Unauthorized)
                        && *final(self) == *old(self)
                } else if !spec_is_stage(im.timelocks, Stage::SrcCancellation,
                        TimeBoundKind::After, now) {
                    r == Err::<Transfer, EscrowError>(EscrowError::TooEarly)
                        && *final(self) == *old(self)
                } else {
                    r == Ok::<Transfer, EscrowError>(Transfer {
                        token: im.token,
                        sender: None,
                        receiver: im.maker,
                        amount: im.amount,
                    }) && *final(self) == (EscrowSrc { settled: true, ..*old(self) })
                }
            }),
    {
        if self.settled {
            return Err(EscrowError::AlreadySettled);
        }
        if !caller.eq(&self.immutables.taker) {
            return Err(EscrowError::Unauthorized);
        }
        if !self.immutables.timelocks.is_stage_time(Stage::SrcCancellation, TimeBoundKind::After,
            now) {
            return Err(EscrowError::TooEarly);
        }
        self.settled = true;
        Ok(Transfer {
            token: self.immutables.token.clone(),
            sender: None,
            receiver: self.immutables.maker.clone(),
            amount: self.immutables.amount,
        })
    }

    /// Anyone cancels from the public-cancellation stage onward: the
    /// deposit is refunded to the maker.
    pub fn public_cancel(&mut self, now: u64) -> (r: Result<Transfer, EscrowError>)
        ensures
            ({
                let im = old(self).immutables;
                if old(self).settled {
                    r == Err::<Transfer, EscrowError>(EscrowError::AlreadySettled)
                        && *final(self) == *old(self)
                } else if !spec_is_stage(im.timelocks, Stage::SrcPublicCancellation,
                        TimeBoundKind::After, now) {
                    r == Err::<Transfer, EscrowError>(EscrowError::TooEarly)
                        && *final(self) == *old(self)
                } else {
                    r == Ok::<Transfer, EscrowError>(Transfer {
                        token: im.token,
                        sender: None,
                        receiver: im.maker,
                        amount: im.amount,
                    }) && *final(self) == (EscrowSrc { settled: true, ..*old(self) })
                }
            }),
    {
        if self.settled {
            return Err(EscrowError::AlreadySettled);
        }
        if !self.immutables.timelocks.is_stage_time(Stage::SrcPublicCancellation,
            TimeBoundKind::After, now) {
            return Err(EscrowError::TooEarly);
        }
        self.settled = true;
        Ok(Transfer {
            token: self.immutables.token.clone(),
            sender: None,
            receiver: self.immutables.maker.clone(),
            amount: self.immutables.amount,
        })
    }
}

impl EscrowDst {
    /// A fresh, still-active destination leg holding the given parameters.
    pub fn new(factory: String, immutables: Immutables) -> (r: Self)
        ensures
            r == (EscrowDst { factory: factory, immutables: immutables, settled: false }),
    {
        EscrowDst { factory, immutables, settled: false }
    }

    /// The taker triggers the release to the maker: allowed in
    /// `[withdrawal, cancellation)` of the destination schedule, gated by
    /// the secret.
    pub fn withdraw(&mut self, caller: &String, now: u64, secret: &str)
        -> (r: Result<Transfer, EscrowError>)
        ensures
            ({
                let im = old(self).immutables;
                if old(self).settled {
                    r == Err::<Transfer, EscrowError>(EscrowError::AlreadySettled)
                        && *final(self) == *old(self)
                } else if caller@ != im.taker@ {
                    r == Err::<Transfer, EscrowError>(EscrowError::Unauthorized)
                        && *final(self) == *old(self)
                } else if !spec_is_stage(im.timelocks, Stage::DstWithdrawal,
                        TimeBoundKind::After, now) {
                    r == Err::<Transfer, EscrowError>(EscrowError::TooEarly)
                        && *final(self) == *old(self)
                } else if !spec_is_stage(im.timelocks, Stage::DstCancellation,
                        TimeBoundKind::Before, now) {
                    r == Err::<Transfer, EscrowError>(EscrowError::TooLate)
                        && *final(self) == *old(self)
                } else if !spec_secret_matches(secret.spec_bytes(), im.hashlock@) {
                    r == Err::<Transfer, EscrowError>(EscrowError::InvalidSecret)
                        && *final(self) == *old(self)
                } else {
                    r == Ok::<Transfer, EscrowError>(Transfer {
                        token: im.token,
                        sender: None,
                        receiver: im.maker,
                        amount: im.amount,
                    }) && *final(self) == (EscrowDst { settled: true, ..*old(self) })
                }
            }),
    {
        if self.settled {
            return Err(EscrowError::AlreadySettled);
        }
        if !caller.eq(&self.immutables.taker) {
            return Err(EscrowError::Unauthorized);
        }
        if !self.immutables.timelocks.is_stage_time(Stage::DstWithdrawal, TimeBoundKind::After,
            now) {
            return Err(EscrowError::TooEarly);
        }
        if !self.immutables.timelocks.is_stage_time(Stage::DstCancellation, TimeBoundKind::Before,
            now) {
            return Err(EscrowError::TooLate);
        }
        if !verify_secret(secret, &self.immutables.hashlock) {
            return Err(EscrowError::InvalidSecret);
        }
        self.settled = true;
        Ok(Transfer {
            token: self.immutables.token.clone(),
            sender: None,
            receiver: self.immutables.maker.clone(),
            amount: self.immutables.amount,
        })
    }

    /// Anyone may trigger the release to the maker once the public window
    /// `[public_withdrawal, cancellation)` opens; still gated by the
    /// secret.
    pub fn public_withdraw(&mut self, now: u64, secret: &str)
        -> (r: Result<Transfer, EscrowError>)
        ensures
            ({
                let im = old(self).immutables;
                if old(self).settled {
                    r == Err::<Transfer, EscrowError>(EscrowError::AlreadySettled)
                        && *final(self) == *old(self)
                } else if !spec_is_stage(im.timelocks, Stage::DstPublicWithdrawal,
                        TimeBoundKind::After, now) {
                    r == Err::<Transfer, EscrowError>(EscrowError::TooEarly)
                        && *final(self) == *old(self)
                } else if !spec_is_stage(im.timelocks, Stage::DstCancellation,
                        TimeBoundKind::Before, now) {
                    r == Err::<Transfer, EscrowError>(EscrowError::TooLate)
                        && *final(self) == *old(self)
                } else if !spec_secret_matches(secret.spec_bytes(), im.hashlock@) {
                    r == Err::<Transfer, EscrowError>(EscrowError::InvalidSecret)
                        && *final(self) == *old(self)
                } else {
                    r == Ok::<Transfer, EscrowError>(Transfer {
                        token: im.token,
                        sender: None,
                        receiver: im.maker,
                        amount: im.amount,
                    }) && *final(self) == (EscrowDst { settled: true, ..*old(self) })
                }
            }),
    {
        if self.settled {
            return Err(EscrowError::AlreadySettled);
        }
        if !self.immutables.timelocks.is_stage_time(Stage::DstPublicWithdrawal,
            TimeBoundKind::After, now) {
            return Err(EscrowError::TooEarly);
        }
        if !self.immutables.timelocks.is_stage_time(Stage::DstCancellation, TimeBoundKind::Before,
            now) {
            return Err(EscrowError::TooLate);
        }
        if !verify_secret(secret, &self.immutables.hashlock) {
            return Err(EscrowError::InvalidSecret);
        }
        self.settled = true;
        Ok(Transfer {
            token: self.immutables.token.clone(),
            sender: None,
            receiver: self.immutables.maker.clone(),
            amount: self.immutables.amount,
        })
    }

    /// The taker cancels from the cancellation stage onward: the deposit
    /// is refunded to the taker, who funded this leg.  No secret is
    /// needed.
    pub fn cancel(&mut self, caller: &String, now: u64) -> (r: Result<Transfer, EscrowError>)
        ensures
            ({
                let im = old(self).immutables;
                if old(self).settled {
                    r == Err::<Transfer, EscrowError>(EscrowError::AlreadySettled)
                        && *final(self) == *old(self)
                } else if caller@ != im.taker@ {
                    r == Err::<Transfer, EscrowError>(EscrowError::Unauthorized)
                        && *final(self) == *old(self)
                } else if !spec_is_stage(im.timelocks, Stage::DstCancellation,
                        TimeBoundKind::After, now) {
                    r == Err::<Transfer, EscrowError>(EscrowError::TooEarly)
                        && *final(self) == *old(self)
                } else {
                    r == Ok::<Transfer, EscrowError>(Transfer {
                        token: im.token,
                        sender: None,
                        receiver: im.taker,
                        amount: im.amount,
                    }) && *final(self) == (EscrowDst { settled: true, ..*old(self) })
                }
            }),
    {
        if self.settled {
            return Err(EscrowError::AlreadySettled);
        }
        if !caller.eq(&self.immutables.taker) {
            return Err(EscrowError::Unauthorized);
        }
        if !self.immutables.timelocks.is_stage_time(Stage::DstCancellation, TimeBoundKind::After,
            now) {
            return Err(EscrowError::TooEarly);
        }
        self.settled = true;
        Ok(Transfer {
            token: self.immutables.token.clone(),
            sender: None,
            receiver: self.immutables.taker.clone(),
            amount: self.immutables.amount,
        })
    }
}

} // verus!
