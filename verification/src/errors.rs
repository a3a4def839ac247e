//! Rejection reasons shared by every component of the protocol.
//!
//! Every error is a terminal, user-visible failure of the current call;
//! nothing is retried internally, and no state mutation is observable after
//! a rejection.

use vstd::prelude::*;

verus! {

/// Why a call was rejected.
#[derive(Clone, Copy, Debug, PartialEq, Eq, Structural)]
pub enum EscrowError {
    /// The caller is not the required maker/taker/resolver/admin identity.
    Unauthorized,
    /// The call came before a lower-bound stage of the timelock schedule.
    TooEarly,
    /// The call came at or after an upper-bound stage of the schedule.
    TooLate,
    /// Hashlock verification of the presented secret failed.
    InvalidSecret,
    /// Creation was attempted against an existing content-hash key.
    AlreadyExists,
    /// A lookup by content hash or order hash found nothing.
    NotFound,
    /// The escrow leg has already released its funds.
    AlreadySettled,
    /// The order has already been cancelled.
    AlreadyCancelled,
    /// The cross-chain order has already been completed.
    AlreadyCompleted,
    /// Zero fill amounts, or a ratio mismatch against the order's price.
    InvalidFillAmounts,
    /// The requested fill amount exceeds the unfilled balance.
    ExceedsRemaining,
    /// The fee receiver is not on the resolver whitelist.
    ResolverNotWhitelisted,
    /// The fee receiver does not match the order's designated resolver.
    InvalidResolver,
    /// Fee basis points outside the allowed range.
    InvalidConfiguration,
}

} // verus!
