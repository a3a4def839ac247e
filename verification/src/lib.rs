//! Cross-chain atomic-swap escrow protocol logic.
//!
//! Two parties exchange assets across independent ledgers without a trusted
//! intermediary.  A hashlocked secret and a schedule of time-gated windows
//! decide who may withdraw or cancel funds on each leg of the swap.  This
//! crate holds the protocol logic itself: the escrow lifecycle state
//! machines, the hashlock and timelock rules, the partial-fill order
//! matching engine with Dutch-auction pricing and fee accounting, and the
//! cross-chain order correlation that lets a resolver release both legs of
//! a swap with one shared secret.
//!
//! Value transfer, contract deployment and host plumbing are collaborators
//! outside this crate: the functions here validate a call, update their own
//! state and return the transfer or deployment instructions that the host
//! must carry out.

use vstd::prelude::*;

pub mod arith;
pub mod encode;
pub mod errors;
pub mod escrow_leg;
pub mod factory;
pub mod fusion_escrow;
pub mod fusion_order;
pub mod hashing;
pub mod immutables;
pub mod order;
pub mod registry;
pub mod resolver;
pub mod timelocks;
pub mod transfer;

verus! {

/// The protocol's fee and rate-bump denominator: amounts in basis points
/// are fractions of this.
pub const BASIS_POINTS: u32 = 10_000;

} // verus!
