//! Transfer instructions handed to the external asset-transfer service.
//!
//! The protocol never moves value itself: a validated call returns one or
//! more of these records, and the host passes each to the transfer
//! collaborator, which either fully succeeds or fully fails.

use vstd::prelude::*;

verus! {

/// One instruction for the external transfer service: move `amount` of
/// `token` to `receiver`, out of `sender`'s balance when a sender is
/// named, out of the calling escrow's own balance otherwise.
#[derive(Debug, PartialEq, Eq)]
pub struct Transfer {
    pub token: String,
    pub sender: Option<String>,
    pub receiver: String,
    pub amount: u128,
}

impl Clone for Transfer {
    /// An exact copy: every field of the clone equals the original's.
    fn clone(&self) -> (res: Self)
        ensures
            res == *self,
    {
        Transfer {
            token: self.token.clone(),
            sender: match &self.sender {
                Some(s) => Some(s.clone()),
                None => None,
            },
            receiver: self.receiver.clone(),
            amount: self.amount,
        }
    }
}

} // verus!
