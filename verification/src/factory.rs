//! The escrow deployment service: derives a deterministic account for
//! each escrow instance and records every deployment under its salt.
//!
//! Instantiating the escrow account on-chain, funding it, and shipping
//! the contract code are the host's work; this component validates the
//! request, derives the address, records it, and hands back the funding
//! instruction.

use crate::errors::EscrowError;
use crate::hashing::hex_encode;
use crate::hashing::keccak256;
use crate::hashing::lemma_spec_hex_ascii;
use crate::hashing::lemma_spec_hex_len;
use crate::hashing::spec_hex;
use crate::hashing::Digest;
use crate::immutables::spec_immutables_bytes;
use crate::immutables::Immutables;
use crate::registry::DigestMap;
use crate::timelocks::spec_stage_time;
use crate::timelocks::Stage;
use crate::transfer::Transfer;
use vstd::prelude::*;
use vstd::string::StrSliceExecFns;
use vstd::string::StringExecFns;

verus! {

/// Tags naming the factory's persistent storage slots.
#[derive(Clone, Copy, Debug, PartialEq, Eq, Structural)]
pub enum DataKey {
    Factory,
    EscrowSrcHash,
    EscrowDstHash,
}

/// The factory: the code images for the two leg contracts and the record
/// of every escrow account deployed, keyed by the immutables' salt.
pub struct EscrowFactory {
    /// The factory's own account: derived escrow accounts live under it.
    pub account_id: String,
    pub escrow_src_code: Vec<u8>,
    pub escrow_dst_code: Vec<u8>,
    pub deployments: DigestMap<String>,
}

/// The deterministic escrow account for a salt: the role prefix, a dash,
/// the first eight hex digits of the salt, a dot, then the factory's own
/// account.
pub open spec fn spec_escrow_account_id(prefix: Seq<char>, salt: Seq<u8>, factory: Seq<char>)
    -> Seq<char> {
    prefix + seq!['-'] + spec_hex(salt).take(8) + seq!['.'] + factory
}

impl EscrowFactory {
    /// Whether the factory's state is sound.
    pub open spec fn wf(&self) -> bool {
        self.deployments.wf()
    }

    /// A fresh factory with no deployments.
    pub fn new(account_id: String, escrow_src_code: Vec<u8>, escrow_dst_code: Vec<u8>)
        -> (r: Self)
        ensures
            r.wf(),
            r.deployments@ == Map::<Seq<u8>, String>::empty(),
            r.account_id == account_id,
            r.escrow_src_code == escrow_src_code,
            r.escrow_dst_code == escrow_dst_code,
    {
        EscrowFactory {
            account_id,
            escrow_src_code,
            escrow_dst_code,
            deployments: DigestMap::new(),
        }
    }

    /// The deterministic account an escrow with this salt and role will
    /// live at: pure in the salt, the role prefix, and the factory's own
    /// account.
    pub fn _get_escrow_account_id(&self, salt: &Digest, prefix: &str) -> (r: String)
        ensures
            r@ == spec_escrow_account_id(prefix@, salt@, self.account_id@),
    {
        let hex_salt = hex_encode(salt.as_slice());
        proof {
            lemma_spec_hex_len(salt@);
            lemma_spec_hex_ascii(salt@);
            reveal_strlit("-");
            reveal_strlit(".");
        }
        let short = hex_salt.as_str().substring_ascii(0, 8);
        let mut id = <String as StringExecFns>::from_str(prefix);
        id.append("-");
        id.append(short);
        id.append(".");
        id.append(self.account_id.as_str());
        proof {
            assert(id@ =~= spec_escrow_account_id(prefix@, salt@, self.account_id@));
        }
        id
    }

    /// Deploys the source-side escrow for a set of immutables: derives
    /// its account, records it under the immutables' content hash, and
    /// instructs the transfer service to pull the maker's deposit into
    /// the new account.  One deployment per salt.
    pub fn create_src_escrow(&mut self, immutables: &Immutables)
        -> (r: Result<(String, Transfer), EscrowError>)
        requires
            old(self).wf(),
        ensures
            final(self).wf(),
            ({
                let salt = keccak256(spec_immutables_bytes(*immutables));
                if old(self).deployments@.contains_key(salt) {
                    r == Err::<(String, Transfer), EscrowError>(EscrowError::AlreadyExists)
                        && *final(self) == *old(self)
                } else {
                    &&& r matches Ok(out)
                    &&& out.0@ == spec_escrow_account_id("src"@, salt, old(self).account_id@)
                    &&& out.1 == (Transfer {
                        token: immutables.token,
                        sender: Some(immutables.maker),
                        receiver: out.0,
                        amount: immutables.amount,
                    })
                    &&& final(self).deployments@ == old(self).deployments@.insert(salt, out.0)
                    &&& final(self).account_id == old(self).account_id
                    &&& final(self).escrow_src_code == old(self).escrow_src_code
                    &&& final(self).escrow_dst_code == old(self).escrow_dst_code
                }
            }),
    {
        let salt = immutables.hash();
        let escrow_account_id = self._get_escrow_account_id(&salt, "src");
        if self.deployments.contains_key(&salt) {
            return Err(EscrowError::AlreadyExists);
        }
        let transfer = Transfer {
            token: immutables.token.clone(),
            sender: Some(immutables.maker.clone()),
            receiver: escrow_account_id.clone(),
            amount: immutables.amount,
        };
        self.deployments.insert(salt, escrow_account_id.clone());
        Ok((escrow_account_id, transfer))
    }

    /// Deploys the destination-side escrow.  Only the taker may deploy,
    /// and only when the destination leg's cancellation deadline does not
    /// outlive the source leg's; the taker's deposit is then moved into
    /// the new account.  One deployment per salt.
    pub fn create_dst_escrow(&mut self, caller: &String, immutables: &Immutables,
        src_cancellation_timestamp: u64) -> (r: Result<(String, Transfer), EscrowError>)
        requires
            old(self).wf(),
        ensures
            final(self).wf(),
            ({
                let salt = keccak256(spec_immutables_bytes(*immutables));
                if caller@ != immutables.taker@ {
                    r == Err::<(String, Transfer), EscrowError>(EscrowError::Unauthorized)
                        && *final(self) == *old(self)
                } else if spec_stage_time(immutables.timelocks, Stage::DstCancellation)
                        > src_cancellation_timestamp {
                    r == Err::<(String, Transfer), EscrowError>(EscrowError::InvalidConfiguration)
                        && *final(self) == *old(self)
                } else if old(self).deployments@.contains_key(salt) {
                    r == Err::<(String, Transfer), EscrowError>(EscrowError::AlreadyExists)
                        && *final(self) == *old(self)
                } else {
                    &&& r matches Ok(out)
                    &&& out.0@ == spec_escrow_account_id("dst"@, salt, old(self).account_id@)
                    &&& out.1 == (Transfer {
                        token: immutables.token,
                        sender: None,
                        receiver: out.0,
                        amount: immutables.amount,
                    })
                    &&& final(self).deployments@ == old(self).deployments@.insert(salt, out.0)
                    &&& final(self).account_id == old(self).account_id
                    &&& final(self).escrow_src_code == old(self).escrow_src_code
                    &&& final(self).escrow_dst_code == old(self).escrow_dst_code
                }
            }),
    {
        if !caller.eq(&immutables.taker) {
            return Err(EscrowError::Unauthorized);
        }
        let dst_cancellation = immutables.timelocks.deployed_at as u128
            + immutables.timelocks.dst_cancellation as u128;
        if dst_cancellation > src_cancellation_timestamp as u128 {
            return Err(EscrowError::InvalidConfiguration);
        }
        let salt = immutables.hash();
        let escrow_account_id = self._get_escrow_account_id(&salt, "dst");
        if self.deployments.contains_key(&salt) {
            return Err(EscrowError::AlreadyExists);
        }
        let transfer = Transfer {
            token: immutables.token.clone(),
            sender: None,
            receiver: escrow_account_id.clone(),
            amount: immutables.amount,
        };
        self.deployments.insert(salt, escrow_account_id.clone());
        Ok((escrow_account_id, transfer))
    }

    /// The escrow account recorded under a salt, if any deployment used
    /// that salt.
    pub fn get_deployment(&self, salt: &Digest) -> (r: Option<&String>)
        requires
            self.wf(),
        ensures
            match r {
                Some(a) => self.deployments@.contains_key(salt@)
                    && *a == self.deployments@[salt@],
                None => !self.deployments@.contains_key(salt@),
            },
    {
        self.deployments.get(salt)
    }
}

} // verus!
