//! The fixed parameter set binding one escrow leg to one swap.

use crate::encode::push_bytes;
use crate::encode::push_u128_le;
use crate::encode::push_u64_le;
use crate::encode::spec_u128_le;
use crate::hashing::keccak256;
use crate::hashing::keccak256_digest;
use crate::hashing::Digest;
use crate::timelocks::Timelocks;
use vstd::bytes::spec_u64_to_le_bytes;
use vstd::prelude::*;
use vstd::utf8::encode_utf8;

verus! {

/// Everything that fixes one escrow leg: order hash, hashlock, the three
/// account identities, the amounts, and the timelock schedule.  Its
/// content hash is the escrow's identity key; changing any field
/// invalidates matching on the other leg.
pub struct Immutables {
    pub order_hash: Digest,
    pub hashlock: Digest,
    pub maker: String,
    pub taker: String,
    pub token: String,
    pub amount: u128,
    pub safety_deposit: u128,
    pub timelocks: Timelocks,
}

impl Clone for Immutables {
    /// An exact copy: every field of the clone equals the original's.
    fn clone(&self) -> (res: Self)
        ensures
            res == *self,
    {
        Immutables {
            order_hash: self.order_hash,
            hashlock: self.hashlock,
            maker: self.maker.clone(),
            taker: self.taker.clone(),
            token: self.token.clone(),
            amount: self.amount,
            safety_deposit: self.safety_deposit,
            timelocks: self.timelocks,
        }
    }
}

/// The byte-exact encoding hashed for an escrow's identity: the two
/// digests, the three account identities as raw bytes, then every numeric
/// field as fixed-width little-endian bytes, in declaration order.
pub open spec fn spec_immutables_bytes(im: Immutables) -> Seq<u8> {
    im.order_hash@ + im.hashlock@ + encode_utf8(im.maker@) + encode_utf8(im.taker@)
        + encode_utf8(im.token@) + spec_u128_le(im.amount) + spec_u128_le(im.safety_deposit)
        + spec_u64_to_le_bytes(im.timelocks.src_withdrawal)
        + spec_u64_to_le_bytes(im.timelocks.src_public_withdrawal)
        + spec_u64_to_le_bytes(im.timelocks.src_cancellation)
        + spec_u64_to_le_bytes(im.timelocks.src_public_cancellation)
        + spec_u64_to_le_bytes(im.timelocks.dst_withdrawal)
        + spec_u64_to_le_bytes(im.timelocks.dst_public_withdrawal)
        + spec_u64_to_le_bytes(im.timelocks.dst_cancellation)
        + spec_u64_to_le_bytes(im.timelocks.deployed_at)
}

impl Immutables {
    /// The escrow's content hash over its byte-exact field encoding.
    pub fn hash(&self) -> (r: Digest)
        ensures
            r@ == keccak256(spec_immutables_bytes(*self)),
    {
        let mut buf: Vec<u8> = Vec::new();
        push_bytes(&mut buf, self.order_hash.as_slice());
        push_bytes(&mut buf, self.hashlock.as_slice());
        push_bytes(&mut buf, self.maker.as_str().as_bytes());
        push_bytes(&mut buf, self.taker.as_str().as_bytes());
        push_bytes(&mut buf, self.token.as_str().as_bytes());
        push_u128_le(&mut buf, self.amount);
        push_u128_le(&mut buf, self.safety_deposit);
        push_u64_le(&mut buf, self.timelocks.src_withdrawal);
        push_u64_le(&mut buf, self.timelocks.src_public_withdrawal);
        push_u64_le(&mut buf, self.timelocks.src_cancellation);
        push_u64_le(&mut buf, self.timelocks.src_public_cancellation);
        push_u64_le(&mut buf, self.timelocks.dst_withdrawal);
        push_u64_le(&mut buf, self.timelocks.dst_public_withdrawal);
        push_u64_le(&mut buf, self.timelocks.dst_cancellation);
        push_u64_le(&mut buf, self.timelocks.deployed_at);
        proof {
            assert(buf@ =~= spec_immutables_bytes(*self));
        }
        keccak256_digest(buf.as_slice())
    }
}

} // verus!
