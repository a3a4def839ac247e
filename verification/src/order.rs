//! Resting orders, the exact partial-fill rule, and Dutch-auction pricing.

use crate::arith::products_equal;
use crate::encode::push_bytes;
use crate::encode::push_u128_le;
use crate::encode::push_u64_le;
use crate::encode::spec_u128_le;
use crate::hashing::keccak256;
use crate::hashing::keccak256_digest;
use crate::hashing::Digest;
use vstd::bytes::spec_u64_to_le_bytes;
use vstd::prelude::*;
use vstd::utf8::encode_utf8;

verus! {

/// A maker's resting order.  Its content hash is its identity key.
pub struct FusionOrder {
    pub order_hash: Digest,
    pub maker: String,
    pub resolver: Option<String>,
    pub maker_asset: String,
    pub taker_asset: String,
    pub making_amount: u128,
    pub taking_amount: u128,
    pub maker_traits: u64,
    pub salt: Digest,
}

/// One checkpoint of a Dutch-auction schedule: after `delay` seconds the
/// running bump is scaled by `coefficient` parts per million.
#[derive(Clone, Copy, Debug, PartialEq, Eq, Structural)]
pub struct AuctionPoint {
    pub delay: u32,
    pub coefficient: u32,
}

/// A Dutch-auction price-decay schedule, owned by an order's ledger entry.
pub struct AuctionDetails {
    pub start_time: u64,
    pub duration: u64,
    pub initial_rate_bump: u32,
    pub points: Vec<AuctionPoint>,
}

/// A fee paid to the order's designated resolver on a fill.
pub struct ResolverFee {
    pub receiver: String,
    pub amount: u128,
}

impl Clone for FusionOrder {
    /// An exact copy: every field of the clone equals the original's.
    fn clone(&self) -> (res: Self)
        ensures
            res == *self,
    {
        FusionOrder {
            order_hash: self.order_hash,
            maker: self.maker.clone(),
            resolver: match &self.resolver {
                Some(r) => Some(r.clone()),
                None => None,
            },
            maker_asset: self.maker_asset.clone(),
            taker_asset: self.taker_asset.clone(),
            making_amount: self.making_amount,
            taking_amount: self.taking_amount,
            maker_traits: self.maker_traits,
            salt: self.salt,
        }
    }
}

/// The byte-exact encoding hashed for an order's identity: order hash,
/// maker, the designated resolver when present, both assets, then the
/// numeric fields little-endian, then the salt, in declaration order.
pub open spec fn spec_order_bytes(o: FusionOrder) -> Seq<u8> {
    o.order_hash@ + encode_utf8(o.maker@) + (match o.resolver {
        Some(r) => encode_utf8(r@),
        None => Seq::<u8>::empty(),
    }) + encode_utf8(o.maker_asset@) + encode_utf8(o.taker_asset@)
        + spec_u128_le(o.making_amount) + spec_u128_le(o.taking_amount)
        + spec_u64_to_le_bytes(o.maker_traits) + o.salt@
}

/// Whether a fill of `m` making units against `t` taking units matches an
/// order priced at `making_amount : taking_amount` exactly.  Both amounts
/// must be positive and the cross-multiplication must balance; there is no
/// slippage tolerance.
pub open spec fn spec_valid_partial_fill(o: FusionOrder, m: u128, t: u128) -> bool {
    &&& m > 0
    &&& t > 0
    &&& (o.taking_amount as int) * (m as int) == (o.making_amount as int) * (t as int)
}

impl FusionOrder {
    /// The order's content hash over its byte-exact field encoding.
    pub fn hash(&self) -> (r: Digest)
        ensures
            r@ == keccak256(spec_order_bytes(*self)),
    {
        let mut buf: Vec<u8> = Vec::new();
        push_bytes(&mut buf, self.order_hash.as_slice());
        push_bytes(&mut buf, self.maker.as_str().as_bytes());
        match &self.resolver {
            Some(r) => push_bytes(&mut buf, r.as_str().as_bytes()),
            None => {},
        }
        push_bytes(&mut buf, self.maker_asset.as_str().as_bytes());
        push_bytes(&mut buf, self.taker_asset.as_str().as_bytes());
        push_u128_le(&mut buf, self.making_amount);
        push_u128_le(&mut buf, self.taking_amount);
        push_u64_le(&mut buf, self.maker_traits);
        push_bytes(&mut buf, self.salt.as_slice());
        proof {
            assert(buf@ =~= spec_order_bytes(*self));
        }
        keccak256_digest(buf.as_slice())
    }

    /// The exact partial-fill rule: positive amounts whose
    /// cross-multiplication against the order's original price balances.
    pub fn is_valid_partial_fill(
        &self,
        filled_making_amount: u128,
        filled_taking_amount: u128,
    ) -> (r: bool)
        ensures
            r == spec_valid_partial_fill(*self, filled_making_amount, filled_taking_amount),
    {
        if filled_making_amount == 0 || filled_taking_amount == 0 {
            return false;
        }
        products_equal(
            self.taking_amount,
            filled_making_amount,
            self.making_amount,
            filled_taking_amount,
        )
    }
}

/// One auction step: the running bump scaled by `coefficient` parts per
/// million, with a saturating product.
pub open spec fn spec_sat_step(bump: u32, coefficient: u32) -> u32 {
    if (bump as int) * (coefficient as int) <= u32::MAX {
        (((bump as int) * (coefficient as int)) / 1_000_000) as u32
    } else {
        (u32::MAX / 1_000_000) as u32
    }
}

/// The bump left after applying, in order, every checkpoint whose delay
/// has elapsed.
pub open spec fn spec_bump_after(points: Seq<AuctionPoint>, bump: u32, elapsed: u64) -> u32
    decreases points.len(),
{
    if points.len() == 0 {
        bump
    } else {
        let next = if (points.first().delay as u64) <= elapsed {
            spec_sat_step(bump, points.first().coefficient)
        } else {
            bump
        };
        spec_bump_after(points.drop_first(), next, elapsed)
    }
}

/// The rate bump an auction yields at a given time: the initial bump
/// before the start, zero from the end onward, and in between the initial
/// bump compounded through every crossed checkpoint.
pub open spec fn spec_rate_bump(a: AuctionDetails, now: u64) -> u32 {
    if now < a.start_time {
        a.initial_rate_bump
    } else if now - a.start_time >= a.duration {
        0
    } else {
        spec_bump_after(a.points@, a.initial_rate_bump, (now - a.start_time) as u64)
    }
}

/// A schedule whose checkpoints only ever shrink the bump: every
/// coefficient is at most one million parts per million.
pub open spec fn spec_auction_decaying(a: AuctionDetails) -> bool {
    forall|i: int| 0 <= i < a.points@.len() ==> (#[trigger] a.points@[i]).coefficient <= 1_000_000
}

impl AuctionDetails {
    /// The rate bump at `current_time`, per the schedule.
    pub fn get_rate_bump(&self, current_time: u64) -> (r: u32)
        ensures
            r == spec_rate_bump(*self, current_time),
    {
        if current_time < self.start_time {
            return self.initial_rate_bump;
        }
        let elapsed = current_time - self.start_time;
        if elapsed >= self.duration {
            return 0;
        }
        let mut current_bump = self.initial_rate_bump;
        let mut i: usize = 0;
        let n = self.points.len();
        proof {
            assert(self.points@.skip(0) =~= self.points@);
        }
        while i < n
            invariant
                i <= n,
                n == self.points@.len(),
                elapsed == current_time - self.start_time,
                spec_bump_after(self.points@.skip(i as int), current_bump, elapsed)
                    == spec_bump_after(self.points@, self.initial_rate_bump, elapsed),
            decreases n - i,
        {
            let point = self.points[i];
            proof {
                assert(self.points@.skip(i as int).first() == point);
                assert(self.points@.skip(i as int).drop_first()
                    =~= self.points@.skip(i as int + 1));
            }
            if elapsed >= point.delay as u64 {
                current_bump = match current_bump.checked_mul(point.coefficient) {
                    Some(product) => product / 1_000_000,
                    None => u32::MAX / 1_000_000,
                };
            }
            i += 1;
        }
        current_bump
    }
}

/// One decaying step never raises the bump.
proof fn lemma_sat_step_le(bump: u32, coefficient: u32)
    requires
        coefficient <= 1_000_000,
    ensures
        spec_sat_step(bump, coefficient) <= bump,
{
    if (bump as int) * (coefficient as int) <= u32::MAX {
        assert(((bump as int) * (coefficient as int)) / 1_000_000 <= bump) by (nonlinear_arith)
            requires
                0 <= (bump as int),
                0 <= (coefficient as int) <= 1_000_000;
    } else {
        assert(u32::MAX / 1_000_000 <= (bump as int)) by (nonlinear_arith)
            requires
                (bump as int) * (coefficient as int) > u32::MAX,
                0 <= (coefficient as int) <= 1_000_000,
                0 <= (bump as int);
    }
}

/// One step is monotone in the bump it starts from.
proof fn lemma_sat_step_mono(b1: u32, b2: u32, coefficient: u32)
    requires
        b1 <= b2,
    ensures
        spec_sat_step(b1, coefficient) <= spec_sat_step(b2, coefficient),
{
    let p1 = (b1 as int) * (coefficient as int);
    let p2 = (b2 as int) * (coefficient as int);
    assert(p1 <= p2) by (nonlinear_arith)
        requires
            p1 == (b1 as int) * (coefficient as int),
            p2 == (b2 as int) * (coefficient as int),
            0 <= (b1 as int) <= (b2 as int),
            0 <= (coefficient as int);
    if p2 <= u32::MAX {
        assert(p1 / 1_000_000 <= p2 / 1_000_000) by (nonlinear_arith)
            requires
                0 <= p1 <= p2;
    } else if p1 <= u32::MAX {
        assert(p1 / 1_000_000 <= u32::MAX / 1_000_000) by (nonlinear_arith)
            requires
                0 <= p1 <= u32::MAX;
    }
}

/// Applying the same decaying checkpoints from a smaller bump, for at
/// least as long an elapsed time, never ends higher.
proof fn lemma_bump_after_mono(points: Seq<AuctionPoint>, b1: u32, b2: u32, e1: u64, e2: u64)
    requires
        b1 <= b2,
        e1 <= e2,
        forall|i: int| 0 <= i < points.len() ==> (#[trigger] points[i]).coefficient <= 1_000_000,
    ensures
        spec_bump_after(points, b1, e2) <= spec_bump_after(points, b2, e1),
    decreases points.len(),
{
    if points.len() > 0 {
        let p = points.first();
        let n1 = if (p.delay as u64) <= e2 {
            spec_sat_step(b1, p.coefficient)
        } else {
            b1
        };
        let n2 = if (p.delay as u64) <= e1 {
            spec_sat_step(b2, p.coefficient)
        } else {
            b2
        };
        if (p.delay as u64) <= e1 {
            lemma_sat_step_mono(b1, b2, p.coefficient);
        } else if (p.delay as u64) <= e2 {
            lemma_sat_step_le(b1, p.coefficient);
        }
        assert(n1 <= n2);
        assert(forall|i: int| 0 <= i < points.drop_first().len()
            ==> (#[trigger] points.drop_first()[i]).coefficient <= 1_000_000);
        lemma_bump_after_mono(points.drop_first(), n1, n2, e1, e2);
    }
}

/// Decaying checkpoints never push the bump above where it started.
proof fn lemma_bump_after_le(points: Seq<AuctionPoint>, bump: u32, elapsed: u64)
    requires
        forall|i: int| 0 <= i < points.len() ==> (#[trigger] points[i]).coefficient <= 1_000_000,
    ensures
        spec_bump_after(points, bump, elapsed) <= bump,
    decreases points.len(),
{
    if points.len() > 0 {
        let p = points.first();
        let next = if (p.delay as u64) <= elapsed {
            spec_sat_step(bump, p.coefficient)
        } else {
            bump
        };
        if (p.delay as u64) <= elapsed {
            lemma_sat_step_le(bump, p.coefficient);
        }
        assert(forall|i: int| 0 <= i < points.drop_first().len()
            ==> (#[trigger] points.drop_first()[i]).coefficient <= 1_000_000);
        lemma_bump_after_le(points.drop_first(), next, elapsed);
    }
}

/// The rate bump of a decaying schedule stays within
/// `[0, initial_rate_bump]` at every time: `initial_rate_bump` before the
/// start, zero from the end onward, something in between while running.
pub proof fn lemma_rate_bump_bounded(a: AuctionDetails, now: u64)
    requires
        spec_auction_decaying(a),
    ensures
        spec_rate_bump(a, now) <= a.initial_rate_bump,
        now < a.start_time ==> spec_rate_bump(a, now) == a.initial_rate_bump,
        now - a.start_time >= a.duration ==> spec_rate_bump(a, now) == 0,
{
    if now >= a.start_time && now - a.start_time < a.duration {
        lemma_bump_after_le(a.points@, a.initial_rate_bump, (now - a.start_time) as u64);
    }
}

/// The rate bump of a decaying schedule never increases as time passes.
pub proof fn lemma_rate_bump_nonincreasing(a: AuctionDetails, t1: u64, t2: u64)
    requires
        spec_auction_decaying(a),
        t1 <= t2,
    ensures
        spec_rate_bump(a, t2) <= spec_rate_bump(a, t1),
{
    if t2 < a.start_time {
        // Both before the start: both equal the initial bump.
    } else if t1 < a.start_time {
        lemma_rate_bump_bounded(a, t2);
    } else if t2 - a.start_time >= a.duration {
        // The later reading is zero.
    } else {
        lemma_bump_after_mono(
            a.points@,
            a.initial_rate_bump,
            a.initial_rate_bump,
            (t1 - a.start_time) as u64,
            (t2 - a.start_time) as u64,
        );
    }
}

} // verus!
