//! The timelock stage machine.
//!
//! An escrow leg is created at `deployed_at`; every later deadline is that
//! anchor plus a fixed offset.  The stage machine answers "is the current
//! time before / at-or-after stage X" and mutates nothing.

use vstd::prelude::*;

verus! {

/// A named deadline of the schedule, as an offset from `deployed_at`.
#[derive(Clone, Copy, Debug, PartialEq, Eq, Structural)]
pub enum Stage {
    SrcWithdrawal,
    SrcPublicWithdrawal,
    SrcCancellation,
    SrcPublicCancellation,
    DstWithdrawal,
    DstPublicWithdrawal,
    DstCancellation,
}

/// Which side of a stage deadline is asked about: `Before` is strict,
/// `After` includes the deadline itself.
#[derive(Clone, Copy, Debug, PartialEq, Eq, Structural)]
pub enum TimeBoundKind {
    Before,
    After,
}

/// Seven unsigned offsets from `deployed_at`, one per stage, plus the
/// anchor itself.  `deployed_at` is set exactly once, at leg creation.
#[derive(Clone, Copy, Debug, PartialEq, Eq, Structural)]
pub struct Timelocks {
    pub src_withdrawal: u64,
    pub src_public_withdrawal: u64,
    pub src_cancellation: u64,
    pub src_public_cancellation: u64,
    pub dst_withdrawal: u64,
    pub dst_public_withdrawal: u64,
    pub dst_cancellation: u64,
    pub deployed_at: u64,
}

/// The offset a stage adds to the anchor.
pub open spec fn spec_stage_offset(t: Timelocks, stage: Stage) -> u64 {
    match stage {
        Stage::SrcWithdrawal => t.src_withdrawal,
        Stage::SrcPublicWithdrawal => t.src_public_withdrawal,
        Stage::SrcCancellation => t.src_cancellation,
        Stage::SrcPublicCancellation => t.src_public_cancellation,
        Stage::DstWithdrawal => t.dst_withdrawal,
        Stage::DstPublicWithdrawal => t.dst_public_withdrawal,
        Stage::DstCancellation => t.dst_cancellation,
    }
}

/// The absolute deadline of a stage, as an unbounded integer.
pub open spec fn spec_stage_time(t: Timelocks, stage: Stage) -> int {
    t.deployed_at + spec_stage_offset(t, stage)
}

/// Whether `now` lies on the asked side of a stage deadline.
pub open spec fn spec_is_stage(t: Timelocks, stage: Stage, kind: TimeBoundKind, now: u64) -> bool {
    match kind {
        TimeBoundKind::Before => (now as int) < spec_stage_time(t, stage),
        TimeBoundKind::After => (now as int) >= spec_stage_time(t, stage),
    }
}

impl Timelocks {
    /// The absolute time of a stage: `deployed_at` plus the stage's offset.
    pub fn get_stage_time(&self, stage: Stage) -> (r: u64)
        requires
            spec_stage_time(*self, stage) <= u64::MAX,
        ensures
            r == spec_stage_time(*self, stage),
    {
        match stage {
            Stage::SrcWithdrawal => self.deployed_at + self.src_withdrawal,
            Stage::SrcPublicWithdrawal => self.deployed_at + self.src_public_withdrawal,
            Stage::SrcCancellation => self.deployed_at + self.src_cancellation,
            Stage::SrcPublicCancellation => self.deployed_at + self.src_public_cancellation,
            Stage::DstWithdrawal => self.deployed_at + self.dst_withdrawal,
            Stage::DstPublicWithdrawal => self.deployed_at + self.dst_public_withdrawal,
            Stage::DstCancellation => self.deployed_at + self.dst_cancellation,
        }
    }

    /// Compares `now` against a stage deadline: `Before` is strict
    /// (`now < t`), `After` is inclusive (`now >= t`).
    pub fn is_stage_time(&self, stage: Stage, time_bound_kind: TimeBoundKind, now: u64) -> (r: bool)
        ensures
            r == spec_is_stage(*self, stage, time_bound_kind, now),
    {
        let offset = match stage {
            Stage::SrcWithdrawal => self.src_withdrawal,
            Stage::SrcPublicWithdrawal => self.src_public_withdrawal,
            Stage::SrcCancellation => self.src_cancellation,
            Stage::SrcPublicCancellation => self.src_public_cancellation,
            Stage::DstWithdrawal => self.dst_withdrawal,
            Stage::DstPublicWithdrawal => self.dst_public_withdrawal,
            Stage::DstCancellation => self.dst_cancellation,
        };
        let time_bound_timestamp = self.deployed_at as u128 + offset as u128;
        match time_bound_kind {
            TimeBoundKind::Before => (now as u128) < time_bound_timestamp,
            TimeBoundKind::After => (now as u128) >= time_bound_timestamp,
        }
    }

    /// Anchors the schedule: every deadline becomes `timestamp + offset`.
    pub fn set_deployed_at(&mut self, timestamp: u64)
        ensures
            *final(self) == (Timelocks { deployed_at: timestamp, ..*old(self) }),
    {
        self.deployed_at = timestamp;
    }
}

/// At every time, being strictly before a stage and being at-or-after it
/// are complementary: `After` takes the deadline itself, `Before` all
/// earlier instants.
pub proof fn lemma_stage_bounds_complementary(t: Timelocks, stage: Stage, now: u64)
    ensures
        spec_is_stage(t, stage, TimeBoundKind::Before, now)
            <==> !spec_is_stage(t, stage, TimeBoundKind::After, now),
        (now as int) == spec_stage_time(t, stage)
            ==> spec_is_stage(t, stage, TimeBoundKind::After, now),
{
}

} // verus!
