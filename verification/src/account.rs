//! The per-depositor record and its mathematical model.

use vstd::prelude::*;

verus! {

/// Identity of a depositor: a 256-bit account key, held as four 64-bit words.
///
/// The engine never interprets an identity; it only compares identities for
/// equality when it checks that the caller of an operation owns the record.
#[derive(Clone, Copy, PartialEq, Eq, Structural, Debug, Hash)]
pub struct Identity {
    pub w0: u64,
    pub w1: u64,
    pub w2: u64,
    pub w3: u64,
}

/// One depositor's accounting row.
///
/// `staked_amount` is the principal currently staked, `rewards` the yield
/// earned but not yet claimed, and `last_update_time` the watermark (seconds)
/// up to which yield has been computed.
#[derive(Clone, Copy, PartialEq, Eq, Structural, Debug)]
pub struct StakingAccount {
    pub owner: Identity,
    pub staked_amount: u64,
    pub rewards: u64,
    pub last_update_time: i64,
}

/// Mathematical view of a record: the same four fields over unbounded
/// integers, under the names the accrual rules are stated with.
pub struct RecordModel {
    pub owner: Identity,
    pub principal: int,
    pub accrued_yield: int,
    pub last_accrual_time: int,
}

impl View for StakingAccount {
    type V = RecordModel;

    open spec fn view(&self) -> RecordModel {
        RecordModel {
            owner: self.owner,
            principal: self.staked_amount as int,
            accrued_yield: self.rewards as int,
            last_accrual_time: self.last_update_time as int,
        }
    }
}

impl StakingAccount {
    /// The watermark is a wall-clock timestamp and never lies before the
    /// epoch; every operation relies on this to compute the elapsed time
    /// without overflow.
    pub open spec fn wf(&self) -> bool {
        self.last_update_time >= 0
    }
}

impl RecordModel {
    /// A model that a machine record can hold: every field in range and the
    /// watermark at or after the epoch.
    pub open spec fn wf(&self) -> bool {
        &&& 0 <= self.principal <= u64::MAX
        &&& 0 <= self.accrued_yield <= u64::MAX
        &&& 0 <= self.last_accrual_time <= i64::MAX
    }
}

} // verus!
