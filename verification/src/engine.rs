//! The accrual ledger engine: the yield formula and the four transitions.

use vstd::prelude::*;

use crate::account::{Identity, RecordModel, StakingAccount};

verus! {

/// Per-second yield rate, scaled by `RATE_DENOM`: a fixed nominal annual rate
/// of 18.5%, `0.185 / 365 / 86400 * 10^9`, truncated to an integer. The
/// truncation is a deliberate, permanent precision loss of the design.
pub const RATE_PER_SECOND: u64 = 5866;

/// Scale of `RATE_PER_SECOND`.
pub const RATE_DENOM: u64 = 1_000_000_000;

/// Yield earned by `principal` over `elapsed` seconds:
/// `floor(principal * RATE_PER_SECOND * elapsed / RATE_DENOM)`.
pub open spec fn reward_amount(principal: int, elapsed: int) -> int {
    (principal * RATE_PER_SECOND as int * elapsed) / RATE_DENOM as int
}

/// The record after bringing its yield up to date at time `now`: the yield
/// for the elapsed window is added and the watermark advances to `now`.
/// Principal and owner are untouched.
pub open spec fn accrued(m: RecordModel, now: int) -> RecordModel {
    RecordModel {
        accrued_yield: m.accrued_yield + reward_amount(m.principal, now - m.last_accrual_time),
        last_accrual_time: now,
        ..m
    }
}

/// Whether the 64-bit accrual chain at time `now` stays in range: the scaled
/// product and the updated yield both fit in a machine word. Nothing can
/// overflow when no time has passed or nothing is staked.
pub open spec fn accrual_fits(m: RecordModel, now: int) -> bool {
    let elapsed = now - m.last_accrual_time;
    ||| elapsed <= 0
    ||| m.principal == 0
    ||| (m.principal * RATE_PER_SECOND as int * elapsed <= u64::MAX
        && m.accrued_yield + reward_amount(m.principal, elapsed) <= u64::MAX)
}

/// The record after a deposit of `amount` at time `now`: yield is accrued on
/// the pre-deposit principal first, so the new funds earn nothing for the
/// elapsed window, then the principal grows by `amount`.
pub open spec fn deposited(m: RecordModel, now: int, amount: int) -> RecordModel {
    let a = accrued(m, now);
    RecordModel { principal: a.principal + amount, ..a }
}

/// The record after a full withdrawal at time `now`: yield is accrued, the
/// whole principal leaves, and the yield stays owed.
pub open spec fn withdrawn(m: RecordModel, now: int) -> RecordModel {
    let a = accrued(m, now);
    RecordModel { principal: 0, ..a }
}

/// The record after a reward claim at time `now`: yield is accrued and then
/// paid out in full; the principal stays staked.
pub open spec fn claimed(m: RecordModel, now: int) -> RecordModel {
    let a = accrued(m, now);
    RecordModel { accrued_yield: 0, ..a }
}

/// Typed failures of the engine. Every failing operation leaves the record
/// exactly as it was.
#[derive(Clone, Copy, PartialEq, Eq, Structural, Debug)]
pub enum ErrorCode {
    /// The caller is not the record's owner.
    InvalidOwner,
    /// Withdraw was asked of a record with zero principal.
    NoStakedTokens,
    /// ClaimRewards was asked when, even after accrual, no yield is owed.
    NoRewards,
    /// A checked addition or multiplication left the 64-bit range.
    ArithmeticOverflow,
    /// The supplied time lies before the record's watermark.
    ClockRegression,
}

/// Which way a transfer moves funds between the owner's account and the
/// pooled vault.
#[derive(Clone, Copy, PartialEq, Eq, Structural, Debug)]
pub enum TransferDirection {
    OwnerToVault,
    VaultToOwner,
}

/// The one transfer a successful operation instructs its caller to perform.
/// The engine never holds balances itself.
#[derive(Clone, Copy, PartialEq, Eq, Structural, Debug)]
pub struct TokenTransfer {
    pub direction: TransferDirection,
    pub amount: u64,
}

/// Brings `acc`'s yield up to date at time `now` and advances the watermark,
/// adding `floor(principal * RATE_PER_SECOND * elapsed / RATE_DENOM)` to the
/// rewards. The watermark advances even when nothing is staked or no time has
/// passed. A clock that moved backwards or an overflow anywhere in the chain
/// fails the call and leaves the record untouched.
pub fn update_rewards(acc: &mut StakingAccount, now: i64) -> (r: Result<(), ErrorCode>)
    requires
        old(acc).wf(),
    ensures
        final(acc).wf(),
        now < old(acc).last_update_time ==> r == Err::<(), ErrorCode>(ErrorCode::ClockRegression)
            && *final(acc) == *old(acc),
        now >= old(acc).last_update_time && !accrual_fits(old(acc)@, now as int) ==> r
            == Err::<(), ErrorCode>(ErrorCode::ArithmeticOverflow) && *final(acc) == *old(acc),
        now >= old(acc).last_update_time && accrual_fits(old(acc)@, now as int) ==> r
            == Ok::<(), ErrorCode>(()) && final(acc)@ == accrued(old(acc)@, now as int),
{
    if now < acc.last_update_time {
        return Err(ErrorCode::ClockRegression);
    }
    let elapsed: u64 = (now - acc.last_update_time) as u64;
    if elapsed > 0 && acc.staked_amount > 0 {
        let scaled = match acc.staked_amount.checked_mul(RATE_PER_SECOND) {
            Some(v) => v,
            None => {
                proof {
                    lemma_scaled_overflow_implies_unfit(old(acc)@, now as int);
                }
                return Err(ErrorCode::ArithmeticOverflow);
            },
        };
        let product = match scaled.checked_mul(elapsed) {
            Some(v) => v,
            None => {
                return Err(ErrorCode::ArithmeticOverflow);
            },
        };
        let reward = product / RATE_DENOM;
        let updated = match acc.rewards.checked_add(reward) {
            Some(v) => v,
            None => {
                return Err(ErrorCode::ArithmeticOverflow);
            },
        };
        acc.rewards = updated;
    } else {
        proof {
            let m = old(acc)@;
            let e = now as int - m.last_accrual_time;
            assert(m.principal * RATE_PER_SECOND as int * e == 0) by (nonlinear_arith)
                requires
                    e == 0 || m.principal == 0,
            ;
            vstd::arithmetic::div_mod::lemma_div_of0(RATE_DENOM as int);
        }
    }
    acc.last_update_time = now;
    Ok(())
}

/// Opens a fresh record for `user` at time `now`: nothing staked, nothing
/// owed, watermark at `now`. No transfer is involved.
pub fn initialize(user: Identity, now: i64) -> (r: StakingAccount)
    requires
        now >= 0,
    ensures
        r.wf(),
        r.owner == user,
        r.staked_amount == 0,
        r.rewards == 0,
        r.last_update_time == now,
{
    StakingAccount { owner: user, staked_amount: 0, rewards: 0, last_update_time: now }
}

/// Stakes `amount` further tokens at time `now`: accrues yield on the old
/// principal, then grows the principal. On success the caller must move
/// `amount` from the owner's account into the vault; on any failure the
/// record is untouched and no transfer is owed.
pub fn stake(acc: &mut StakingAccount, caller: Identity, now: i64, amount: u64) -> (r: Result<
    TokenTransfer,
    ErrorCode,
>)
    requires
        old(acc).wf(),
        amount > 0,
    ensures
        final(acc).wf(),
        caller != old(acc).owner ==> r == Err::<TokenTransfer, ErrorCode>(ErrorCode::InvalidOwner)
            && *final(acc) == *old(acc),
        caller == old(acc).owner && now < old(acc).last_update_time ==> r == Err::<
            TokenTransfer,
            ErrorCode,
        >(ErrorCode::ClockRegression) && *final(acc) == *old(acc),
        caller == old(acc).owner && now >= old(acc).last_update_time && !(accrual_fits(
            old(acc)@,
            now as int,
        ) && old(acc)@.principal + amount <= u64::MAX) ==> r == Err::<TokenTransfer, ErrorCode>(
            ErrorCode::ArithmeticOverflow,
        ) && *final(acc) == *old(acc),
        caller == old(acc).owner && now >= old(acc).last_update_time && accrual_fits(
            old(acc)@,
            now as int,
        ) && old(acc)@.principal + amount <= u64::MAX ==> r == Ok::<TokenTransfer, ErrorCode>(
            (TokenTransfer { direction: TransferDirection::OwnerToVault, amount }),
        ) && final(acc)@ == deposited(old(acc)@, now as int, amount as int),
{
    if caller != acc.owner {
        return Err(ErrorCode::InvalidOwner);
    }
    let mut updated = *acc;
    match update_rewards(&mut updated, now) {
        Ok(()) => (),
        Err(e) => {
            return Err(e);
        },
    }
    let grown = match updated.staked_amount.checked_add(amount) {
        Some(v) => v,
        None => {
            return Err(ErrorCode::ArithmeticOverflow);
        },
    };
    updated.staked_amount = grown;
    *acc = updated;
    Ok(TokenTransfer { direction: TransferDirection::OwnerToVault, amount })
}

/// Withdraws the whole principal at time `now`: accrues yield, zeroes the
/// principal, and leaves the yield owed. On success the caller must move the
/// returned amount from the vault back to the owner; a record with nothing
/// staked fails instead, untouched.
pub fn unstake(acc: &mut StakingAccount, caller: Identity, now: i64) -> (r: Result<
    TokenTransfer,
    ErrorCode,
>)
    requires
        old(acc).wf(),
    ensures
        final(acc).wf(),
        caller != old(acc).owner ==> r == Err::<TokenTransfer, ErrorCode>(ErrorCode::InvalidOwner)
            && *final(acc) == *old(acc),
        caller == old(acc).owner && now < old(acc).last_update_time ==> r == Err::<
            TokenTransfer,
            ErrorCode,
        >(ErrorCode::ClockRegression) && *final(acc) == *old(acc),
        caller == old(acc).owner && now >= old(acc).last_update_time && !accrual_fits(
            old(acc)@,
            now as int,
        ) ==> r == Err::<TokenTransfer, ErrorCode>(ErrorCode::ArithmeticOverflow) && *final(acc)
            == *old(acc),
        caller == old(acc).owner && now >= old(acc).last_update_time && accrual_fits(
            old(acc)@,
            now as int,
        ) && old(acc).staked_amount == 0 ==> r == Err::<TokenTransfer, ErrorCode>(
            ErrorCode::NoStakedTokens,
        ) && *final(acc) == *old(acc),
        caller == old(acc).owner && now >= old(acc).last_update_time && accrual_fits(
            old(acc)@,
            now as int,
        ) && old(acc).staked_amount > 0 ==> r == Ok::<TokenTransfer, ErrorCode>(
            (TokenTransfer {
                direction: TransferDirection::VaultToOwner,
                amount: old(acc).staked_amount,
            }),
        ) && final(acc)@ == withdrawn(old(acc)@, now as int),
{
    if caller != acc.owner {
        return Err(ErrorCode::InvalidOwner);
    }
    let mut updated = *acc;
    match update_rewards(&mut updated, now) {
        Ok(()) => (),
        Err(e) => {
            return Err(e);
        },
    }
    let amount = updated.staked_amount;
    if amount == 0 {
        return Err(ErrorCode::NoStakedTokens);
    }
    updated.staked_amount = 0;
    *acc = updated;
    Ok(TokenTransfer { direction: TransferDirection::VaultToOwner, amount })
}

/// Pays out the yield owed at time `now`: accrues first, then zeroes the
/// yield. On success the caller must move the returned amount from the vault
/// to the owner; when even after accrual nothing is owed, the call fails and
/// the record is untouched.
pub fn claim_rewards(acc: &mut StakingAccount, caller: Identity, now: i64) -> (r: Result<
    TokenTransfer,
    ErrorCode,
>)
    requires
        old(acc).wf(),
    ensures
        final(acc).wf(),
        caller != old(acc).owner ==> r == Err::<TokenTransfer, ErrorCode>(ErrorCode::InvalidOwner)
            && *final(acc) == *old(acc),
        caller == old(acc).owner && now < old(acc).last_update_time ==> r == Err::<
            TokenTransfer,
            ErrorCode,
        >(ErrorCode::ClockRegression) && *final(acc) == *old(acc),
        caller == old(acc).owner && now >= old(acc).last_update_time && !accrual_fits(
            old(acc)@,
            now as int,
        ) ==> r == Err::<TokenTransfer, ErrorCode>(ErrorCode::ArithmeticOverflow) && *final(acc)
            == *old(acc),
        caller == old(acc).owner && now >= old(acc).last_update_time && accrual_fits(
            old(acc)@,
            now as int,
        ) && accrued(old(acc)@, now as int).accrued_yield == 0 ==> r == Err::<
            TokenTransfer,
            ErrorCode,
        >(ErrorCode::NoRewards) && *final(acc) == *old(acc),
        caller == old(acc).owner && now >= old(acc).last_update_time && accrual_fits(
            old(acc)@,
            now as int,
        ) && accrued(old(acc)@, now as int).accrued_yield > 0 ==> r == Ok::<
            TokenTransfer,
            ErrorCode,
        >(
            (TokenTransfer {
                direction: TransferDirection::VaultToOwner,
                amount: accrued(old(acc)@, now as int).accrued_yield as u64,
            }),
        ) && final(acc)@ == claimed(old(acc)@, now as int),
{
    if caller != acc.owner {
        return Err(ErrorCode::InvalidOwner);
    }
    let mut updated = *acc;
    match update_rewards(&mut updated, now) {
        Ok(()) => (),
        Err(e) => {
            return Err(e);
        },
    }
    let amount = updated.rewards;
    if amount == 0 {
        return Err(ErrorCode::NoRewards);
    }
    updated.rewards = 0;
    *acc = updated;
    Ok(TokenTransfer { direction: TransferDirection::VaultToOwner, amount })
}

/// When the first step of the accrual chain already leaves the 64-bit range,
/// so does the whole scaled product, and the accrual cannot fit.
proof fn lemma_scaled_overflow_implies_unfit(m: RecordModel, now: int)
    requires
        now - m.last_accrual_time >= 1,
        m.principal >= 1,
        m.principal * RATE_PER_SECOND as int > u64::MAX,
    ensures
        !accrual_fits(m, now),
{
    let e = now - m.last_accrual_time;
    assert(m.principal * RATE_PER_SECOND as int * e >= m.principal * RATE_PER_SECOND as int)
        by (nonlinear_arith)
        requires
            e >= 1,
            m.principal * RATE_PER_SECOND as int >= 0,
    ;
}

} // verus!
