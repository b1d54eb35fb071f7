//! Laws of the ledger: conservation of principal over arbitrary operation
//! sequences, monotone and near-additive yield accrual, idempotence of the
//! watermark advance, and rejection of unauthorized callers.

use vstd::prelude::*;

use crate::account::{Identity, RecordModel};
use crate::engine::{
    accrual_fits, accrued, claimed, deposited, reward_amount, withdrawn, RATE_DENOM,
    RATE_PER_SECOND,
};

verus! {

/// The yield term is never negative when the principal and the window are
/// non-negative.
pub proof fn lemma_reward_nonneg(principal: int, elapsed: int)
    requires
        0 <= principal,
        0 <= elapsed,
    ensures
        0 <= reward_amount(principal, elapsed),
{
    assert(0 <= principal * RATE_PER_SECOND as int * elapsed) by (nonlinear_arith)
        requires
            0 <= principal,
            0 <= elapsed,
    ;
    vstd::arithmetic::div_mod::lemma_div_pos_is_pos(
        principal * RATE_PER_SECOND as int * elapsed,
        RATE_DENOM as int,
    );
}

/// A longer window never earns less on the same principal.
pub proof fn lemma_reward_monotone(principal: int, e1: int, e2: int)
    requires
        0 <= principal,
        0 <= e1 <= e2,
    ensures
        reward_amount(principal, e1) <= reward_amount(principal, e2),
{
    assert(principal * RATE_PER_SECOND as int * e1 <= principal * RATE_PER_SECOND as int * e2)
        by (nonlinear_arith)
        requires
            0 <= principal,
            e1 <= e2,
    ;
    vstd::arithmetic::div_mod::lemma_div_is_ordered(
        principal * RATE_PER_SECOND as int * e1,
        principal * RATE_PER_SECOND as int * e2,
        RATE_DENOM as int,
    );
}

/// A window whose scaled product reaches the rate denominator earns at least
/// one unit. Below that threshold truncation can swallow the whole term, so
/// no strict growth can be promised there.
pub proof fn lemma_reward_positive(principal: int, elapsed: int)
    requires
        principal * RATE_PER_SECOND as int * elapsed >= RATE_DENOM as int,
    ensures
        reward_amount(principal, elapsed) >= 1,
{
    vstd::arithmetic::div_mod::lemma_div_is_ordered(
        RATE_DENOM as int,
        principal * RATE_PER_SECOND as int * elapsed,
        RATE_DENOM as int,
    );
    vstd::arithmetic::div_mod::lemma_div_by_self(RATE_DENOM as int);
}

/// Truncated division splits a sum with a loss of at most one unit.
proof fn lemma_div_split(x: int, y: int, d: int)
    requires
        0 <= x,
        0 <= y,
        0 < d,
    ensures
        x / d + y / d <= (x + y) / d,
        (x + y) / d <= x / d + y / d + 1,
{
    let qx = x / d;
    let rx = x % d;
    let qy = y / d;
    let ry = y % d;
    vstd::arithmetic::div_mod::lemma_fundamental_div_mod(x, d);
    vstd::arithmetic::div_mod::lemma_mod_bound(x, d);
    vstd::arithmetic::div_mod::lemma_fundamental_div_mod(y, d);
    vstd::arithmetic::div_mod::lemma_mod_bound(y, d);
    if rx + ry < d {
        assert(x + y == (qx + qy) * d + (rx + ry)) by (nonlinear_arith)
            requires
                x == d * qx + rx,
                y == d * qy + ry,
        ;
        vstd::arithmetic::div_mod::lemma_fundamental_div_mod_converse(x + y, d, qx + qy, rx + ry);
    } else {
        assert(x + y == (qx + qy + 1) * d + (rx + ry - d)) by (nonlinear_arith)
            requires
                x == d * qx + rx,
                y == d * qy + ry,
        ;
        vstd::arithmetic::div_mod::lemma_fundamental_div_mod_converse(
            x + y,
            d,
            qx + qy + 1,
            rx + ry - d,
        );
    }
}

/// Accruing one window in two pieces earns at most what the whole window
/// earns, and the whole window earns at most one unit more than the two
/// pieces together: truncation loses at most one unit per split.
pub proof fn lemma_reward_additive(principal: int, e1: int, e2: int)
    requires
        0 <= principal,
        0 <= e1,
        0 <= e2,
    ensures
        reward_amount(principal, e1) + reward_amount(principal, e2) <= reward_amount(
            principal,
            e1 + e2,
        ),
        reward_amount(principal, e1 + e2) <= reward_amount(principal, e1) + reward_amount(
            principal,
            e2,
        ) + 1,
{
    let x = principal * RATE_PER_SECOND as int * e1;
    let y = principal * RATE_PER_SECOND as int * e2;
    assert(principal * RATE_PER_SECOND as int * (e1 + e2) == x + y && 0 <= x && 0 <= y)
        by (nonlinear_arith)
        requires
            0 <= principal,
            0 <= e1,
            0 <= e2,
            x == principal * RATE_PER_SECOND as int * e1,
            y == principal * RATE_PER_SECOND as int * e2,
    ;
    lemma_div_split(x, y, RATE_DENOM as int);
}

/// Under continuous staking the owed yield never falls as time advances, and
/// it strictly grows over any window whose scaled product reaches the rate
/// denominator.
pub proof fn lemma_yield_monotone(m: RecordModel, t1: int, t2: int)
    requires
        0 <= m.principal,
        m.last_accrual_time <= t1 <= t2,
    ensures
        m.accrued_yield <= accrued(m, t1).accrued_yield,
        accrued(m, t1).accrued_yield <= accrued(accrued(m, t1), t2).accrued_yield,
        m.principal * RATE_PER_SECOND as int * (t2 - t1) >= RATE_DENOM as int ==> accrued(
            m,
            t1,
        ).accrued_yield < accrued(accrued(m, t1), t2).accrued_yield,
{
    lemma_reward_nonneg(m.principal, t1 - m.last_accrual_time);
    lemma_reward_nonneg(m.principal, t2 - t1);
    if m.principal * RATE_PER_SECOND as int * (t2 - t1) >= RATE_DENOM as int {
        lemma_reward_positive(m.principal, t2 - t1);
    }
}

/// Accruing over a window in one call or in two consecutive calls agrees on
/// everything but truncation: the split never earns more, and falls short by
/// at most one unit.
pub proof fn lemma_split_accrual(m: RecordModel, t1: int, t2: int)
    requires
        0 <= m.principal,
        m.last_accrual_time <= t1 <= t2,
    ensures
        accrued(accrued(m, t1), t2).accrued_yield <= accrued(m, t2).accrued_yield,
        accrued(m, t2).accrued_yield <= accrued(accrued(m, t1), t2).accrued_yield + 1,
        accrued(accrued(m, t1), t2).owner == accrued(m, t2).owner,
        accrued(accrued(m, t1), t2).principal == accrued(m, t2).principal,
        accrued(accrued(m, t1), t2).last_accrual_time == accrued(m, t2).last_accrual_time,
{
    lemma_reward_additive(m.principal, t1 - m.last_accrual_time, t2 - t1);
}

/// Accruing a second time at the same instant changes nothing: with no
/// elapsed time the yield term is zero and the watermark is already `now`.
pub proof fn lemma_accrual_idempotent(m: RecordModel, now: int)
    ensures
        accrued(accrued(m, now), now) == accrued(m, now),
{
    let a = accrued(m, now);
    assert(a.principal * RATE_PER_SECOND as int * (now - now) == 0) by (nonlinear_arith);
    vstd::arithmetic::div_mod::lemma_div_of0(RATE_DENOM as int);
    assert(reward_amount(a.principal, 0) == 0);
}

/// One requested operation against one record: who asks, when, and what.
pub enum LedgerOp {
    Deposit { caller: Identity, now: int, amount: int },
    Withdraw { caller: Identity, now: int },
    Claim { caller: Identity, now: int },
}

/// The identity that requested the operation.
pub open spec fn op_caller(op: LedgerOp) -> Identity {
    match op {
        LedgerOp::Deposit { caller, .. } => caller,
        LedgerOp::Withdraw { caller, .. } => caller,
        LedgerOp::Claim { caller, .. } => caller,
    }
}

/// The time the operation runs at.
pub open spec fn op_time(op: LedgerOp) -> int {
    match op {
        LedgerOp::Deposit { now, .. } => now,
        LedgerOp::Withdraw { now, .. } => now,
        LedgerOp::Claim { now, .. } => now,
    }
}

/// Whether the operation succeeds against `m`: the caller owns the record,
/// the clock has not regressed, the arithmetic stays in range, and the
/// operation's own demand (a positive deposit, something staked, something
/// owed) is met. A failing operation leaves the record as it was and moves
/// nothing.
pub open spec fn op_enabled(m: RecordModel, op: LedgerOp) -> bool {
    &&& op_caller(op) == m.owner
    &&& op_time(op) >= m.last_accrual_time
    &&& accrual_fits(m, op_time(op))
    &&& match op {
        LedgerOp::Deposit { amount, .. } => 0 < amount && m.principal + amount <= u64::MAX,
        LedgerOp::Withdraw { .. } => m.principal > 0,
        LedgerOp::Claim { now, .. } => accrued(m, now).accrued_yield > 0,
    }
}

/// The record after the operation: unchanged on failure, else the matching
/// transition.
pub open spec fn op_apply(m: RecordModel, op: LedgerOp) -> RecordModel {
    if !op_enabled(m, op) {
        m
    } else {
        match op {
            LedgerOp::Deposit { now, amount, .. } => deposited(m, now, amount),
            LedgerOp::Withdraw { now, .. } => withdrawn(m, now),
            LedgerOp::Claim { now, .. } => claimed(m, now),
        }
    }
}

/// Units the operation moves from the owner's account into the vault.
pub open spec fn op_inflow(m: RecordModel, op: LedgerOp) -> int {
    if op_enabled(m, op) {
        match op {
            LedgerOp::Deposit { amount, .. } => amount,
            _ => 0,
        }
    } else {
        0
    }
}

/// Principal the operation moves from the vault back to the owner.
pub open spec fn op_principal_outflow(m: RecordModel, op: LedgerOp) -> int {
    if op_enabled(m, op) {
        match op {
            LedgerOp::Withdraw { .. } => m.principal,
            _ => 0,
        }
    } else {
        0
    }
}

/// Yield the operation pays out of the vault: value the system mints, not
/// value conserved from deposits.
pub open spec fn op_yield_outflow(m: RecordModel, op: LedgerOp) -> int {
    if op_enabled(m, op) {
        match op {
            LedgerOp::Claim { now, .. } => accrued(m, now).accrued_yield,
            _ => 0,
        }
    } else {
        0
    }
}

/// The record after a whole sequence of operations, first one first.
pub open spec fn run_ops(m: RecordModel, ops: Seq<LedgerOp>) -> RecordModel
    decreases ops.len(),
{
    if ops.len() == 0 {
        m
    } else {
        run_ops(op_apply(m, ops[0]), ops.subrange(1, ops.len() as int))
    }
}

/// Net principal the sequence moves into the vault: deposits in, minus
/// withdrawals out. Yield payouts are deliberately not counted here.
pub open spec fn net_principal_flow(m: RecordModel, ops: Seq<LedgerOp>) -> int
    decreases ops.len(),
{
    if ops.len() == 0 {
        0
    } else {
        op_inflow(m, ops[0]) - op_principal_outflow(m, ops[0]) + net_principal_flow(
            op_apply(m, ops[0]),
            ops.subrange(1, ops.len() as int),
        )
    }
}

/// Conservation, one record: whatever sequence of deposits, withdrawals and
/// claims runs against a record, the principal it ends with differs from the
/// principal it began with by exactly the net principal moved into the vault.
/// No operation creates or destroys principal.
pub proof fn lemma_conservation(m: RecordModel, ops: Seq<LedgerOp>)
    ensures
        run_ops(m, ops).principal == m.principal + net_principal_flow(m, ops),
    decreases ops.len(),
{
    if ops.len() > 0 {
        let m1 = op_apply(m, ops[0]);
        assert(m1.principal == m.principal + op_inflow(m, ops[0]) - op_principal_outflow(
            m,
            ops[0],
        ));
        lemma_conservation(m1, ops.subrange(1, ops.len() as int));
    }
}

/// The owner written at creation survives every sequence of operations: no
/// transition touches it.
pub proof fn lemma_owner_immutable(m: RecordModel, ops: Seq<LedgerOp>)
    ensures
        run_ops(m, ops).owner == m.owner,
    decreases ops.len(),
{
    if ops.len() > 0 {
        lemma_owner_immutable(op_apply(m, ops[0]), ops.subrange(1, ops.len() as int));
    }
}

/// The watermark never moves backwards: a successful operation stamps it with
/// its own, later time, and a failed one leaves it alone.
pub proof fn lemma_watermark_monotone(m: RecordModel, ops: Seq<LedgerOp>)
    ensures
        run_ops(m, ops).last_accrual_time >= m.last_accrual_time,
    decreases ops.len(),
{
    if ops.len() > 0 {
        lemma_watermark_monotone(op_apply(m, ops[0]), ops.subrange(1, ops.len() as int));
    }
}

/// An operation aimed at one record of a pool: which record, and what to do.
pub struct PoolOp {
    pub index: int,
    pub op: LedgerOp,
}

/// Total principal staked across a pool of records: what the custodial vault
/// must hold on the depositors' behalf.
pub open spec fn sum_principal(rs: Seq<RecordModel>) -> int
    decreases rs.len(),
{
    if rs.len() == 0 {
        0
    } else {
        sum_principal(rs.drop_last()) + rs.last().principal
    }
}

/// The pool after one operation: only the named record changes; an index
/// outside the pool does nothing.
pub open spec fn pool_apply(rs: Seq<RecordModel>, p: PoolOp) -> Seq<RecordModel> {
    if 0 <= p.index < rs.len() {
        rs.update(p.index, op_apply(rs[p.index], p.op))
    } else {
        rs
    }
}

/// Net principal one pool operation moves into the vault.
pub open spec fn pool_step_flow(rs: Seq<RecordModel>, p: PoolOp) -> int {
    if 0 <= p.index < rs.len() {
        op_inflow(rs[p.index], p.op) - op_principal_outflow(rs[p.index], p.op)
    } else {
        0
    }
}

/// The pool after a whole sequence of operations, first one first.
pub open spec fn pool_run(rs: Seq<RecordModel>, ps: Seq<PoolOp>) -> Seq<RecordModel>
    decreases ps.len(),
{
    if ps.len() == 0 {
        rs
    } else {
        pool_run(pool_apply(rs, ps[0]), ps.subrange(1, ps.len() as int))
    }
}

/// Net principal a sequence of pool operations moves into the vault.
pub open spec fn pool_net_flow(rs: Seq<RecordModel>, ps: Seq<PoolOp>) -> int
    decreases ps.len(),
{
    if ps.len() == 0 {
        0
    } else {
        pool_step_flow(rs, ps[0]) + pool_net_flow(
            pool_apply(rs, ps[0]),
            ps.subrange(1, ps.len() as int),
        )
    }
}

/// Replacing one record changes the pool's total principal by exactly that
/// record's change.
proof fn lemma_sum_update(rs: Seq<RecordModel>, i: int, r: RecordModel)
    requires
        0 <= i < rs.len(),
    ensures
        sum_principal(rs.update(i, r)) == sum_principal(rs) - rs[i].principal + r.principal,
    decreases rs.len(),
{
    if i == rs.len() - 1 {
        assert(rs.update(i, r).drop_last() =~= rs.drop_last());
    } else {
        assert(rs.update(i, r).drop_last() =~= rs.drop_last().update(i, r));
        lemma_sum_update(rs.drop_last(), i, r);
    }
}

/// Conservation, whole pool: over any sequence of deposits, withdrawals and
/// claims against any records of the pool, the total staked principal changes
/// by exactly the net principal moved into the vault. Yield payouts are new
/// value the system introduces and are not drawn from anyone's principal.
pub proof fn lemma_pool_conservation(rs: Seq<RecordModel>, ps: Seq<PoolOp>)
    ensures
        sum_principal(pool_run(rs, ps)) == sum_principal(rs) + pool_net_flow(rs, ps),
    decreases ps.len(),
{
    if ps.len() > 0 {
        let rs1 = pool_apply(rs, ps[0]);
        if 0 <= ps[0].index < rs.len() {
            lemma_sum_update(rs, ps[0].index, op_apply(rs[ps[0].index], ps[0].op));
        }
        lemma_pool_conservation(rs1, ps.subrange(1, ps.len() as int));
    }
}

/// An operation asked for by anyone but the record's owner does nothing: the
/// record keeps its value and not a unit moves in either direction.
pub proof fn lemma_unauthorized_rejected(m: RecordModel, op: LedgerOp)
    requires
        op_caller(op) != m.owner,
    ensures
        op_apply(m, op) == m,
        op_inflow(m, op) == 0,
        op_principal_outflow(m, op) == 0,
        op_yield_outflow(m, op) == 0,
{
}

} // verus!
