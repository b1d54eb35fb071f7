use goldium_staking::account::{Identity, StakingAccount};
use goldium_staking::engine::{
    claim_rewards, initialize, stake, unstake, update_rewards, ErrorCode, TokenTransfer,
    TransferDirection,
};

fn alice() -> Identity {
    Identity { w0: 1, w1: 2, w2: 3, w3: 4 }
}

fn bob() -> Identity {
    Identity { w0: 5, w1: 6, w2: 7, w3: 8 }
}

#[test]
fn initialize_opens_zeroed_record() {
    let acc = initialize(alice(), 1_700_000_000);
    assert_eq!(acc.owner, alice());
    assert_eq!(acc.staked_amount, 0);
    assert_eq!(acc.rewards, 0);
    assert_eq!(acc.last_update_time, 1_700_000_000);
}

#[test]
fn one_day_on_a_million_earns_506822() {
    // floor(1_000_000 * 5866 * 86_400 / 1_000_000_000) == 506_822
    let mut acc = initialize(alice(), 0);
    let t = stake(&mut acc, alice(), 0, 1_000_000).unwrap();
    assert_eq!(
        t,
        TokenTransfer { direction: TransferDirection::OwnerToVault, amount: 1_000_000 }
    );
    let paid = claim_rewards(&mut acc, alice(), 86_400).unwrap();
    assert_eq!(
        paid,
        TokenTransfer { direction: TransferDirection::VaultToOwner, amount: 506_822 }
    );
    assert_eq!(acc.rewards, 0);
    assert_eq!(acc.staked_amount, 1_000_000);
    assert_eq!(acc.last_update_time, 86_400);
}

#[test]
fn accrual_formula_exact_values() {
    // One second on principal RATE_DENOM earns exactly RATE_PER_SECOND.
    let mut acc = StakingAccount {
        owner: alice(),
        staked_amount: 1_000_000_000,
        rewards: 0,
        last_update_time: 0,
    };
    update_rewards(&mut acc, 1).unwrap();
    assert_eq!(acc.rewards, 5866);

    // Truncation: one second on one unit earns nothing.
    let mut small = StakingAccount { owner: alice(), staked_amount: 1, rewards: 0, last_update_time: 0 };
    update_rewards(&mut small, 1).unwrap();
    assert_eq!(small.rewards, 0);
    assert_eq!(small.last_update_time, 1);

    // floor(170_503 * 5866 * 1000 / 1_000_000_000) == 1000
    let mut third = StakingAccount {
        owner: alice(),
        staked_amount: 170_503,
        rewards: 0,
        last_update_time: 0,
    };
    update_rewards(&mut third, 1000).unwrap();
    assert_eq!(third.rewards, 1000);
}

#[test]
fn deposit_accrues_on_pre_deposit_principal_only() {
    let mut acc = initialize(alice(), 0);
    stake(&mut acc, alice(), 0, 1_000_000).unwrap();
    // A second deposit a day later: the day's yield is computed on the first
    // million alone, before the new million starts earning.
    stake(&mut acc, alice(), 86_400, 1_000_000).unwrap();
    assert_eq!(acc.staked_amount, 2_000_000);
    assert_eq!(acc.rewards, 506_822);
    assert_eq!(acc.last_update_time, 86_400);
}

#[test]
fn watermark_advance_is_idempotent() {
    let mut acc = initialize(alice(), 0);
    stake(&mut acc, alice(), 0, 1_000_000).unwrap();
    update_rewards(&mut acc, 86_400).unwrap();
    assert_eq!(acc.rewards, 506_822);
    // Accruing again at the same instant changes nothing.
    update_rewards(&mut acc, 86_400).unwrap();
    assert_eq!(acc.rewards, 506_822);
    assert_eq!(acc.last_update_time, 86_400);
}

#[test]
fn watermark_advances_even_with_nothing_staked() {
    let mut acc = initialize(alice(), 0);
    update_rewards(&mut acc, 500).unwrap();
    assert_eq!(acc.rewards, 0);
    assert_eq!(acc.last_update_time, 500);
}

#[test]
fn withdraw_takes_all_principal_and_keeps_yield() {
    let mut acc = StakingAccount {
        owner: alice(),
        staked_amount: 1000,
        rewards: 50,
        last_update_time: 200,
    };
    let t = unstake(&mut acc, alice(), 200).unwrap();
    assert_eq!(
        t,
        TokenTransfer { direction: TransferDirection::VaultToOwner, amount: 1000 }
    );
    assert_eq!(acc.staked_amount, 0);
    assert_eq!(acc.rewards, 50);
    assert_eq!(acc.last_update_time, 200);
}

#[test]
fn yield_survives_withdraw_and_later_restake() {
    let mut acc = StakingAccount {
        owner: alice(),
        staked_amount: 1000,
        rewards: 50,
        last_update_time: 0,
    };
    unstake(&mut acc, alice(), 10).unwrap();
    assert_eq!(acc.staked_amount, 0);
    assert_eq!(acc.rewards, 50);
    // The emptied record is a valid resting state and can be restaked.
    stake(&mut acc, alice(), 20, 400).unwrap();
    assert_eq!(acc.staked_amount, 400);
    assert_eq!(acc.rewards, 50);
    assert_eq!(acc.last_update_time, 20);
}

#[test]
fn withdraw_on_fresh_record_fails() {
    let mut acc = initialize(alice(), 0);
    let before = acc;
    assert_eq!(unstake(&mut acc, alice(), 0), Err(ErrorCode::NoStakedTokens));
    assert_eq!(acc, before);
}

#[test]
fn claim_without_rewards_fails() {
    let mut acc = initialize(alice(), 0);
    let before = acc;
    assert_eq!(claim_rewards(&mut acc, alice(), 0), Err(ErrorCode::NoRewards));
    assert_eq!(acc, before);
}

#[test]
fn unauthorized_callers_are_rejected_without_mutation() {
    let mut acc = StakingAccount {
        owner: alice(),
        staked_amount: 1000,
        rewards: 50,
        last_update_time: 0,
    };
    let before = acc;
    assert_eq!(stake(&mut acc, bob(), 10, 5), Err(ErrorCode::InvalidOwner));
    assert_eq!(acc, before);
    assert_eq!(unstake(&mut acc, bob(), 10), Err(ErrorCode::InvalidOwner));
    assert_eq!(acc, before);
    assert_eq!(claim_rewards(&mut acc, bob(), 10), Err(ErrorCode::InvalidOwner));
    assert_eq!(acc, before);
}

#[test]
fn clock_regression_is_rejected_without_mutation() {
    let mut acc = StakingAccount {
        owner: alice(),
        staked_amount: 1000,
        rewards: 0,
        last_update_time: 100,
    };
    let before = acc;
    assert_eq!(update_rewards(&mut acc, 99), Err(ErrorCode::ClockRegression));
    assert_eq!(acc, before);
    assert_eq!(stake(&mut acc, alice(), 99, 5), Err(ErrorCode::ClockRegression));
    assert_eq!(acc, before);
    assert_eq!(unstake(&mut acc, alice(), 99), Err(ErrorCode::ClockRegression));
    assert_eq!(acc, before);
    assert_eq!(claim_rewards(&mut acc, alice(), 99), Err(ErrorCode::ClockRegression));
    assert_eq!(acc, before);
}

#[test]
fn accrual_overflow_is_rejected_without_mutation() {
    // u64::MAX * 5866 leaves the 64-bit range at the first step of the chain.
    let mut acc = StakingAccount {
        owner: alice(),
        staked_amount: u64::MAX,
        rewards: 0,
        last_update_time: 0,
    };
    let before = acc;
    assert_eq!(update_rewards(&mut acc, 1), Err(ErrorCode::ArithmeticOverflow));
    assert_eq!(acc, before);
}

#[test]
fn deposit_overflow_is_rejected_without_mutation() {
    let mut acc = StakingAccount {
        owner: alice(),
        staked_amount: u64::MAX,
        rewards: 0,
        last_update_time: 0,
    };
    let before = acc;
    // No time has passed, so accrual is fine; the principal addition is not.
    assert_eq!(stake(&mut acc, alice(), 0, 1), Err(ErrorCode::ArithmeticOverflow));
    assert_eq!(acc, before);
}

#[test]
fn yield_grows_monotonically_and_split_loses_at_most_one_unit() {
    // Continuous staking: each later accrual can only add to the yield.
    let mut acc = StakingAccount {
        owner: alice(),
        staked_amount: 1_000_000_000,
        rewards: 0,
        last_update_time: 0,
    };
    let mut last_rewards: u64 = 0;
    for t in 1..=3i64 {
        update_rewards(&mut acc, t).unwrap();
        assert!(acc.rewards > last_rewards);
        last_rewards = acc.rewards;
    }
    assert_eq!(acc.rewards, 3 * 5866);

    // Splitting a window truncates each piece: the two-call total may fall
    // short of the one-call total, but by at most one unit.
    let mut split = StakingAccount {
        owner: alice(),
        staked_amount: 150_000,
        rewards: 0,
        last_update_time: 0,
    };
    update_rewards(&mut split, 1).unwrap();
    update_rewards(&mut split, 2).unwrap();
    let mut whole = StakingAccount {
        owner: alice(),
        staked_amount: 150_000,
        rewards: 0,
        last_update_time: 0,
    };
    update_rewards(&mut whole, 2).unwrap();
    assert_eq!(split.rewards, 0);
    assert_eq!(whole.rewards, 1);
    assert!(split.rewards <= whole.rewards);
    assert!(whole.rewards <= split.rewards + 1);
}

#[test]
fn principal_is_conserved_across_records() {
    // Run a mixed sequence over two records, tallying every transfer the
    // engine instructs. Principal moved in minus principal moved out must
    // equal the total staked at the end; claimed yield is new value and is
    // tracked separately.
    let mut a = initialize(alice(), 0);
    let mut b = initialize(bob(), 0);
    let mut vault_principal: i128 = 0;
    let mut yield_paid: i128 = 0;

    let mut book = |t: TokenTransfer, is_yield: bool| {
        let amount = t.amount as i128;
        match (t.direction, is_yield) {
            (TransferDirection::OwnerToVault, _) => vault_principal += amount,
            (TransferDirection::VaultToOwner, false) => vault_principal -= amount,
            (TransferDirection::VaultToOwner, true) => yield_paid += amount,
        }
    };

    book(stake(&mut a, alice(), 0, 500_000).unwrap(), false);
    book(stake(&mut b, bob(), 5, 700_000).unwrap(), false);
    book(stake(&mut a, alice(), 86_400, 250_000).unwrap(), false);
    book(unstake(&mut b, bob(), 100_000).unwrap(), false);
    book(claim_rewards(&mut a, alice(), 172_800).unwrap(), true);
    book(stake(&mut b, bob(), 200_000, 40_000).unwrap(), false);

    let total_staked = a.staked_amount as i128 + b.staked_amount as i128;
    assert_eq!(vault_principal, total_staked);
    assert_eq!(total_staked, 500_000 + 250_000 + 40_000);
    assert!(yield_paid > 0);
}
