use vstd::prelude::*;

verus! {

/// One in basis points: a fee of this many basis points is the whole amount.
pub const ONE_IN_BASIS_POINTS: u16 = 10000;

/// A transfer fee that takes effect at a given epoch.
#[derive(Clone, Copy, Debug, PartialEq, Eq, Structural)]
pub struct FeeSchedule {
    /// The first epoch in which this fee applies.
    pub epoch: u64,
    /// The largest fee charged on one transfer, in raw token units.
    pub maximum_fee: u64,
    /// The fee rate, in hundredths of a percent.
    pub basis_points: u16,
}

/// The two fee schedules that a Token-2022 mint keeps.
#[derive(Clone, Copy, Debug, PartialEq, Eq, Structural)]
pub struct FeeConfig {
    /// The schedule that applies before `newer.epoch`.
    pub older: FeeSchedule,
    /// The schedule that applies from `newer.epoch` on.
    pub newer: FeeSchedule,
}

/// The schedule in force at `epoch`.
pub open spec fn schedule_at(config: FeeConfig, epoch: u64) -> FeeSchedule {
    if epoch >= config.newer.epoch {
        config.newer
    } else {
        config.older
    }
}

/// `amount * basis_points / 10000`, rounded up.
pub open spec fn proportional_fee(amount: u64, basis_points: u16) -> int {
    (amount * basis_points + (ONE_IN_BASIS_POINTS - 1)) / (ONE_IN_BASIS_POINTS as int)
}

/// The fee a schedule charges on `amount`: nothing when the rate or the amount is zero,
/// otherwise the proportional fee rounded up and capped at the maximum; no fee at all when
/// the rounded-up fee does not fit in a `u64`.
pub open spec fn schedule_fee(schedule: FeeSchedule, amount: u64) -> Option<u64> {
    if schedule.basis_points == 0 || amount == 0 {
        Some(0)
    } else if proportional_fee(amount, schedule.basis_points) > u64::MAX {
        None
    } else if proportional_fee(amount, schedule.basis_points) <= schedule.maximum_fee {
        Some(proportional_fee(amount, schedule.basis_points) as u64)
    } else {
        Some(schedule.maximum_fee)
    }
}

/// The fee charged on a transfer of `amount` during `epoch`.
pub open spec fn epoch_fee(config: FeeConfig, epoch: u64, amount: u64) -> Option<u64> {
    schedule_fee(schedule_at(config, epoch), amount)
}

/// A transfer fee never exceeds the maximum fee of the schedule in force.
pub proof fn lemma_fee_is_capped(config: FeeConfig, epoch: u64, amount: u64)
    ensures
        epoch_fee(config, epoch, amount) matches Some(fee) ==> fee <= schedule_at(config, epoch).maximum_fee,
{
}

/// Below the cap, the fee is the proportional fee rounded up: the smallest whole number of
/// token units that is at least `amount * basis_points / 10000`.
pub proof fn lemma_fee_rounds_up(schedule: FeeSchedule, amount: u64)
    ensures
        schedule_fee(schedule, amount) matches Some(fee) ==> (fee < schedule.maximum_fee ==> {
            &&& fee * 10000 >= amount * schedule.basis_points
            &&& fee * 10000 < amount * schedule.basis_points + 10000
        }),
{
    if schedule.basis_points != 0 && amount != 0 {
        let n: int = amount * schedule.basis_points;
        assert(n >= 0) by (nonlinear_arith)
            requires n == amount * schedule.basis_points;
        let q = (n + 9999) / 10000;
        assert(q * 10000 >= n && q * 10000 < n + 10000) by (nonlinear_arith)
            requires q == (n + 9999) / 10000, n >= 0;
    }
}

/// For every rate that Token-2022 accepts (at most 100%), the fee is defined and never
/// exceeds the amount transferred.
pub proof fn lemma_fee_within_amount(schedule: FeeSchedule, amount: u64)
    requires
        schedule.basis_points <= ONE_IN_BASIS_POINTS,
    ensures
        schedule_fee(schedule, amount) matches Some(fee) && fee <= amount,
{
    if schedule.basis_points != 0 && amount != 0 {
        let a: int = amount as int;
        let b: int = schedule.basis_points as int;
        assert((a * b + 9999) / 10000 <= a) by (nonlinear_arith)
            requires 0 <= b <= 10000, a >= 0;
        assert(proportional_fee(amount, schedule.basis_points) == (a * b + 9999) / 10000);
    }
}

/// A rate of zero, or an amount of zero, is charged nothing.
pub proof fn lemma_zero_rate_or_amount_is_free(config: FeeConfig, epoch: u64, amount: u64)
    requires
        schedule_at(config, epoch).basis_points == 0 || amount == 0,
    ensures
        epoch_fee(config, epoch, amount) == Some(0u64),
{
}

/// A scheduled fee takes effect exactly at its epoch: before it, the older fee applies.
pub proof fn lemma_newer_fee_applies_from_its_epoch(config: FeeConfig, epoch: u64, amount: u64)
    ensures
        epoch < config.newer.epoch ==> epoch_fee(config, epoch, amount) == schedule_fee(config.older, amount),
        epoch >= config.newer.epoch ==> epoch_fee(config, epoch, amount) == schedule_fee(config.newer, amount),
{
}

} // verus!
