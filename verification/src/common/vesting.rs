//! The vesting schedule and the messages of a vesting ledger.

use crate::decimal::{parse_u64, parse_u64_spec};
use crate::error::{ContractError, ScheduleField};
use crate::math::{multiply_ratio, ratio_of};
use vstd::arithmetic::div_mod::{
    lemma_div_is_ordered, lemma_div_multiples_vanish, lemma_fundamental_div_mod,
};
use vstd::arithmetic::mul::{lemma_mul_inequality, lemma_mul_is_commutative};
use vstd::prelude::*;

verus! {

/// A schedule as numbers: seconds since the epoch, and the length of one
/// interval in seconds.
pub ghost struct Terms {
    pub start: nat,
    pub end: nat,
    pub interval: nat,
}

impl Terms {
    /// The period is not empty and is a whole number of intervals.
    pub open spec fn valid(self) -> bool {
        &&& self.start < self.end
        &&& self.interval > 0
        &&& (self.end - self.start) % (self.interval as int) == 0
    }

    /// How many intervals the period has.
    pub open spec fn num_intervals(self) -> nat {
        ((self.end - self.start) / (self.interval as int)) as nat
    }

    /// How many whole intervals have passed at `now`.
    pub open spec fn elapsed_intervals(self, now: nat) -> nat {
        if now <= self.start {
            0
        } else {
            ((now - self.start) / (self.interval as int)) as nat
        }
    }

    /// The part of `total` that has vested at `now`: nothing up to the start,
    /// all of it from the end on, and in between the share of the intervals
    /// that have passed, rounded down.
    pub open spec fn vested(self, now: nat, total: nat) -> nat {
        if now <= self.start {
            0
        } else if now >= self.end {
            total
        } else {
            ratio_of(total, self.elapsed_intervals(now), self.num_intervals())
        }
    }
}

/// Inside the period the intervals that have passed are fewer than, or as
/// many as, the intervals of the period, of which there is at least one.
pub proof fn lemma_elapsed_within(t: Terms, now: nat)
    requires
        t.valid(),
        now <= t.end,
    ensures
        t.num_intervals() >= 1,
        t.num_intervals() * t.interval == t.end - t.start,
        t.elapsed_intervals(now) <= t.num_intervals(),
{
    let period = t.end - t.start;
    let step = t.interval as int;
    lemma_fundamental_div_mod(period, step);
    assert(step * (period / step) == period);
    lemma_mul_is_commutative(step, period / step);
    if period / step < 1 {
        assert(step * (period / step) <= 0) by (nonlinear_arith)
            requires
                step > 0,
                period / step <= 0,
        ;
    }
    if now > t.start {
        lemma_div_is_ordered(now - t.start, period, step);
    }
}

/// A share of `total` with a numerator that does not exceed the denominator
/// is at most `total`, and grows with the numerator.
pub proof fn lemma_ratio_ordered(total: nat, k1: nat, k2: nat, n: nat)
    requires
        k1 <= k2 <= n,
        n > 0,
    ensures
        ratio_of(total, k1, n) <= ratio_of(total, k2, n) <= total,
{
    lemma_mul_inequality(k1 as int, k2 as int, total as int);
    lemma_mul_inequality(k2 as int, n as int, total as int);
    lemma_mul_is_commutative(k1 as int, total as int);
    lemma_mul_is_commutative(k2 as int, total as int);
    lemma_div_is_ordered((total * k1) as int, (total * k2) as int, n as int);
    lemma_div_is_ordered((total * k2) as int, (n * total) as int, n as int);
    lemma_div_multiples_vanish(total as int, n as int);
}

/// The vested amount never exceeds the deposit.
pub proof fn lemma_vested_at_most_total(t: Terms, now: nat, total: nat)
    requires
        t.valid(),
    ensures
        t.vested(now, total) <= total,
{
    if t.start < now < t.end {
        lemma_elapsed_within(t, now);
        lemma_ratio_ordered(total, t.elapsed_intervals(now), t.elapsed_intervals(now), t.num_intervals());
    }
}

/// The vested amount never goes down as time goes on.
pub proof fn lemma_vested_monotonic(t: Terms, earlier: nat, later: nat, total: nat)
    requires
        t.valid(),
        earlier <= later,
    ensures
        t.vested(earlier, total) <= t.vested(later, total),
{
    lemma_vested_at_most_total(t, earlier, total);
    if t.start < earlier && later < t.end {
        lemma_elapsed_within(t, later);
        lemma_div_is_ordered(earlier - t.start, later - t.start, t.interval as int);
        lemma_ratio_ordered(total, t.elapsed_intervals(earlier), t.elapsed_intervals(later), t.num_intervals());
    }
}

/// Nothing has vested up to the start, and everything from the end on.
pub proof fn lemma_vested_outside_period(t: Terms, now: nat, total: nat)
    requires
        t.valid(),
    ensures
        now <= t.start ==> t.vested(now, total) == 0,
        now >= t.end ==> t.vested(now, total) == total,
{
}

/// At the end of the `k`-th interval exactly `floor(total * k / n)` has
/// vested, where `n` is the number of intervals of the period.
pub proof fn lemma_vested_at_boundary(t: Terms, k: nat, total: nat)
    requires
        t.valid(),
        k <= t.num_intervals(),
    ensures
        t.vested(t.start + k * t.interval, total) == (total * k) / t.num_intervals(),
{
    let n = t.num_intervals();
    let now = t.start + k * t.interval;
    lemma_elapsed_within(t, t.end);
    if k == 0 {
        assert(k * t.interval == 0) by (nonlinear_arith)
            requires
                k == 0,
        ;
        assert(total * k == 0) by (nonlinear_arith)
            requires
                k == 0,
        ;
    } else if k == n {
        assert(now == t.end);
        lemma_div_multiples_vanish(total as int, n as int);
        lemma_mul_is_commutative(total as int, n as int);
    } else {
        assert(0 < k * t.interval < n * t.interval) by (nonlinear_arith)
            requires
                0 < k < n,
                t.interval > 0,
        ;
        lemma_div_multiples_vanish(k as int, t.interval as int);
        lemma_mul_is_commutative(k as int, t.interval as int);
    }
}

/// Vests tokens at regular intervals over a period. The three fields are
/// decimal numerals of seconds; the period should be a whole number of
/// intervals.
#[derive(Debug, PartialEq)]
pub struct VestingSchedule {
    /// When vesting starts.
    pub start_time: String,
    /// When everything has vested.
    pub end_time: String,
    /// The length of one interval.
    pub vesting_interval: String,
}

/// A schedule as the three texts it holds.
pub ghost struct ScheduleView {
    pub start_time: Seq<char>,
    pub end_time: Seq<char>,
    pub vesting_interval: Seq<char>,
}

impl ScheduleView {
    /// The schedule as numbers, where all three fields are numerals.
    pub open spec fn terms(self) -> Option<Terms> {
        match (
            parse_u64_spec(self.start_time),
            parse_u64_spec(self.end_time),
            parse_u64_spec(self.vesting_interval),
        ) {
            (Some(start), Some(end), Some(interval)) => Some(
                Terms { start: start as nat, end: end as nat, interval: interval as nat },
            ),
            _ => None,
        }
    }

    /// All three fields are numerals, and the numbers make a valid schedule.
    pub open spec fn valid(self) -> bool {
        self.terms() is Some && self.terms().unwrap().valid()
    }

    /// Whether a vesting of `vesting_amount` under this schedule may be
    /// opened at `block_time`, and if not, the first reason against it.
    pub open spec fn validate(self, block_time: nat, vesting_amount: nat) -> Result<(), ContractError> {
        if vesting_amount == 0 {
            Err(ContractError::ZeroAmount)
        } else if parse_u64_spec(self.start_time) is None {
            Err(ContractError::InvalidField(ScheduleField::StartTime))
        } else if parse_u64_spec(self.end_time) is None {
            Err(ContractError::InvalidField(ScheduleField::EndTime))
        } else if parse_u64_spec(self.vesting_interval) is None {
            Err(ContractError::InvalidField(ScheduleField::VestingInterval))
        } else {
            let t = self.terms().unwrap();
            if t.start < block_time {
                Err(ContractError::StartInPast)
            } else if t.end <= t.start {
                Err(ContractError::EndNotAfterStart)
            } else if t.interval == 0 {
                Err(ContractError::ZeroInterval)
            } else if (t.end - t.start) % (t.interval as int) != 0 {
                Err(ContractError::NonDivisibleInterval)
            } else {
                Ok(())
            }
        }
    }
}

impl View for VestingSchedule {
    type V = ScheduleView;

    open spec fn view(&self) -> ScheduleView {
        ScheduleView {
            start_time: self.start_time@,
            end_time: self.end_time@,
            vesting_interval: self.vesting_interval@,
        }
    }
}

impl Clone for VestingSchedule {
    fn clone(&self) -> (r: Self)
        ensures
            r == *self,
    {
        VestingSchedule {
            start_time: self.start_time.clone(),
            end_time: self.end_time.clone(),
            vesting_interval: self.vesting_interval.clone(),
        }
    }
}

impl VestingSchedule {
    /// Checks the schedule for a vesting of `vesting_amount` opened at
    /// `block_time`. It passes exactly when the amount is not zero, the
    /// schedule is valid and it does not start in the past.
    pub fn validate(&self, block_time: u64, vesting_amount: u128) -> (r: Result<(), ContractError>)
        ensures
            r == self@.validate(block_time as nat, vesting_amount as nat),
            r is Ok <==> vesting_amount > 0 && self@.valid() && self@.terms().unwrap().start
                >= block_time,
    {
        if vesting_amount == 0 {
            return Err(ContractError::ZeroAmount);
        }
        let start_time = match parse_u64(self.start_time.as_str()) {
            Some(t) => t,
            None => {
                return Err(ContractError::InvalidField(ScheduleField::StartTime));
            },
        };
        let end_time = match parse_u64(self.end_time.as_str()) {
            Some(t) => t,
            None => {
                return Err(ContractError::InvalidField(ScheduleField::EndTime));
            },
        };
        let vesting_interval = match parse_u64(self.vesting_interval.as_str()) {
            Some(t) => t,
            None => {
                return Err(ContractError::InvalidField(ScheduleField::VestingInterval));
            },
        };
        if start_time < block_time {
            return Err(ContractError::StartInPast);
        }
        if end_time <= start_time {
            return Err(ContractError::EndNotAfterStart);
        }
        if vesting_interval == 0 {
            return Err(ContractError::ZeroInterval);
        }
        if (end_time - start_time) % vesting_interval != 0 {
            return Err(ContractError::NonDivisibleInterval);
        }
        Ok(())
    }

    /// The part of `vesting_amount` that has vested at `block_time`.
    pub fn vested_amount(&self, block_time: u64, vesting_amount: u128) -> (r: u128)
        requires
            self@.valid(),
        ensures
            r == self@.terms().unwrap().vested(block_time as nat, vesting_amount as nat),
    {
        let start_time = parse_u64(self.start_time.as_str()).unwrap();
        let end_time = parse_u64(self.end_time.as_str()).unwrap();
        let vesting_interval = parse_u64(self.vesting_interval.as_str()).unwrap();
        if block_time <= start_time {
            return 0;
        }
        if block_time >= end_time {
            return vesting_amount;
        }
        let passed_intervals = (block_time - start_time) / vesting_interval;
        let num_intervals = (end_time - start_time) / vesting_interval;
        proof {
            let t = self@.terms().unwrap();
            lemma_elapsed_within(t, block_time as nat);
            lemma_ratio_ordered(
                vesting_amount as nat,
                passed_intervals as nat,
                passed_intervals as nat,
                num_intervals as nat,
            );
        }
        multiply_ratio(vesting_amount, passed_intervals, num_intervals)
    }
}

/// Opens a ledger for `owner_address`; the deposit comes with the message.
#[derive(Clone, Debug, PartialEq)]
pub struct InstantiateMsg {
    pub owner_address: String,
    pub enable_staking: bool,
    pub vesting_schedule: VestingSchedule,
}

/// The message that opens a ledger as plain values.
pub ghost struct InstantiateMsgView {
    pub owner_address: Seq<char>,
    pub enable_staking: bool,
    pub vesting_schedule: ScheduleView,
}

impl View for InstantiateMsg {
    type V = InstantiateMsgView;

    open spec fn view(&self) -> InstantiateMsgView {
        InstantiateMsgView {
            owner_address: self.owner_address@,
            enable_staking: self.enable_staking,
            vesting_schedule: self.vesting_schedule@,
        }
    }
}

/// What the owner of a ledger may ask of it.
#[derive(Clone, Debug, PartialEq)]
pub enum ExecuteMsg {
    /// Hands the ledger over to `new_owner`.
    ChangeOwner { new_owner: String },
    /// Pays out what has vested and was not claimed yet, to `recipient` or,
    /// without one, to the caller.
    Claim { recipient: Option<String> },
    /// Withdraws the staking rewards held at each of `validators`.
    ClaimRewards { validators: Vec<String> },
    /// Stakes `amount` with `validator`.
    Delegate { validator: String, amount: u128 },
    /// Takes `amount` back from `validator`.
    Undelegate { validator: String, amount: u128 },
    /// Moves a stake of `amount` from `src_validator` to `dst_validator`.
    Redelegate { src_validator: String, dst_validator: String, amount: u128 },
}

/// A request to a ledger as plain values.
pub ghost enum ExecuteMsgView {
    ChangeOwner { new_owner: Seq<char> },
    Claim { recipient: Option<Seq<char>> },
    ClaimRewards { validators: Seq<Seq<char>> },
    Delegate { validator: Seq<char>, amount: nat },
    Undelegate { validator: Seq<char>, amount: nat },
    Redelegate { src_validator: Seq<char>, dst_validator: Seq<char>, amount: nat },
}

impl View for ExecuteMsg {
    type V = ExecuteMsgView;

    open spec fn view(&self) -> ExecuteMsgView {
        match self {
            ExecuteMsg::ChangeOwner { new_owner } => ExecuteMsgView::ChangeOwner {
                new_owner: new_owner@,
            },
            ExecuteMsg::Claim { recipient } => ExecuteMsgView::Claim {
                recipient: recipient.deep_view(),
            },
            ExecuteMsg::ClaimRewards { validators } => ExecuteMsgView::ClaimRewards {
                validators: validators.deep_view(),
            },
            ExecuteMsg::Delegate { validator, amount } => ExecuteMsgView::Delegate {
                validator: validator@,
                amount: *amount as nat,
            },
            ExecuteMsg::Undelegate { validator, amount } => ExecuteMsgView::Undelegate {
                validator: validator@,
                amount: *amount as nat,
            },
            ExecuteMsg::Redelegate {
                src_validator,
                dst_validator,
                amount,
            } => ExecuteMsgView::Redelegate {
                src_validator: src_validator@,
                dst_validator: dst_validator@,
                amount: *amount as nat,
            },
        }
    }
}

/// What may be asked about a ledger.
#[derive(Clone, Debug, PartialEq)]
pub enum QueryMsg {
    /// The state of the vesting at the current time.
    VestingInfo {  },
}

/// The state of a vesting at some time.
#[derive(Debug, PartialEq)]
pub struct VestingInfoResponse {
    pub owner_address: String,
    pub vesting_amount: u128,
    pub vested_amount: u128,
    pub vesting_schedule: VestingSchedule,
    pub claimed_amount: u128,
    pub claimable_amount: u128,
}

/// The state of a vesting as plain values.
pub ghost struct VestingInfoResponseView {
    pub owner_address: Seq<char>,
    pub vesting_amount: nat,
    pub vested_amount: nat,
    pub vesting_schedule: ScheduleView,
    pub claimed_amount: nat,
    pub claimable_amount: nat,
}

impl View for VestingInfoResponse {
    type V = VestingInfoResponseView;

    open spec fn view(&self) -> VestingInfoResponseView {
        VestingInfoResponseView {
            owner_address: self.owner_address@,
            vesting_amount: self.vesting_amount as nat,
            vested_amount: self.vested_amount as nat,
            vesting_schedule: self.vesting_schedule@,
            claimed_amount: self.claimed_amount as nat,
            claimable_amount: self.claimable_amount as nat,
        }
    }
}

/// The contracts through which a deposit can be staked.
#[derive(Clone, Debug, PartialEq)]
pub struct StakingInfo {
    pub bluna_token: String,
    pub hub_contract: String,
    pub reward_contract: String,
}


} // verus!
