use vesting_contracts::common::vesting::VestingSchedule;
use vesting_contracts::error::{ContractError, ScheduleField};

fn schedule(start_time: &str, end_time: &str, vesting_interval: &str) -> VestingSchedule {
    VestingSchedule {
        start_time: start_time.to_string(),
        end_time: end_time.to_string(),
        vesting_interval: vesting_interval.to_string(),
    }
}

#[test]
fn vested_amount() {
    let schedule = VestingSchedule {
        start_time: "100".to_string(),
        end_time: "110".to_string(),
        vesting_interval: "5".to_string(),
    };

    let vesting_amount = 1000000u128;
    assert_eq!(schedule.vested_amount(100, vesting_amount), 0u128);
    assert_eq!(schedule.vested_amount(105, vesting_amount), 500000u128);
    assert_eq!(schedule.vested_amount(110, vesting_amount), 1000000u128);
    assert_eq!(schedule.vested_amount(115, vesting_amount), 1000000u128);
}

#[test]
fn validate_accepts_a_schedule_of_whole_intervals() {
    assert_eq!(schedule("105", "110", "5").validate(100, 1000000), Ok(()));
    assert_eq!(schedule("100", "110", "5").validate(100, 1), Ok(()));
    assert_eq!(schedule("0", "1", "1").validate(0, 1), Ok(()));
    assert_eq!(
        schedule("0", "18446744073709551615", "18446744073709551615").validate(0, u128::MAX),
        Ok(())
    );
}

#[test]
fn validate_reads_signed_and_padded_numerals() {
    assert_eq!(schedule("+105", "0110", "005").validate(100, 1000000), Ok(()));
}

#[test]
fn validate_rejects_zero_amount() {
    assert_eq!(
        schedule("105", "110", "5").validate(100, 0),
        Err(ContractError::ZeroAmount)
    );
    // the amount is looked at before the fields are
    assert_eq!(
        schedule("x", "y", "z").validate(100, 0),
        Err(ContractError::ZeroAmount)
    );
}

#[test]
fn validate_rejects_fields_that_are_no_numerals() {
    assert_eq!(
        schedule("abc", "110", "5").validate(100, 1),
        Err(ContractError::InvalidField(ScheduleField::StartTime))
    );
    assert_eq!(
        schedule("105", "", "5").validate(100, 1),
        Err(ContractError::InvalidField(ScheduleField::EndTime))
    );
    assert_eq!(
        schedule("105", "110", "-5").validate(100, 1),
        Err(ContractError::InvalidField(ScheduleField::VestingInterval))
    );
    assert_eq!(
        schedule("105", "18446744073709551616", "5").validate(100, 1),
        Err(ContractError::InvalidField(ScheduleField::EndTime))
    );
    assert_eq!(
        schedule(" 105", "110", "5").validate(100, 1),
        Err(ContractError::InvalidField(ScheduleField::StartTime))
    );
    assert_eq!(
        schedule("105", "110", "5s").validate(100, 1),
        Err(ContractError::InvalidField(ScheduleField::VestingInterval))
    );
    // the fields are read in order: start, end, interval
    assert_eq!(
        schedule("105", "x", "y").validate(100, 1),
        Err(ContractError::InvalidField(ScheduleField::EndTime))
    );
    // all fields are read before any is compared
    assert_eq!(
        schedule("5", "110", "y").validate(100, 1),
        Err(ContractError::InvalidField(ScheduleField::VestingInterval))
    );
}

#[test]
fn validate_rejects_a_start_in_the_past() {
    assert_eq!(
        schedule("99", "110", "5").validate(100, 1),
        Err(ContractError::StartInPast)
    );
    assert_eq!(
        schedule("100", "100", "5").validate(105, 1000000),
        Err(ContractError::StartInPast)
    );
}

#[test]
fn validate_rejects_an_end_that_is_not_after_the_start() {
    assert_eq!(
        schedule("105", "105", "5").validate(100, 1),
        Err(ContractError::EndNotAfterStart)
    );
    assert_eq!(
        schedule("105", "100", "5").validate(100, 1),
        Err(ContractError::EndNotAfterStart)
    );
    // the end is compared before the interval is
    assert_eq!(
        schedule("105", "105", "0").validate(100, 1),
        Err(ContractError::EndNotAfterStart)
    );
}

#[test]
fn validate_rejects_a_zero_interval() {
    assert_eq!(
        schedule("105", "110", "0").validate(100, 1),
        Err(ContractError::ZeroInterval)
    );
}

#[test]
fn validate_rejects_a_period_that_is_no_whole_number_of_intervals() {
    assert_eq!(
        schedule("100", "107", "5").validate(100, 1),
        Err(ContractError::NonDivisibleInterval)
    );
    assert_eq!(
        schedule("100", "103", "5").validate(100, 1),
        Err(ContractError::NonDivisibleInterval)
    );
}

#[test]
fn error_messages() {
    assert_eq!(
        ContractError::ZeroAmount.message(),
        "cannot make zero token vesting account"
    );
    assert_eq!(
        ContractError::InvalidField(ScheduleField::StartTime).message(),
        "invalid start_time"
    );
    assert_eq!(
        ContractError::InvalidField(ScheduleField::EndTime).message(),
        "invalid end_time"
    );
    assert_eq!(
        ContractError::InvalidField(ScheduleField::VestingInterval).message(),
        "invalid vesting_interval"
    );
    assert_eq!(ContractError::StartInPast.message(), "invalid start_time");
    assert_eq!(
        ContractError::EndNotAfterStart.message(),
        "end_time must be bigger than start_time"
    );
    assert_eq!(
        ContractError::ZeroInterval.message(),
        "vesting_interval must be non-zero"
    );
    assert_eq!(
        ContractError::NonDivisibleInterval.message(),
        "(end_time - start_time) must be multiple of vesting_interval"
    );
    assert_eq!(
        ContractError::InvalidDeposit.message(),
        "only uluna is allowed to be deposited"
    );
    assert_eq!(ContractError::Unauthorized.message(), "unauthorized");
    assert_eq!(ContractError::NothingToClaim.message(), "nothing to claim");
    assert_eq!(
        ContractError::Overflow {
            vested_amount: 0,
            claimed_amount: u128::MAX
        }
        .message(),
        "Overflow: Cannot Sub with 0 and 340282366920938463463374607431768211455"
    );
    assert_eq!(ContractError::StakingDisabled.message(), "staking disabled");
    assert_eq!(ContractError::AlreadyExists.message(), "already exist");
    assert_eq!(ContractError::UnexpectedCorrelation.message(), "unauthorized");
    assert_eq!(ContractError::MalformedResult.message(), "failed to parse data");
    assert_eq!(ContractError::NotFound.message(), "not found");
}

#[test]
fn vested_amount_of_one_interval() {
    let schedule = schedule("105", "110", "5");
    assert_eq!(schedule.vested_amount(100, 1000000), 0);
    assert_eq!(schedule.vested_amount(105, 1000000), 0);
    assert_eq!(schedule.vested_amount(109, 1000000), 0);
    assert_eq!(schedule.vested_amount(110, 1000000), 1000000);
    assert_eq!(schedule.vested_amount(u64::MAX, 1000000), 1000000);
}

#[test]
fn vested_amount_rounds_down_until_the_end() {
    let schedule = schedule("0", "30", "10");
    assert_eq!(schedule.vested_amount(0, 10), 0);
    assert_eq!(schedule.vested_amount(9, 10), 0);
    assert_eq!(schedule.vested_amount(10, 10), 3);
    assert_eq!(schedule.vested_amount(19, 10), 3);
    assert_eq!(schedule.vested_amount(20, 10), 6);
    assert_eq!(schedule.vested_amount(29, 10), 6);
    assert_eq!(schedule.vested_amount(30, 10), 10);
}

#[test]
fn vested_amount_multiplies_before_it_divides() {
    // 3 * 1 / 3 is 1, where (3 / 3) * 1 would be 1 too, but 2 * 2 / 3 is 1,
    // where (2 / 3) * 2 would be 0
    let schedule = schedule("0", "30", "10");
    assert_eq!(schedule.vested_amount(20, 2), 1);
    assert_eq!(schedule.vested_amount(10, 5), 1);
    assert_eq!(schedule.vested_amount(20, 5), 3);
}

#[test]
fn vested_amount_of_the_largest_deposit() {
    let schedule = schedule("0", "30", "10");
    assert_eq!(
        schedule.vested_amount(10, u128::MAX),
        113427455640312821154458202477256070485
    );
    assert_eq!(
        schedule.vested_amount(20, u128::MAX),
        226854911280625642308916404954512140970
    );
    assert_eq!(schedule.vested_amount(30, u128::MAX), u128::MAX);

    let schedule = schedule_of_seconds();
    assert_eq!(
        schedule.vested_amount(18446744073709551614, u128::MAX),
        340282366920938463444927863358058659838
    );
}

fn schedule_of_seconds() -> VestingSchedule {
    schedule("0", "18446744073709551615", "1")
}

#[test]
fn vested_amount_never_goes_down() {
    let schedule = schedule("100", "200", "7");
    // not a whole number of intervals: the amounts are still in order
    assert_eq!(
        schedule.validate(0, 1000),
        Err(ContractError::NonDivisibleInterval)
    );
    let schedule = self::schedule("100", "198", "7");
    assert_eq!(schedule.validate(0, 1000), Ok(()));
    let mut last = 0;
    for now in 90..210 {
        let vested = schedule.vested_amount(now, 1000);
        assert!(last <= vested);
        assert!(vested <= 1000);
        last = vested;
    }
    assert_eq!(last, 1000);
}

#[test]
fn vested_amount_at_the_end_of_each_interval() {
    let schedule = schedule("100", "198", "7");
    for k in 0..=14u64 {
        assert_eq!(
            schedule.vested_amount(100 + k * 7, 1000),
            1000 * (k as u128) / 14
        );
    }
}
