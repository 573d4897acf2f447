use vesting_contracts::common::vesting::{
    ExecuteMsg, InstantiateMsg, QueryMsg, VestingSchedule,
};
use vesting_contracts::error::{ContractError, ScheduleField};
use vesting_contracts::response::{Attribute, Coin, Instruction, MessageInfo, Response};
use vesting_contracts::vesting::contract::{
    authorize, change_owner, claim, claim_rewards, delegate, execute, instantiate, query,
    redelegate, undelegate, vesting_account, VESTING_DENOM,
};
use vesting_contracts::vesting::state::{Config, VestingInfo, VestingLedger};

fn uluna(amount: u128) -> Coin {
    Coin {
        denom: "uluna".to_string(),
        amount,
    }
}

fn from(sender: &str) -> MessageInfo {
    MessageInfo {
        sender: sender.to_string(),
        funds: vec![],
    }
}

fn open(start: &str, end: &str, interval: &str, amount: u128, staking: bool) -> VestingLedger {
    let msg = InstantiateMsg {
        owner_address: "owner0001".to_string(),
        enable_staking: staking,
        vesting_schedule: VestingSchedule {
            start_time: start.to_string(),
            end_time: end.to_string(),
            vesting_interval: interval.to_string(),
        },
    };
    let info = MessageInfo {
        sender: "addr0000".to_string(),
        funds: vec![uluna(amount)],
    };
    instantiate(0, info, msg).unwrap().0
}

fn paid(response: &Response) -> u128 {
    response
        .messages
        .iter()
        .map(|message| match message {
            Instruction::Send { amount, .. } => amount.iter().map(|coin| coin.amount).sum(),
            _ => 0,
        })
        .sum()
}

#[test]
fn the_vesting_denomination() {
    assert_eq!(VESTING_DENOM, "uluna");
}

#[test]
fn instantiate_opens_a_ledger_on_which_nothing_is_claimed() {
    let ledger = open("105", "110", "5", 1000000, true);
    assert_eq!(
        ledger,
        VestingLedger {
            config: Config {
                owner_address: "owner0001".to_string(),
                staking_enabled: true,
            },
            vesting_info: VestingInfo {
                vesting_amount: 1000000,
                vesting_schedule: VestingSchedule {
                    start_time: "105".to_string(),
                    end_time: "110".to_string(),
                    vesting_interval: "5".to_string(),
                },
                claimed_amount: 0,
            },
        }
    );
    assert!(ledger.is_well_formed());
}

#[test]
fn instantiate_wants_one_coin_of_the_vesting_denomination() {
    let msg = InstantiateMsg {
        owner_address: "owner0001".to_string(),
        enable_staking: false,
        vesting_schedule: VestingSchedule {
            start_time: "105".to_string(),
            end_time: "110".to_string(),
            vesting_interval: "5".to_string(),
        },
    };
    let deposits = vec![
        vec![],
        vec![uluna(1), uluna(1)],
        vec![Coin {
            denom: "uusd".to_string(),
            amount: 1000000,
        }],
        vec![
            uluna(1),
            Coin {
                denom: "uusd".to_string(),
                amount: 1,
            },
        ],
        vec![Coin {
            denom: "ULUNA".to_string(),
            amount: 1,
        }],
    ];
    for funds in deposits {
        let info = MessageInfo {
            sender: "addr0000".to_string(),
            funds,
        };
        let res = instantiate(100, info, msg.clone()).unwrap_err();
        assert_eq!(res, ContractError::InvalidDeposit);
        assert_eq!(res.message(), "only uluna is allowed to be deposited");
    }
}

#[test]
fn instantiate_hands_on_what_the_schedule_is_rejected_for() {
    let cases = [
        (("105", "110", "5"), 0u128, ContractError::ZeroAmount),
        (
            ("soon", "110", "5"),
            1,
            ContractError::InvalidField(ScheduleField::StartTime),
        ),
        (
            ("105", "later", "5"),
            1,
            ContractError::InvalidField(ScheduleField::EndTime),
        ),
        (
            ("105", "110", "often"),
            1,
            ContractError::InvalidField(ScheduleField::VestingInterval),
        ),
        (("99", "110", "5"), 1, ContractError::StartInPast),
        (("105", "105", "5"), 1, ContractError::EndNotAfterStart),
        (("105", "110", "0"), 1, ContractError::ZeroInterval),
        (("100", "107", "5"), 1, ContractError::NonDivisibleInterval),
    ];
    for ((start, end, interval), amount, error) in cases {
        let msg = InstantiateMsg {
            owner_address: "owner0001".to_string(),
            enable_staking: true,
            vesting_schedule: VestingSchedule {
                start_time: start.to_string(),
                end_time: end.to_string(),
                vesting_interval: interval.to_string(),
            },
        };
        let info = MessageInfo {
            sender: "addr0000".to_string(),
            funds: vec![uluna(amount)],
        };
        assert_eq!(instantiate(100, info, msg).unwrap_err(), error);
    }
}

#[test]
fn only_the_owner_is_authorized() {
    let ledger = open("105", "110", "5", 1000000, false);
    assert_eq!(authorize(&ledger, &from("owner0001")), Ok(()));
    assert_eq!(
        authorize(&ledger, &from("owner0002")),
        Err(ContractError::Unauthorized)
    );
    assert_eq!(
        authorize(&ledger, &from("")),
        Err(ContractError::Unauthorized)
    );
    assert_eq!(
        authorize(&ledger, &from("Owner0001")),
        Err(ContractError::Unauthorized)
    );
}

#[test]
fn vesting_of_one_interval_pays_everything_at_the_end() {
    let mut ledger = open("105", "110", "5", 1000000, false);
    assert_eq!(vesting_account(&ledger, 100).vested_amount, 0);
    assert_eq!(vesting_account(&ledger, 105).vested_amount, 0);
    assert_eq!(vesting_account(&ledger, 110).vested_amount, 1000000);
    assert_eq!(vesting_account(&ledger, 1000).vested_amount, 1000000);

    let res = claim(&mut ledger, 105, from("owner0001"), None);
    assert_eq!(res, Err(ContractError::NothingToClaim));
    let res = claim(&mut ledger, 110, from("owner0001"), None).unwrap();
    assert_eq!(paid(&res), 1000000);
    assert_eq!(ledger.vesting_info.claimed_amount, 1000000);
}

#[test]
fn vesting_of_two_intervals_pays_half_and_half() {
    let mut ledger = open("100", "110", "5", 1000000, false);
    assert_eq!(vesting_account(&ledger, 100).vested_amount, 0);
    assert_eq!(vesting_account(&ledger, 105).vested_amount, 500000);
    assert_eq!(vesting_account(&ledger, 110).vested_amount, 1000000);
    assert_eq!(vesting_account(&ledger, 111).vested_amount, 1000000);

    let first = claim(&mut ledger, 105, from("owner0001"), None).unwrap();
    let second = claim(&mut ledger, 110, from("owner0001"), None).unwrap();
    assert_eq!(paid(&first), 500000);
    assert_eq!(paid(&second), 500000);
    assert_eq!(paid(&first) + paid(&second), 1000000);
}

#[test]
fn claim_twice_at_one_time_finds_nothing_the_second_time() {
    let mut ledger = open("100", "110", "5", 1000000, false);
    claim(&mut ledger, 105, from("owner0001"), None).unwrap();
    let after_first = ledger.clone();
    let res = claim(&mut ledger, 105, from("owner0001"), None).unwrap_err();
    assert_eq!(res, ContractError::NothingToClaim);
    assert_eq!(res.message(), "nothing to claim");
    assert_eq!(ledger, after_first);
    // nor within the same interval
    let res = claim(
        &mut ledger,
        109,
        from("owner0001"),
        Some("addr0001".to_string()),
    );
    assert_eq!(res, Err(ContractError::NothingToClaim));
    assert_eq!(ledger, after_first);
}

#[test]
fn claim_before_the_start_finds_nothing() {
    let mut ledger = open("100", "110", "5", 1000000, false);
    let before = ledger.clone();
    for now in [0, 99, 100, 104] {
        let res = claim(&mut ledger, now, from("owner0001"), None);
        assert_eq!(res, Err(ContractError::NothingToClaim));
    }
    assert_eq!(ledger, before);
}

#[test]
fn claim_at_an_earlier_time_cannot_subtract() {
    let mut ledger = open("100", "110", "5", 1000000, false);
    claim(&mut ledger, 110, from("owner0001"), None).unwrap();
    let after = ledger.clone();
    let res = claim(&mut ledger, 105, from("owner0001"), None).unwrap_err();
    assert_eq!(
        res,
        ContractError::Overflow {
            vested_amount: 500000,
            claimed_amount: 1000000,
        }
    );
    assert_eq!(
        res.message(),
        "Overflow: Cannot Sub with 500000 and 1000000"
    );
    assert_eq!(ledger, after);
    // before the start nothing has vested at all
    let res = claim(&mut ledger, 99, from("owner0001"), Some("addr0001".to_string()));
    assert_eq!(
        res,
        Err(ContractError::Overflow {
            vested_amount: 0,
            claimed_amount: 1000000,
        })
    );
    assert_eq!(ledger, after);
    // whoever is not the owner is told so first
    let res = claim(&mut ledger, 105, from("addr0000"), None);
    assert_eq!(res, Err(ContractError::Unauthorized));
    // at the time of the last claim, and after it, there is nothing to claim
    for now in [110, 111, 1000] {
        let res = claim(&mut ledger, now, from("owner0001"), None);
        assert_eq!(res, Err(ContractError::NothingToClaim));
    }
    assert_eq!(ledger, after);
    let info = vesting_account(&ledger, 105);
    assert_eq!(info.vested_amount, 500000);
    assert_eq!(info.claimed_amount, 1000000);
    assert_eq!(info.claimable_amount, 0);
}

#[test]
fn claims_never_add_up_to_more_than_the_deposit() {
    let mut ledger = open("100", "170", "10", 1000, false);
    let mut sum = 0;
    let mut claims = vec![];
    for now in [
        90, 100, 109, 110, 110, 125, 130, 131, 139, 140, 165, 169, 170, 171, 500,
    ] {
        let owner = ledger.config.owner_address.clone();
        match claim(&mut ledger, now, from(&owner), None) {
            Ok(response) => {
                sum += paid(&response);
                claims.push((now, paid(&response)));
            }
            Err(error) => assert_eq!(error, ContractError::NothingToClaim),
        }
        assert!(sum <= 1000);
        assert_eq!(sum, ledger.vesting_info.claimed_amount);
    }
    assert_eq!(
        claims,
        vec![(110, 142), (125, 143), (130, 143), (140, 143), (165, 286), (170, 143)]
    );
    assert_eq!(sum, 1000);
}

#[test]
fn claim_counts_what_has_vested_not_what_was_paid() {
    // 10 over three intervals: 3, 6 and 10 have vested at their ends
    let mut ledger = open("0", "30", "10", 10, false);
    let mut amounts = vec![];
    for now in [10, 20, 30] {
        let response = claim(&mut ledger, now, from("owner0001"), None).unwrap();
        amounts.push(paid(&response));
        assert_eq!(
            ledger.vesting_info.claimed_amount,
            vesting_account(&ledger, now).vested_amount
        );
    }
    assert_eq!(amounts, vec![3, 3, 4]);
}

#[test]
fn claim_pays_the_recipient_or_else_the_caller() {
    let mut ledger = open("100", "110", "5", 1000000, false);
    let res = claim(
        &mut ledger,
        105,
        from("owner0001"),
        Some("addr0001".to_string()),
    )
    .unwrap();
    assert_eq!(
        res.messages,
        vec![Instruction::Send {
            to_address: "addr0001".to_string(),
            amount: vec![uluna(500000)],
        }]
    );
    assert_eq!(res.attributes[1].value, "addr0001");
    let res = claim(&mut ledger, 110, from("owner0001"), None).unwrap();
    assert_eq!(
        res.messages,
        vec![Instruction::Send {
            to_address: "owner0001".to_string(),
            amount: vec![uluna(500000)],
        }]
    );
    assert_eq!(res.attributes[1].value, "owner0001");
}

#[test]
fn the_former_owner_may_not_claim_and_the_new_owner_may() {
    let mut ledger = open("100", "110", "5", 1000000, false);
    change_owner(&mut ledger, from("owner0001"), "owner0002".to_string()).unwrap();
    assert_eq!(ledger.config.owner_address, "owner0002");

    let res = claim(&mut ledger, 105, from("owner0001"), None);
    assert_eq!(res, Err(ContractError::Unauthorized));
    assert_eq!(ledger.vesting_info.claimed_amount, 0);

    let res = claim(&mut ledger, 105, from("owner0002"), None).unwrap();
    assert_eq!(
        res.messages,
        vec![Instruction::Send {
            to_address: "owner0002".to_string(),
            amount: vec![uluna(500000)],
        }]
    );
    assert_eq!(ledger.vesting_info.claimed_amount, 500000);

    // the former owner may not take the ledger back either
    let res = change_owner(&mut ledger, from("owner0001"), "owner0001".to_string());
    assert_eq!(res, Err(ContractError::Unauthorized));
    assert_eq!(ledger.config.owner_address, "owner0002");
}

#[test]
fn an_owner_who_hands_the_ledger_to_themselves_stays_the_owner() {
    let mut ledger = open("100", "110", "5", 1000000, true);
    let res = change_owner(&mut ledger, from("owner0001"), "owner0001".to_string()).unwrap();
    assert_eq!(
        res.messages,
        vec![Instruction::SetWithdrawAddress {
            address: "owner0001".to_string()
        }]
    );
    assert!(claim(&mut ledger, 105, from("owner0001"), None).is_ok());
}

#[test]
fn change_owner_reports_the_new_owner() {
    let mut ledger = open("105", "110", "5", 1000000, false);
    let before = ledger.vesting_info.clone();
    let res = change_owner(&mut ledger, from("owner0001"), "owner0002".to_string()).unwrap();
    assert_eq!(res.messages, vec![]);
    assert_eq!(
        res.attributes,
        vec![
            Attribute {
                key: "action".to_string(),
                value: "change_owner".to_string()
            },
            Attribute {
                key: "new_owner".to_string(),
                value: "owner0002".to_string()
            },
        ]
    );
    assert_eq!(ledger.vesting_info, before);
    assert!(!ledger.config.staking_enabled);
}

#[test]
fn staking_is_turned_down_where_it_is_disabled() {
    let mut ledger = open("105", "110", "5", 1000000, false);
    let before = ledger.clone();

    let res = delegate(&ledger, from("owner0001"), "validator1".to_string(), 100).unwrap_err();
    assert_eq!(res, ContractError::StakingDisabled);
    assert_eq!(res.message(), "staking disabled");
    assert_eq!(
        undelegate(&ledger, from("owner0001"), "validator1".to_string(), 100),
        Err(ContractError::StakingDisabled)
    );
    assert_eq!(
        redelegate(
            &ledger,
            from("owner0001"),
            "validator1".to_string(),
            "validator2".to_string(),
            100
        ),
        Err(ContractError::StakingDisabled)
    );
    assert_eq!(
        claim_rewards(&ledger, from("owner0001"), vec!["validator1".to_string()]),
        Err(ContractError::StakingDisabled)
    );
    assert_eq!(
        claim_rewards(&ledger, from("owner0001"), vec![]),
        Err(ContractError::StakingDisabled)
    );

    let requests = vec![
        ExecuteMsg::Delegate {
            validator: "validator1".to_string(),
            amount: 100,
        },
        ExecuteMsg::Undelegate {
            validator: "validator1".to_string(),
            amount: 100,
        },
        ExecuteMsg::Redelegate {
            src_validator: "validator1".to_string(),
            dst_validator: "validator2".to_string(),
            amount: 100,
        },
        ExecuteMsg::ClaimRewards {
            validators: vec!["validator1".to_string(), "validator2".to_string()],
        },
    ];
    for msg in requests {
        // whoever is not the owner is told so first
        assert_eq!(
            execute(&mut ledger, 105, from("addr0000"), msg.clone()),
            Err(ContractError::Unauthorized)
        );
        assert_eq!(
            execute(&mut ledger, 105, from("owner0001"), msg),
            Err(ContractError::StakingDisabled)
        );
    }
    assert_eq!(ledger, before);
}

#[test]
fn staking_emits_one_instruction() {
    let mut ledger = open("105", "110", "5", 1000000, true);
    let before = ledger.clone();

    let res = execute(
        &mut ledger,
        100,
        from("owner0001"),
        ExecuteMsg::Delegate {
            validator: "validator1".to_string(),
            amount: 100,
        },
    )
    .unwrap();
    assert_eq!(
        res.messages,
        vec![Instruction::Delegate {
            validator: "validator1".to_string(),
            amount: uluna(100),
        }]
    );
    assert_eq!(res.attributes, vec![]);

    let res = execute(
        &mut ledger,
        100,
        from("owner0001"),
        ExecuteMsg::Undelegate {
            validator: "validator1".to_string(),
            amount: 40,
        },
    )
    .unwrap();
    assert_eq!(
        res.messages,
        vec![Instruction::Undelegate {
            validator: "validator1".to_string(),
            amount: uluna(40),
        }]
    );
    assert_eq!(res.attributes, vec![]);

    let res = execute(
        &mut ledger,
        100,
        from("owner0001"),
        ExecuteMsg::Redelegate {
            src_validator: "validator1".to_string(),
            dst_validator: "validator2".to_string(),
            amount: u128::MAX,
        },
    )
    .unwrap();
    assert_eq!(
        res.messages,
        vec![Instruction::Redelegate {
            src_validator: "validator1".to_string(),
            dst_validator: "validator2".to_string(),
            amount: uluna(u128::MAX),
        }]
    );
    assert_eq!(res.attributes, vec![]);

    for msg in [
        ExecuteMsg::Delegate {
            validator: "validator1".to_string(),
            amount: 100,
        },
        ExecuteMsg::Undelegate {
            validator: "validator1".to_string(),
            amount: 100,
        },
        ExecuteMsg::Redelegate {
            src_validator: "validator1".to_string(),
            dst_validator: "validator2".to_string(),
            amount: 100,
        },
    ] {
        assert_eq!(
            execute(&mut ledger, 100, from("addr0000"), msg),
            Err(ContractError::Unauthorized)
        );
    }
    assert_eq!(ledger, before);
}

#[test]
fn claim_rewards_withdraws_from_each_validator_in_order() {
    let ledger = open("105", "110", "5", 1000000, true);
    let res = claim_rewards(
        &ledger,
        from("owner0001"),
        vec![
            "validator2".to_string(),
            "validator1".to_string(),
            "validator2".to_string(),
        ],
    )
    .unwrap();
    assert_eq!(
        res.messages,
        vec![
            Instruction::WithdrawDelegatorReward {
                validator: "validator2".to_string()
            },
            Instruction::WithdrawDelegatorReward {
                validator: "validator1".to_string()
            },
            Instruction::WithdrawDelegatorReward {
                validator: "validator2".to_string()
            },
        ]
    );
}

#[test]
fn claim_rewards_from_no_validator_does_nothing() {
    let ledger = open("105", "110", "5", 1000000, true);
    let res = claim_rewards(&ledger, from("owner0001"), vec![]).unwrap();
    assert_eq!(res.messages, vec![]);
    assert_eq!(
        res.attributes,
        vec![Attribute {
            key: "action".to_string(),
            value: "claim_rewards".to_string()
        }]
    );
}

#[test]
fn query_changes_nothing() {
    let mut ledger = open("100", "110", "5", 1000000, false);
    claim(&mut ledger, 105, from("owner0001"), None).unwrap();
    let before = ledger.clone();
    let info = query(&ledger, 110, QueryMsg::VestingInfo {});
    assert_eq!(info.owner_address, "owner0001");
    assert_eq!(info.vesting_amount, 1000000);
    assert_eq!(info.vested_amount, 1000000);
    assert_eq!(info.claimed_amount, 500000);
    assert_eq!(info.claimable_amount, 500000);
    assert_eq!(ledger, before);
}

#[test]
fn a_ledger_is_well_formed_or_not() {
    let good = open("105", "110", "5", 1000000, false);
    assert!(good.is_well_formed());

    let mut overpaid = good.clone();
    overpaid.vesting_info.claimed_amount = 1000001;
    assert!(!overpaid.is_well_formed());

    let mut empty = good.clone();
    empty.vesting_info.vesting_amount = 0;
    empty.vesting_info.claimed_amount = 0;
    assert!(!empty.is_well_formed());

    let mut unreadable = good.clone();
    unreadable.vesting_info.vesting_schedule.end_time = "never".to_string();
    assert!(!unreadable.is_well_formed());

    let mut uneven = good.clone();
    uneven.vesting_info.vesting_schedule.end_time = "111".to_string();
    assert!(!uneven.is_well_formed());

    let mut paid_up = good;
    paid_up.vesting_info.claimed_amount = 1000000;
    assert!(paid_up.is_well_formed());
}
