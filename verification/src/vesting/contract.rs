//! The requests that a ledger serves.

use crate::common::vesting::{
    lemma_vested_at_most_total, ExecuteMsg, ExecuteMsgView, InstantiateMsg, InstantiateMsgView,
    QueryMsg, VestingInfoResponse, VestingInfoResponseView,
};
use crate::decimal::{decimal, to_decimal};
use crate::error::ContractError;
use crate::response::{
    attr, Coin, CoinView, Instruction, InstructionView, MessageInfo, MessageInfoView, Response,
    ResponseView,
};
use crate::vesting::state::{Config, LedgerModel, VestingInfo, VestingLedger};
use vstd::prelude::*;

verus! {

/// The denomination in which deposits are held and paid out.
pub const VESTING_DENOM: &'static str = "uluna";

/// An amount of the vesting denomination.
pub open spec fn vesting_coin(amount: nat) -> CoinView {
    CoinView { denom: VESTING_DENOM@, amount }
}

/// The instructions that point the staking rewards at `address`, where the
/// ledger stakes at all.
pub open spec fn reward_redirect(staking_enabled: bool, address: Seq<char>) -> Seq<InstructionView> {
    if staking_enabled {
        seq![InstructionView::SetWithdrawAddress { address }]
    } else {
        seq![]
    }
}

/// What opening a ledger gives: the new ledger and the response, or the
/// reason why none is opened.
pub open spec fn instantiate_spec(
    block_time: nat,
    info: MessageInfoView,
    msg: InstantiateMsgView,
) -> Result<(LedgerModel, ResponseView), ContractError> {
    if info.funds.len() != 1 || info.funds[0].denom != VESTING_DENOM@ {
        Err(ContractError::InvalidDeposit)
    } else {
        match msg.vesting_schedule.validate(block_time, info.funds[0].amount) {
            Err(e) => Err(e),
            Ok(_) => Ok(
                (
                    LedgerModel {
                        owner: msg.owner_address,
                        staking_enabled: msg.enable_staking,
                        total_deposit: info.funds[0].amount,
                        schedule: msg.vesting_schedule,
                        claimed_amount: 0,
                    },
                    ResponseView {
                        messages: reward_redirect(msg.enable_staking, msg.owner_address),
                        attributes: seq![
                            attr("action"@, "create_vesting_account"@),
                            attr("owner_address"@, msg.owner_address),
                            attr("vesting_amount"@, decimal(info.funds[0].amount)),
                        ],
                    },
                ),
            ),
        }
    }
}

impl LedgerModel {
    /// Whether `caller` may act on the ledger: only its owner may.
    pub open spec fn authorize(self, caller: Seq<char>) -> Result<(), ContractError> {
        if caller == self.owner {
            Ok(())
        } else {
            Err(ContractError::Unauthorized)
        }
    }

    /// Handing the ledger over: only the owner may, and where the ledger
    /// stakes, the rewards follow the new owner.
    pub open spec fn change_owner(self, caller: Seq<char>, new_owner: Seq<char>) -> Result<
        (LedgerModel, ResponseView),
        ContractError,
    > {
        if self.authorize(caller) is Err {
            Err(ContractError::Unauthorized)
        } else {
            Ok(
                (
                    LedgerModel { owner: new_owner, ..self },
                    ResponseView {
                        messages: reward_redirect(self.staking_enabled, new_owner),
                        attributes: seq![
                            attr("action"@, "change_owner"@),
                            attr("new_owner"@, new_owner),
                        ],
                    },
                ),
            )
        }
    }

    /// Paying out: only the owner may, and only where more has vested than
    /// was paid out. Where exactly as much has vested there is nothing to
    /// claim, and where less has vested the one cannot be taken from the
    /// other. Else the ledger counts everything vested as paid, and one
    /// instruction sends the difference to the recipient, who is the caller
    /// where none is named.
    pub open spec fn claim(self, caller: Seq<char>, recipient: Option<Seq<char>>, now: nat) -> Result<
        (LedgerModel, ResponseView),
        ContractError,
    > {
        let to_address = match recipient {
            Some(r) => r,
            None => caller,
        };
        if self.authorize(caller) is Err {
            Err(ContractError::Unauthorized)
        } else if self.vested(now) < self.claimed_amount {
            Err(
                ContractError::Overflow {
                    vested_amount: self.vested(now) as u128,
                    claimed_amount: self.claimed_amount as u128,
                },
            )
        } else if self.vested(now) == self.claimed_amount {
            Err(ContractError::NothingToClaim)
        } else {
            Ok(
                (
                    LedgerModel { claimed_amount: self.vested(now), ..self },
                    ResponseView {
                        messages: seq![
                            InstructionView::Send {
                                to_address,
                                amount: seq![vesting_coin(self.claimable(now))],
                            },
                        ],
                        attributes: seq![
                            attr("action"@, "claim"@),
                            attr("recipient"@, to_address),
                            attr("vesting_amount"@, decimal(self.total_deposit)),
                            attr("vested_amount"@, decimal(self.vested(now))),
                            attr("claim_amount"@, decimal(self.claimable(now))),
                        ],
                    },
                ),
            )
        }
    }

    /// Whether `caller` may direct the stake: only the owner, and only of a
    /// ledger that stakes.
    pub open spec fn staking_allowed(self, caller: Seq<char>) -> Result<(), ContractError> {
        if self.authorize(caller) is Err {
            Err(ContractError::Unauthorized)
        } else if !self.staking_enabled {
            Err(ContractError::StakingDisabled)
        } else {
            Ok(())
        }
    }

    /// Withdrawing rewards: one instruction for each validator, in the order
    /// given.
    pub open spec fn claim_rewards(self, caller: Seq<char>, validators: Seq<Seq<char>>) -> Result<
        ResponseView,
        ContractError,
    > {
        match self.staking_allowed(caller) {
            Err(e) => Err(e),
            Ok(_) => Ok(
                ResponseView {
                    messages: Seq::new(
                        validators.len(),
                        |i: int| InstructionView::WithdrawDelegatorReward { validator: validators[i] },
                    ),
                    attributes: seq![attr("action"@, "claim_rewards"@)],
                },
            ),
        }
    }

    /// Staking, unstaking and moving a stake: the one instruction is handed on.
    pub open spec fn stake(self, caller: Seq<char>, instruction: InstructionView) -> Result<
        ResponseView,
        ContractError,
    > {
        match self.staking_allowed(caller) {
            Err(e) => Err(e),
            Ok(_) => Ok(ResponseView { messages: seq![instruction], attributes: seq![] }),
        }
    }

    /// The state of the vesting at `now`.
    pub open spec fn status(self, now: nat) -> VestingInfoResponseView {
        VestingInfoResponseView {
            owner_address: self.owner,
            vesting_amount: self.total_deposit,
            vested_amount: self.vested(now),
            vesting_schedule: self.schedule,
            claimed_amount: self.claimed_amount,
            claimable_amount: self.claimable(now),
        }
    }

    /// What a request does to the ledger and what it hands back.
    pub open spec fn execute(self, now: nat, caller: Seq<char>, msg: ExecuteMsgView) -> Result<
        (LedgerModel, ResponseView),
        ContractError,
    > {
        match msg {
            ExecuteMsgView::ChangeOwner { new_owner } => self.change_owner(caller, new_owner),
            ExecuteMsgView::Claim { recipient } => self.claim(caller, recipient, now),
            ExecuteMsgView::ClaimRewards { validators } => match self.claim_rewards(
                caller,
                validators,
            ) {
                Ok(response) => Ok((self, response)),
                Err(e) => Err(e),
            },
            ExecuteMsgView::Delegate { validator, amount } => match self.stake(
                caller,
                InstructionView::Delegate { validator, amount: vesting_coin(amount) },
            ) {
                Ok(response) => Ok((self, response)),
                Err(e) => Err(e),
            },
            ExecuteMsgView::Undelegate { validator, amount } => match self.stake(
                caller,
                InstructionView::Undelegate { validator, amount: vesting_coin(amount) },
            ) {
                Ok(response) => Ok((self, response)),
                Err(e) => Err(e),
            },
            ExecuteMsgView::Redelegate { src_validator, dst_validator, amount } => match self.stake(
                caller,
                InstructionView::Redelegate {
                    src_validator,
                    dst_validator,
                    amount: vesting_coin(amount),
                },
            ) {
                Ok(response) => Ok((self, response)),
                Err(e) => Err(e),
            },
        }
    }
}

/// Whether the sender of a message may act on the ledger: only its owner may.
pub fn authorize(ledger: &VestingLedger, info: &MessageInfo) -> (r: Result<(), ContractError>)
    ensures
        r == ledger@.authorize(info@.sender),
{
    if ledger.config.owner_address == info.sender {
        Ok(())
    } else {
        Err(ContractError::Unauthorized)
    }
}

/// The instructions that point the staking rewards at `address`.
fn redirect_rewards(response: &mut Response, staking_enabled: bool, address: &String)
    ensures
        final(response)@ == (ResponseView {
            messages: old(response)@.messages + reward_redirect(staking_enabled, address@),
            attributes: old(response)@.attributes,
        }),
{
    if staking_enabled {
        response.add_message(Instruction::SetWithdrawAddress { address: address.clone() });
    }
    assert(response@.messages =~= old(response)@.messages + reward_redirect(
        staking_enabled,
        address@,
    ));
}

/// An amount of the vesting denomination.
fn coin_of(amount: u128) -> (r: Coin)
    ensures
        r@ == vesting_coin(amount as nat),
{
    Coin { denom: VESTING_DENOM.to_owned(), amount }
}

/// Opens a ledger for the owner that `msg` names, over the one coin that
/// came with the message.
pub fn instantiate(block_time: u64, info: MessageInfo, msg: InstantiateMsg) -> (r: Result<
    (VestingLedger, Response),
    ContractError,
>)
    ensures
        match instantiate_spec(block_time as nat, info@, msg@) {
            Ok((ledger, response)) => r is Ok && r.unwrap().0@ == ledger && r.unwrap().1@
                == response && ledger.wf(),
            Err(e) => r == Err::<(VestingLedger, Response), ContractError>(e),
        },
{
    let denom = VESTING_DENOM.to_owned();
    if info.funds.len() != 1 || !(info.funds[0].denom == denom) {
        return Err(ContractError::InvalidDeposit);
    }
    let vesting_amount = info.funds[0].amount;
    match msg.vesting_schedule.validate(block_time, vesting_amount) {
        Err(e) => {
            return Err(e);
        },
        Ok(_) => {},
    }
    let mut response = Response::new();
    response.add_attribute("action", "create_vesting_account");
    response.add_attribute("owner_address", msg.owner_address.as_str());
    response.add_attribute("vesting_amount", to_decimal(vesting_amount).as_str());
    redirect_rewards(&mut response, msg.enable_staking, &msg.owner_address);
    let ledger = VestingLedger {
        config: Config { owner_address: msg.owner_address, staking_enabled: msg.enable_staking },
        vesting_info: VestingInfo {
            vesting_amount,
            vesting_schedule: msg.vesting_schedule,
            claimed_amount: 0,
        },
    };
    assert(response@.attributes =~= instantiate_spec(
        block_time as nat,
        info@,
        msg@,
    ).unwrap().1.attributes);
    assert(response@.messages =~= instantiate_spec(
        block_time as nat,
        info@,
        msg@,
    ).unwrap().1.messages);
    Ok((ledger, response))
}

/// Hands the ledger over to `new_owner`. Only the owner may do so.
pub fn change_owner(ledger: &mut VestingLedger, info: MessageInfo, new_owner: String) -> (r: Result<
    Response,
    ContractError,
>)
    ensures
        match old(ledger)@.change_owner(info@.sender, new_owner@) {
            Ok((after, response)) => r is Ok && r.unwrap()@ == response && final(ledger)@ == after,
            Err(e) => r == Err::<Response, ContractError>(e) && *final(ledger) == *old(ledger),
        },
        old(ledger)@.wf() ==> final(ledger)@.wf(),
{
    if authorize(ledger, &info).is_err() {
        return Err(ContractError::Unauthorized);
    }
    let mut response = Response::new();
    redirect_rewards(&mut response, ledger.config.staking_enabled, &new_owner);
    response.add_attribute("action", "change_owner");
    response.add_attribute("new_owner", new_owner.as_str());
    ledger.config.owner_address = new_owner;
    proof {
        let expected = old(ledger)@.change_owner(info@.sender, new_owner@).unwrap().1;
        assert(response@.messages =~= expected.messages);
        assert(response@.attributes =~= expected.attributes);
    }
    Ok(response)
}

/// Pays out what has vested at `block_time` and was not paid out before, to
/// `recipient` or, without one, to the caller. Only the owner may claim. A
/// claim is turned down where exactly what was paid out has vested, and, with
/// another error, where less has.
pub fn claim(
    ledger: &mut VestingLedger,
    block_time: u64,
    info: MessageInfo,
    recipient: Option<String>,
) -> (r: Result<Response, ContractError>)
    requires
        old(ledger)@.wf(),
    ensures
        match old(ledger)@.claim(info@.sender, recipient.deep_view(), block_time as nat) {
            Ok((after, response)) => r is Ok && r.unwrap()@ == response && final(ledger)@ == after,
            Err(e) => r == Err::<Response, ContractError>(e) && *final(ledger) == *old(ledger),
        },
        final(ledger)@.wf(),
{
    if authorize(ledger, &info).is_err() {
        return Err(ContractError::Unauthorized);
    }
    let ghost expected = ledger@.claim(info@.sender, recipient.deep_view(), block_time as nat);
    let to_address = match recipient {
        Some(r) => r,
        None => info.sender,
    };
    let vesting_amount = ledger.vesting_info.vesting_amount;
    let vested_amount = ledger.vesting_info.vesting_schedule.vested_amount(
        block_time,
        vesting_amount,
    );
    proof {
        lemma_vested_at_most_total(
            ledger@.schedule.terms().unwrap(),
            block_time as nat,
            vesting_amount as nat,
        );
    }
    let claimed_amount = ledger.vesting_info.claimed_amount;
    if vested_amount < claimed_amount {
        return Err(ContractError::Overflow { vested_amount, claimed_amount });
    }
    if vested_amount == claimed_amount {
        return Err(ContractError::NothingToClaim);
    }
    let claimable_amount = vested_amount - claimed_amount;
    ledger.vesting_info.claimed_amount = vested_amount;

    let amount = vec![coin_of(claimable_amount)];
    assert(amount.deep_view() =~= seq![vesting_coin(claimable_amount as nat)]);
    let mut response = Response::new();
    response.add_attribute("action", "claim");
    response.add_attribute("recipient", to_address.as_str());
    response.add_attribute("vesting_amount", to_decimal(vesting_amount).as_str());
    response.add_attribute("vested_amount", to_decimal(vested_amount).as_str());
    response.add_attribute("claim_amount", to_decimal(claimable_amount).as_str());
    response.add_message(Instruction::Send { to_address, amount });
    proof {
        assert(response@.messages =~= expected.unwrap().1.messages);
        assert(response@.attributes =~= expected.unwrap().1.attributes);
    }
    Ok(response)
}

/// Whether the sender may direct the stake of the ledger.
fn check_staking(ledger: &VestingLedger, info: &MessageInfo) -> (r: Result<(), ContractError>)
    ensures
        r == ledger@.staking_allowed(info@.sender),
{
    if authorize(ledger, info).is_err() {
        return Err(ContractError::Unauthorized);
    }
    if !ledger.config.staking_enabled {
        return Err(ContractError::StakingDisabled);
    }
    Ok(())
}

/// Withdraws the staking rewards held at each of `validators`, in that
/// order. Only the owner may, and only where the ledger stakes.
pub fn claim_rewards(ledger: &VestingLedger, info: MessageInfo, validators: Vec<String>) -> (r: Result<
    Response,
    ContractError,
>)
    ensures
        match ledger@.claim_rewards(info@.sender, validators.deep_view()) {
            Ok(response) => r is Ok && r.unwrap()@ == response,
            Err(e) => r == Err::<Response, ContractError>(e),
        },
{
    match check_staking(ledger, &info) {
        Err(e) => {
            return Err(e);
        },
        Ok(_) => {},
    }
    let mut response = Response::new();
    response.add_attribute("action", "claim_rewards");
    let ghost expected = ledger@.claim_rewards(info@.sender, validators.deep_view()).unwrap();
    let mut i: usize = 0;
    while i < validators.len()
        invariant
            i <= validators.len(),
            expected == ledger@.claim_rewards(info@.sender, validators.deep_view()).unwrap(),
            ledger@.staking_allowed(info@.sender) is Ok,
            response@.attributes == expected.attributes,
            response@.messages == expected.messages.subrange(0, i as int),
        decreases validators.len() - i,
    {
        response.add_message(
            Instruction::WithdrawDelegatorReward { validator: validators[i].clone() },
        );
        assert(response@.messages =~= expected.messages.subrange(0, i + 1));
        i = i + 1;
    }
    assert(response@.messages =~= expected.messages);
    Ok(response)
}

/// Stakes `amount` of the deposit with `validator`. Only the owner may, and
/// only where the ledger stakes.
pub fn delegate(ledger: &VestingLedger, info: MessageInfo, validator: String, amount: u128) -> (r:
    Result<Response, ContractError>)
    ensures
        match ledger@.stake(
            info@.sender,
            InstructionView::Delegate { validator: validator@, amount: vesting_coin(amount as nat) },
        ) {
            Ok(response) => r is Ok && r.unwrap()@ == response,
            Err(e) => r == Err::<Response, ContractError>(e),
        },
{
    match check_staking(ledger, &info) {
        Err(e) => {
            return Err(e);
        },
        Ok(_) => {},
    }
    let mut response = Response::new();
    response.add_message(Instruction::Delegate { validator, amount: coin_of(amount) });
    assert(response@.messages =~= seq![
        InstructionView::Delegate { validator: validator@, amount: vesting_coin(amount as nat) },
    ]);
    Ok(response)
}

/// Takes `amount` back from `validator`. Only the owner may, and only where
/// the ledger stakes.
pub fn undelegate(ledger: &VestingLedger, info: MessageInfo, validator: String, amount: u128) -> (r:
    Result<Response, ContractError>)
    ensures
        match ledger@.stake(
            info@.sender,
            InstructionView::Undelegate { validator: validator@, amount: vesting_coin(amount as nat) },
        ) {
            Ok(response) => r is Ok && r.unwrap()@ == response,
            Err(e) => r == Err::<Response, ContractError>(e),
        },
{
    match check_staking(ledger, &info) {
        Err(e) => {
            return Err(e);
        },
        Ok(_) => {},
    }
    let mut response = Response::new();
    response.add_message(Instruction::Undelegate { validator, amount: coin_of(amount) });
    assert(response@.messages =~= seq![
        InstructionView::Undelegate { validator: validator@, amount: vesting_coin(amount as nat) },
    ]);
    Ok(response)
}

/// Moves a stake of `amount` from `src_validator` to `dst_validator`. Only
/// the owner may, and only where the ledger stakes.
pub fn redelegate(
    ledger: &VestingLedger,
    info: MessageInfo,
    src_validator: String,
    dst_validator: String,
    amount: u128,
) -> (r: Result<Response, ContractError>)
    ensures
        match ledger@.stake(
            info@.sender,
            InstructionView::Redelegate {
                src_validator: src_validator@,
                dst_validator: dst_validator@,
                amount: vesting_coin(amount as nat),
            },
        ) {
            Ok(response) => r is Ok && r.unwrap()@ == response,
            Err(e) => r == Err::<Response, ContractError>(e),
        },
{
    match check_staking(ledger, &info) {
        Err(e) => {
            return Err(e);
        },
        Ok(_) => {},
    }
    let mut response = Response::new();
    response.add_message(
        Instruction::Redelegate { src_validator, dst_validator, amount: coin_of(amount) },
    );
    assert(response@.messages =~= seq![
        InstructionView::Redelegate {
            src_validator: src_validator@,
            dst_validator: dst_validator@,
            amount: vesting_coin(amount as nat),
        },
    ]);
    Ok(response)
}

/// Serves one request of the sender at `block_time`. A request that is turned
/// down leaves the ledger as it was. Only a claim reads the schedule, so only a
/// claim needs a ledger that is well formed.
pub fn execute(ledger: &mut VestingLedger, block_time: u64, info: MessageInfo, msg: ExecuteMsg) -> (r:
    Result<Response, ContractError>)
    requires
        msg is Claim ==> old(ledger)@.wf(),
    ensures
        match old(ledger)@.execute(block_time as nat, info@.sender, msg@) {
            Ok((after, response)) => r is Ok && r.unwrap()@ == response && final(ledger)@ == after,
            Err(e) => r == Err::<Response, ContractError>(e) && *final(ledger) == *old(ledger),
        },
        old(ledger)@.wf() ==> final(ledger)@.wf(),
{
    match msg {
        ExecuteMsg::ChangeOwner { new_owner } => change_owner(ledger, info, new_owner),
        ExecuteMsg::Claim { recipient } => claim(ledger, block_time, info, recipient),
        ExecuteMsg::ClaimRewards { validators } => claim_rewards(ledger, info, validators),
        ExecuteMsg::Delegate { validator, amount } => delegate(ledger, info, validator, amount),
        ExecuteMsg::Undelegate { validator, amount } => undelegate(ledger, info, validator, amount),
        ExecuteMsg::Redelegate { src_validator, dst_validator, amount } => redelegate(
            ledger,
            info,
            src_validator,
            dst_validator,
            amount,
        ),
    }
}

/// The state of the vesting at `block_time`.
pub fn vesting_account(ledger: &VestingLedger, block_time: u64) -> (r: VestingInfoResponse)
    requires
        ledger@.wf(),
    ensures
        r@ == ledger@.status(block_time as nat),
{
    let vesting_amount = ledger.vesting_info.vesting_amount;
    let claimed_amount = ledger.vesting_info.claimed_amount;
    let vested_amount = ledger.vesting_info.vesting_schedule.vested_amount(
        block_time,
        vesting_amount,
    );
    proof {
        lemma_vested_at_most_total(
            ledger@.schedule.terms().unwrap(),
            block_time as nat,
            vesting_amount as nat,
        );
    }
    let claimable_amount = if vested_amount >= claimed_amount {
        vested_amount - claimed_amount
    } else {
        0
    };
    VestingInfoResponse {
        owner_address: ledger.config.owner_address.clone(),
        vesting_amount,
        vested_amount,
        vesting_schedule: ledger.vesting_info.vesting_schedule.clone(),
        claimed_amount,
        claimable_amount,
    }
}

/// Answers a question about the ledger at `block_time`.
pub fn query(ledger: &VestingLedger, block_time: u64, msg: QueryMsg) -> (r: VestingInfoResponse)
    requires
        ledger@.wf(),
    ensures
        r@ == ledger@.status(block_time as nat),
{
    match msg {
        QueryMsg::VestingInfo {  } => vesting_account(ledger, block_time),
    }
}


} // verus!
