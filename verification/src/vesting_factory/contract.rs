//! The requests that the factory serves.

use crate::common::vesting::{
    InstantiateMsg as VestingInstantiateMsg, InstantiateMsgView, ScheduleView, VestingSchedule,
};
use crate::common::vesting_factory::{
    ExecuteMsg, ExecuteMsgView, InstantiateMsg, QueryMsg, VestingContractResponse,
    VestingContractResponseView,
};
use crate::error::ContractError;
use crate::response::{
    attr, CoinView, Instruction, InstructionView, MessageInfo, Response, ResponseView,
};
use crate::vesting_factory::response::{
    decoded_payload, parse_payload, InstantiateResponseView, MsgInstantiateContractResponse,
};
use crate::vesting_factory::state::{Config, FactoryModel, LedgerFactory, Registry};
use vstd::prelude::*;

verus! {

/// The token under which the factory asks for the result of a creation.
pub const INSTANTIATE_REPLY_ID: u64 = 1;

/// The result of a creation, as it comes back: the token of the request and
/// the payload, where the result has one.
#[derive(Clone, Debug, PartialEq)]
pub struct Reply {
    pub id: u64,
    pub data: Option<Vec<u8>>,
}

/// The result of a creation as plain values.
pub ghost struct ReplyView {
    pub id: u64,
    pub data: Option<Seq<u8>>,
}

impl View for Reply {
    type V = ReplyView;

    open spec fn view(&self) -> ReplyView {
        ReplyView {
            id: self.id,
            data: match self.data {
                Some(bytes) => Some(bytes@),
                None => None,
            },
        }
    }
}

/// The message that the payload of a result encodes, where the result has a
/// payload and the payload encodes one.
pub open spec fn payload_message(data: Option<Seq<u8>>) -> Option<InstantiateResponseView> {
    match data {
        Some(bytes) => decoded_payload(bytes),
        None => None,
    }
}

impl FactoryModel {
    /// Asking for a ledger: turned down where the owner has one; else the
    /// owner is noted as pending and one instruction asks for the creation,
    /// with the factory as admin of the new ledger.
    pub open spec fn create_vesting_contract(
        self,
        contract_address: Seq<char>,
        funds: Seq<CoinView>,
        owner_address: Seq<char>,
        enable_staking: bool,
        vesting_schedule: ScheduleView,
    ) -> Result<(FactoryModel, ResponseView), ContractError> {
        if self.contracts.dom().contains(owner_address) {
            Err(ContractError::AlreadyExists)
        } else {
            Ok(
                (
                    FactoryModel { pending_owner: Some(owner_address), ..self },
                    ResponseView {
                        messages: seq![
                            InstructionView::Instantiate {
                                admin: Some(contract_address),
                                code_id: self.code_id,
                                msg: InstantiateMsgView {
                                    owner_address,
                                    enable_staking,
                                    vesting_schedule,
                                },
                                funds,
                                label: ""@,
                                reply_id: INSTANTIATE_REPLY_ID,
                            },
                        ],
                        attributes: seq![],
                    },
                ),
            )
        }
    }

    /// Taking in the result of a creation, with the message that its payload
    /// encodes: turned down where the token is not the factory's, where there
    /// is no message, and where no owner is pending; else the pending owner is
    /// bound to the new ledger and is pending no more.
    pub open spec fn on_creation_result(
        self,
        correlation_token: u64,
        message: Option<InstantiateResponseView>,
    ) -> Result<(FactoryModel, ResponseView), ContractError> {
        if correlation_token != INSTANTIATE_REPLY_ID {
            Err(ContractError::UnexpectedCorrelation)
        } else {
            match (message, self.pending_owner) {
                (None, _) => Err(ContractError::MalformedResult),
                (Some(_), None) => Err(ContractError::NotFound),
                (Some(message), Some(owner_address)) => Ok(
                    (
                        FactoryModel {
                            pending_owner: None,
                            contracts: self.contracts.insert(
                                owner_address,
                                message.contract_address,
                            ),
                            ..self
                        },
                        ResponseView {
                            messages: seq![],
                            attributes: seq![
                                attr("action"@, "create_vesting_contract"@),
                                attr("owner_address"@, owner_address),
                                attr("vesting_contract"@, message.contract_address),
                            ],
                        },
                    ),
                ),
            }
        }
    }

    /// Taking in the result of a creation as it comes back: the payload is
    /// decoded, where there is one, and the result is taken in with what came
    /// of that.
    pub open spec fn reply(self, id: u64, data: Option<Seq<u8>>) -> Result<
        (FactoryModel, ResponseView),
        ContractError,
    > {
        self.on_creation_result(id, payload_message(data))
    }

    /// Looking up the ledger of an owner.
    pub open spec fn vesting_contract(self, owner_address: Seq<char>) -> Result<
        VestingContractResponseView,
        ContractError,
    > {
        if self.contracts.dom().contains(owner_address) {
            Ok(
                VestingContractResponseView {
                    owner_address,
                    vesting_contract: self.contracts[owner_address],
                },
            )
        } else {
            Err(ContractError::NotFound)
        }
    }
}

/// Sets up a factory that makes ledgers from the code that `msg` names. It
/// knows no ledger yet and waits for no result.
pub fn instantiate(msg: InstantiateMsg) -> (r: (LedgerFactory, Response))
    ensures
        r.0@ == (FactoryModel {
            code_id: msg.vesting_contract_code_id,
            pending_owner: None,
            contracts: Map::empty(),
        }),
        r.1@ == (ResponseView { messages: seq![], attributes: seq![] }),
{
    let factory = LedgerFactory {
        config: Config { vesting_contract_code_id: msg.vesting_contract_code_id },
        pending_owner: None,
        vesting_contracts: Registry::new(),
    };
    (factory, Response::new())
}

/// Asks for a ledger for `owner_address` over the funds of the message. An
/// owner who has a ledger is turned down, and nothing changes.
pub fn create_vesting_contract(
    factory: &mut LedgerFactory,
    contract_address: String,
    info: MessageInfo,
    owner_address: String,
    enable_staking: bool,
    vesting_schedule: VestingSchedule,
) -> (r: Result<Response, ContractError>)
    ensures
        match old(factory)@.create_vesting_contract(
            contract_address@,
            info@.funds,
            owner_address@,
            enable_staking,
            vesting_schedule@,
        ) {
            Ok((after, response)) => r is Ok && r.unwrap()@ == response && final(factory)@ == after,
            Err(e) => r == Err::<Response, ContractError>(e) && *final(factory) == *old(factory),
        },
{
    if factory.vesting_contracts.contains(&owner_address) {
        return Err(ContractError::AlreadyExists);
    }
    factory.pending_owner = Some(owner_address.clone());
    let mut response = Response::new();
    response.add_message(
        Instruction::Instantiate {
            admin: Some(contract_address),
            code_id: factory.config.vesting_contract_code_id,
            msg: VestingInstantiateMsg { owner_address, enable_staking, vesting_schedule },
            funds: info.funds,
            label: String::new(),
            reply_id: INSTANTIATE_REPLY_ID,
        },
    );
    proof {
        reveal_strlit("");
        let expected = old(factory)@.create_vesting_contract(
            contract_address@,
            info@.funds,
            owner_address@,
            enable_staking,
            vesting_schedule@,
        ).unwrap().1;
        assert(""@ =~= Seq::<char>::empty());
        assert(response@.messages =~= expected.messages);
    }
    Ok(response)
}

/// Serves one request of the sender. `contract_address` is the factory's own
/// address.
pub fn execute(
    factory: &mut LedgerFactory,
    contract_address: String,
    info: MessageInfo,
    msg: ExecuteMsg,
) -> (r: Result<Response, ContractError>)
    ensures
        match msg@ {
            ExecuteMsgView::CreateVestingContract {
                owner_address,
                enable_staking,
                vesting_schedule,
            } => match old(factory)@.create_vesting_contract(
                contract_address@,
                info@.funds,
                owner_address,
                enable_staking,
                vesting_schedule,
            ) {
                Ok((after, response)) => r is Ok && r.unwrap()@ == response && final(factory)@
                    == after,
                Err(e) => r == Err::<Response, ContractError>(e) && *final(factory) == *old(
                    factory,
                ),
            },
        },
{
    match msg {
        ExecuteMsg::CreateVestingContract {
            owner_address,
            enable_staking,
            vesting_schedule,
        } => create_vesting_contract(
            factory,
            contract_address,
            info,
            owner_address,
            enable_staking,
            vesting_schedule,
        ),
    }
}

/// Takes in the result of a creation, with the message that its payload
/// encodes or with none where it encodes none, and binds the pending owner to
/// the ledger that the message names. A result that is turned down changes
/// nothing: the owner stays pending.
pub fn on_creation_result(
    factory: &mut LedgerFactory,
    correlation_token: u64,
    message: Option<MsgInstantiateContractResponse>,
) -> (r: Result<Response, ContractError>)
    ensures
        match old(factory)@.on_creation_result(correlation_token, message.deep_view()) {
            Ok((after, response)) => r is Ok && r.unwrap()@ == response && final(factory)@ == after,
            Err(e) => r == Err::<Response, ContractError>(e) && *final(factory) == *old(factory),
        },
{
    if correlation_token != INSTANTIATE_REPLY_ID {
        return Err(ContractError::UnexpectedCorrelation);
    }
    let message = match message {
        Some(message) => message,
        None => {
            return Err(ContractError::MalformedResult);
        },
    };
    let owner_address = match factory.pending_owner.take() {
        Some(owner_address) => owner_address,
        None => {
            return Err(ContractError::NotFound);
        },
    };
    let mut response = Response::new();
    response.add_attribute("action", "create_vesting_contract");
    response.add_attribute("owner_address", owner_address.as_str());
    response.add_attribute("vesting_contract", message.contract_address.as_str());
    factory.vesting_contracts.insert(owner_address, message.contract_address);
    proof {
        let expected = old(factory)@.on_creation_result(
            correlation_token,
            Some(message@),
        ).unwrap().1;
        assert(response@.attributes =~= expected.attributes);
    }
    Ok(response)
}

/// Takes in the result of a creation as it comes back: decodes the payload,
/// where there is one, and takes the result in with what came of that.
pub fn reply(factory: &mut LedgerFactory, msg: Reply) -> (r: Result<Response, ContractError>)
    ensures
        match old(factory)@.reply(msg@.id, msg@.data) {
            Ok((after, response)) => r is Ok && r.unwrap()@ == response && final(factory)@ == after,
            Err(e) => r == Err::<Response, ContractError>(e) && *final(factory) == *old(factory),
        },
{
    let message = match &msg.data {
        Some(bytes) => parse_payload(bytes.as_slice()),
        None => None,
    };
    on_creation_result(factory, msg.id, message)
}

/// The ledger of `owner_address`, where the factory opened one.
pub fn vesting_contract(factory: &LedgerFactory, owner_address: String) -> (r: Result<
    VestingContractResponse,
    ContractError,
>)
    ensures
        match factory@.vesting_contract(owner_address@) {
            Ok(response) => r is Ok && r.unwrap()@ == response,
            Err(e) => r == Err::<VestingContractResponse, ContractError>(e),
        },
{
    match factory.vesting_contracts.get(&owner_address) {
        Some(vesting_contract) => {
            let vesting_contract = vesting_contract.clone();
            Ok(VestingContractResponse { owner_address, vesting_contract })
        },
        None => Err(ContractError::NotFound),
    }
}

/// Answers a question about the factory.
pub fn query(factory: &LedgerFactory, msg: QueryMsg) -> (r: Result<
    VestingContractResponse,
    ContractError,
>)
    ensures
        match msg {
            QueryMsg::VestingContract { owner_address } => match factory@.vesting_contract(
                owner_address@,
            ) {
                Ok(response) => r is Ok && r.unwrap()@ == response,
                Err(e) => r == Err::<VestingContractResponse, ContractError>(e),
            },
        },
{
    match msg {
        QueryMsg::VestingContract { owner_address } => vesting_contract(factory, owner_address),
    }
}

} // verus!
