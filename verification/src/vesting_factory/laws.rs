//! What holds of the factory over any number of requests.

use crate::common::vesting::ScheduleView;
use crate::error::ContractError;
use crate::response::{CoinView, ResponseView};
use crate::vesting_factory::response::InstantiateResponseView;
use crate::vesting_factory::contract::INSTANTIATE_REPLY_ID;
use crate::vesting_factory::state::FactoryModel;
use vstd::prelude::*;

verus! {

/// One request to the factory: to create a ledger, or to take in the result
/// of a creation with the message that its payload encodes.
pub ghost enum FactoryRequest {
    Create {
        contract_address: Seq<char>,
        funds: Seq<CoinView>,
        owner_address: Seq<char>,
        enable_staking: bool,
        vesting_schedule: ScheduleView,
    },
    Result { correlation_token: u64, message: Option<InstantiateResponseView> },
}

/// What a request does to the factory and what it hands back.
pub open spec fn outcome(factory: FactoryModel, request: FactoryRequest) -> Result<
    (FactoryModel, ResponseView),
    ContractError,
> {
    match request {
        FactoryRequest::Create {
            contract_address,
            funds,
            owner_address,
            enable_staking,
            vesting_schedule,
        } => factory.create_vesting_contract(
            contract_address,
            funds,
            owner_address,
            enable_staking,
            vesting_schedule,
        ),
        FactoryRequest::Result { correlation_token, message } => factory.on_creation_result(
            correlation_token,
            message,
        ),
    }
}

/// The factory after one request. A request that is turned down leaves it as
/// it was.
pub open spec fn step(factory: FactoryModel, request: FactoryRequest) -> FactoryModel {
    match outcome(factory, request) {
        Ok((after, _)) => after,
        Err(_) => factory,
    }
}

/// The factory after a sequence of requests, served in order.
pub open spec fn run(factory: FactoryModel, requests: Seq<FactoryRequest>) -> FactoryModel
    decreases requests.len(),
{
    if requests.len() == 0 {
        factory
    } else {
        step(run(factory, requests.drop_last()), requests.last())
    }
}

/// No owner is pending who has a ledger.
pub open spec fn coherent(factory: FactoryModel) -> bool {
    factory.pending_owner matches Some(owner) ==> !factory.contracts.dom().contains(owner)
}

/// Every binding of `earlier` is a binding of `later`.
pub open spec fn keeps_bindings(earlier: FactoryModel, later: FactoryModel) -> bool {
    forall|owner: Seq<char>| #[trigger]
        earlier.contracts.dom().contains(owner) ==> later.contracts.dom().contains(owner)
            && later.contracts[owner] == earlier.contracts[owner]
}

/// A request for an owner who has a ledger is turned down, whatever else it
/// says, and so emits nothing and leaves the factory as it was.
pub proof fn lemma_bound_owner_is_turned_down(
    factory: FactoryModel,
    contract_address: Seq<char>,
    funds: Seq<CoinView>,
    owner_address: Seq<char>,
    enable_staking: bool,
    vesting_schedule: ScheduleView,
)
    requires
        factory.contracts.dom().contains(owner_address),
    ensures
        factory.create_vesting_contract(
            contract_address,
            funds,
            owner_address,
            enable_staking,
            vesting_schedule,
        ) == Err::<(FactoryModel, ResponseView), ContractError>(ContractError::AlreadyExists),
        step(
            factory,
            FactoryRequest::Create {
                contract_address,
                funds,
                owner_address,
                enable_staking,
                vesting_schedule,
            },
        ) == factory,
{
}

/// One request keeps the factory coherent, keeps its code, and keeps every
/// binding as it was.
pub proof fn lemma_step(factory: FactoryModel, request: FactoryRequest)
    requires
        coherent(factory),
    ensures
        coherent(step(factory, request)),
        step(factory, request).code_id == factory.code_id,
        keeps_bindings(factory, step(factory, request)),
{
}

/// However many requests the factory serves, it stays coherent, and every
/// owner who had a ledger has that same ledger afterwards.
pub proof fn lemma_run(factory: FactoryModel, requests: Seq<FactoryRequest>)
    requires
        coherent(factory),
    ensures
        coherent(run(factory, requests)),
        run(factory, requests).code_id == factory.code_id,
        keeps_bindings(factory, run(factory, requests)),
    decreases requests.len(),
{
    if requests.len() > 0 {
        let before = run(factory, requests.drop_last());
        lemma_run(factory, requests.drop_last());
        lemma_step(before, requests.last());
        let after = step(before, requests.last());
        assert forall|owner: Seq<char>| #[trigger]
            factory.contracts.dom().contains(owner) implies after.contracts.dom().contains(owner)
            && after.contracts[owner] == factory.contracts[owner] by {
            assert(before.contracts.dom().contains(owner));
        }
    }
}

/// A request that is granted and the result that answers it bind the owner
/// to the ledger that the payload names: the owner is pending no more, a
/// lookup finds the ledger, and another request for the owner is turned down.
pub proof fn lemma_created_then_bound(
    factory: FactoryModel,
    contract_address: Seq<char>,
    funds: Seq<CoinView>,
    owner_address: Seq<char>,
    enable_staking: bool,
    vesting_schedule: ScheduleView,
    correlation_token: u64,
    message: Option<InstantiateResponseView>,
)
    requires
        factory.create_vesting_contract(
            contract_address,
            funds,
            owner_address,
            enable_staking,
            vesting_schedule,
        ) is Ok,
        factory.create_vesting_contract(
            contract_address,
            funds,
            owner_address,
            enable_staking,
            vesting_schedule,
        ).unwrap().0.on_creation_result(correlation_token, message) is Ok,
    ensures
        ({
            let requested = factory.create_vesting_contract(
                contract_address,
                funds,
                owner_address,
                enable_staking,
                vesting_schedule,
            ).unwrap().0;
            let bound = requested.on_creation_result(correlation_token, message).unwrap().0;
            &&& correlation_token == INSTANTIATE_REPLY_ID
            &&& message is Some
            &&& bound.pending_owner is None
            &&& bound.contracts == factory.contracts.insert(
                owner_address,
                message.unwrap().contract_address,
            )
            &&& bound.vesting_contract(owner_address) is Ok
            &&& bound.vesting_contract(owner_address).unwrap().vesting_contract
                == message.unwrap().contract_address
            &&& bound.create_vesting_contract(
                contract_address,
                funds,
                owner_address,
                enable_staking,
                vesting_schedule,
            ) == Err::<(FactoryModel, ResponseView), ContractError>(ContractError::AlreadyExists)
        }),
{
}

} // verus!
