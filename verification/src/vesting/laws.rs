//! What holds of a ledger over any number of requests.

use crate::common::vesting::{
    lemma_vested_at_most_total, lemma_vested_monotonic, ExecuteMsgView, InstantiateMsgView,
};
use crate::error::ContractError;
use crate::response::{
    lemma_sent_total_of_one, lemma_sent_total_without_send, sent_total, MessageInfoView,
    ResponseView,
};
use crate::vesting::contract::{instantiate_spec, vesting_coin};
use crate::vesting::state::LedgerModel;
use vstd::prelude::*;

verus! {

/// One request to a ledger: when it arrives, who sends it, and what it asks.
pub ghost struct Request {
    pub now: nat,
    pub caller: Seq<char>,
    pub msg: ExecuteMsgView,
}

/// The ledger after one request, and what the request paid out. A request
/// that is turned down leaves the ledger as it was and pays nothing.
pub open spec fn step(ledger: LedgerModel, request: Request) -> (LedgerModel, nat) {
    match ledger.execute(request.now, request.caller, request.msg) {
        Ok((after, response)) => (after, sent_total(response.messages)),
        Err(_) => (ledger, 0),
    }
}

/// The ledger after a sequence of requests, served in order, and what they
/// paid out in all.
pub open spec fn run(ledger: LedgerModel, requests: Seq<Request>) -> (LedgerModel, nat)
    decreases requests.len(),
{
    if requests.len() == 0 {
        (ledger, 0)
    } else {
        let (before, paid) = run(ledger, requests.drop_last());
        let (after, more) = step(before, requests.last());
        (after, paid + more)
    }
}

/// The requests arrive in the order of their times, none before `from`.
pub open spec fn in_time_order(from: nat, requests: Seq<Request>) -> bool {
    &&& forall|i: int| 0 <= i < requests.len() ==> from <= (#[trigger] requests[i]).now
    &&& forall|i: int, j: int|
        0 <= i <= j < requests.len() ==> (#[trigger] requests[i]).now <= (#[trigger] requests[j]).now
}

/// The time of the last of the requests, or `from` where there is none.
pub open spec fn last_time(from: nat, requests: Seq<Request>) -> nat {
    if requests.len() == 0 {
        from
    } else {
        requests.last().now
    }
}

/// A new ledger is well formed, and nothing of its deposit counts as paid.
pub proof fn lemma_new_ledger(block_time: nat, info: MessageInfoView, msg: InstantiateMsgView)
    requires
        instantiate_spec(block_time, info, msg) is Ok,
    ensures
        instantiate_spec(block_time, info, msg).unwrap().0.wf(),
        instantiate_spec(block_time, info, msg).unwrap().0.claimed_amount == 0,
        forall|now: nat| #[trigger] instantiate_spec(block_time, info, msg).unwrap().0.consistent_at(now),
{
}

/// One request keeps a ledger well formed, leaves deposit, schedule and the
/// right to stake alone, and moves the paid amount up by exactly what its
/// instructions pay out.
pub proof fn lemma_step(ledger: LedgerModel, request: Request)
    requires
        ledger.wf(),
    ensures
        step(ledger, request).0.wf(),
        step(ledger, request).0.total_deposit == ledger.total_deposit,
        step(ledger, request).0.schedule == ledger.schedule,
        step(ledger, request).0.staking_enabled == ledger.staking_enabled,
        step(ledger, request).0.claimed_amount == ledger.claimed_amount + step(ledger, request).1,
{
    let outcome = ledger.execute(request.now, request.caller, request.msg);
    if let Ok((after, response)) = outcome {
        match request.msg {
            ExecuteMsgView::Claim { recipient } => {
                lemma_vested_at_most_total(
                    ledger.schedule.terms().unwrap(),
                    request.now,
                    ledger.total_deposit,
                );
                let to_address = match recipient {
                    Some(r) => r,
                    None => request.caller,
                };
                lemma_sent_total_of_one(
                    to_address,
                    vesting_coin(ledger.claimable(request.now)),
                );
            },
            _ => {
                lemma_sent_total_without_send(response.messages);
            },
        }
    }
}

/// However many requests a ledger serves, from whomever and whenever, it
/// stays well formed, its deposit, its schedule and its right to stake stay
/// what they were, and what the requests pay out in all is exactly what the
/// paid amount went up by. So the payments never add up to more than the
/// deposit, and the paid amount never goes down.
pub proof fn lemma_total_paid(ledger: LedgerModel, requests: Seq<Request>)
    requires
        ledger.wf(),
    ensures
        run(ledger, requests).0.wf(),
        run(ledger, requests).0.total_deposit == ledger.total_deposit,
        run(ledger, requests).0.schedule == ledger.schedule,
        run(ledger, requests).0.staking_enabled == ledger.staking_enabled,
        run(ledger, requests).0.claimed_amount == ledger.claimed_amount + run(ledger, requests).1,
        ledger.claimed_amount + run(ledger, requests).1 <= ledger.total_deposit,
    decreases requests.len(),
{
    if requests.len() > 0 {
        lemma_total_paid(ledger, requests.drop_last());
        lemma_step(run(ledger, requests.drop_last()).0, requests.last());
    }
}

/// A second claim at the time of a successful one finds nothing to claim,
/// whoever is to receive it.
pub proof fn lemma_claim_twice(
    ledger: LedgerModel,
    caller: Seq<char>,
    first_recipient: Option<Seq<char>>,
    second_recipient: Option<Seq<char>>,
    now: nat,
)
    requires
        ledger.wf(),
        ledger.claim(caller, first_recipient, now) is Ok,
    ensures
        ledger.claim(caller, first_recipient, now).unwrap().0.claim(caller, second_recipient, now)
            == Err::<(LedgerModel, ResponseView), ContractError>(
            ContractError::NothingToClaim,
        ),
{
    lemma_vested_at_most_total(ledger.schedule.terms().unwrap(), now, ledger.total_deposit);
}

/// The owner finds nothing to claim exactly when what has vested is what was
/// paid out. Where less has vested, the claim is turned down with the two
/// amounts that cannot be taken from one another.
pub proof fn lemma_nothing_to_claim(
    ledger: LedgerModel,
    recipient: Option<Seq<char>>,
    now: nat,
)
    ensures
        ledger.claim(ledger.owner, recipient, now) == Err::<
            (LedgerModel, ResponseView),
            ContractError,
        >(ContractError::NothingToClaim) <==> ledger.vested(now) == ledger.claimed_amount,
        ledger.claim(ledger.owner, recipient, now) is Ok <==> ledger.vested(now)
            > ledger.claimed_amount,
        ledger.vested(now) < ledger.claimed_amount ==> ledger.claim(ledger.owner, recipient, now)
            == Err::<(LedgerModel, ResponseView), ContractError>(
            ContractError::Overflow {
                vested_amount: ledger.vested(now) as u128,
                claimed_amount: ledger.claimed_amount as u128,
            },
        ),
{
}

/// Once a ledger has changed hands, a claim of the former owner is turned
/// down as unauthorized, and a claim of the new owner is served exactly when
/// something is there to claim.
pub proof fn lemma_claim_after_change_owner(
    ledger: LedgerModel,
    former_owner: Seq<char>,
    new_owner: Seq<char>,
    recipient: Option<Seq<char>>,
    now: nat,
)
    requires
        ledger.change_owner(former_owner, new_owner) is Ok,
        new_owner != former_owner,
    ensures
        ledger.change_owner(former_owner, new_owner).unwrap().0.claim(former_owner, recipient, now)
            == Err::<(LedgerModel, ResponseView), ContractError>(
            ContractError::Unauthorized,
        ),
        ledger.change_owner(former_owner, new_owner).unwrap().0.claim(new_owner, recipient, now)
            is Ok <==> ledger.claimable(now) > 0,
{
}

/// Where no more was paid than had vested at some time, no more was paid
/// than has vested at any later time, and what has vested is at most the
/// deposit.
pub proof fn lemma_consistent_later(ledger: LedgerModel, earlier: nat, later: nat)
    requires
        ledger.wf(),
        ledger.consistent_at(earlier),
        earlier <= later,
    ensures
        ledger.consistent_at(later),
        ledger.vested(later) <= ledger.total_deposit,
{
    let t = ledger.schedule.terms().unwrap();
    lemma_vested_monotonic(t, earlier, later, ledger.total_deposit);
    lemma_vested_at_most_total(t, later, ledger.total_deposit);
}

/// Under a clock that never runs backwards, a ledger never counts more as
/// paid than has vested: if that holds at `from`, it holds after any requests
/// that arrive in time order from then on, at the time of the last of them
/// and ever after.
pub proof fn lemma_run_consistent(ledger: LedgerModel, from: nat, requests: Seq<Request>, at: nat)
    requires
        ledger.wf(),
        ledger.consistent_at(from),
        in_time_order(from, requests),
        last_time(from, requests) <= at,
    ensures
        run(ledger, requests).0.consistent_at(at),
        run(ledger, requests).0.vested(at) <= ledger.total_deposit,
    decreases requests.len(),
{
    lemma_total_paid(ledger, requests);
    if requests.len() == 0 {
        lemma_consistent_later(ledger, from, at);
    } else {
        let earlier = requests.drop_last();
        let request = requests.last();
        let before = run(ledger, earlier).0;
        assert(in_time_order(from, earlier)) by {
            assert forall|i: int| 0 <= i < earlier.len() implies from <= (#[trigger] earlier[i]).now by {
                assert(earlier[i] == requests[i]);
            }
            assert forall|i: int, j: int| 0 <= i <= j < earlier.len() implies (#[trigger] earlier[i]).now
                <= (#[trigger] earlier[j]).now by {
                assert(earlier[i] == requests[i]);
                assert(earlier[j] == requests[j]);
            }
        }
        assert(last_time(from, earlier) <= request.now) by {
            if earlier.len() > 0 {
                assert(earlier.last() == requests[requests.len() - 2]);
                assert(requests[requests.len() - 2].now <= requests[requests.len() - 1].now);
            } else {
                assert(from <= requests[0].now);
            }
        }
        lemma_total_paid(ledger, earlier);
        lemma_run_consistent(ledger, from, earlier, request.now);
        lemma_step(before, request);
        let after = step(before, request).0;
        assert(after.consistent_at(request.now)) by {
            lemma_vested_at_most_total(
                before.schedule.terms().unwrap(),
                request.now,
                before.total_deposit,
            );
        }
        lemma_consistent_later(after, request.now, at);
    }
}

} // verus!
