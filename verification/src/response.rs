//! What a request carries besides its message, and what a served request
//! hands back: instructions for the chain to carry out, and attributes that
//! describe what was done.

use crate::common::vesting::{InstantiateMsg, InstantiateMsgView};
use vstd::prelude::*;

verus! {

/// An amount of one denomination.
#[derive(Clone, Debug, PartialEq)]
pub struct Coin {
    pub denom: String,
    pub amount: u128,
}

/// A coin as plain values.
pub ghost struct CoinView {
    pub denom: Seq<char>,
    pub amount: nat,
}

impl View for Coin {
    type V = CoinView;

    open spec fn view(&self) -> CoinView {
        CoinView { denom: self.denom@, amount: self.amount as nat }
    }
}

impl DeepView for Coin {
    type V = CoinView;

    open spec fn deep_view(&self) -> CoinView {
        self@
    }
}

/// Who sent a message, and the funds that came with it.
#[derive(Clone, Debug, PartialEq)]
pub struct MessageInfo {
    pub sender: String,
    pub funds: Vec<Coin>,
}

/// The sender and the funds of a message as plain values.
pub ghost struct MessageInfoView {
    pub sender: Seq<char>,
    pub funds: Seq<CoinView>,
}

impl View for MessageInfo {
    type V = MessageInfoView;

    open spec fn view(&self) -> MessageInfoView {
        MessageInfoView { sender: self.sender@, funds: self.funds.deep_view() }
    }
}

/// A key and a value that describe part of what a request did.
#[derive(Clone, Debug, PartialEq)]
pub struct Attribute {
    pub key: String,
    pub value: String,
}

/// An attribute as plain values.
pub ghost struct AttributeView {
    pub key: Seq<char>,
    pub value: Seq<char>,
}

impl View for Attribute {
    type V = AttributeView;

    open spec fn view(&self) -> AttributeView {
        AttributeView { key: self.key@, value: self.value@ }
    }
}

impl DeepView for Attribute {
    type V = AttributeView;

    open spec fn deep_view(&self) -> AttributeView {
        self@
    }
}

/// Something for the chain to carry out once the request has been served.
#[derive(Clone, Debug, PartialEq)]
#[allow(inconsistent_fields)]
pub enum Instruction {
    /// Pay `amount` to `to_address`.
    Send { to_address: String, amount: Vec<Coin> },
    /// Pay future staking rewards to `address`.
    SetWithdrawAddress { address: String },
    /// Withdraw the staking rewards held at `validator`.
    WithdrawDelegatorReward { validator: String },
    /// Stake `amount` with `validator`.
    Delegate { validator: String, amount: Coin },
    /// Take `amount` back from `validator`.
    Undelegate { validator: String, amount: Coin },
    /// Move a stake of `amount` from `src_validator` to `dst_validator`.
    Redelegate { src_validator: String, dst_validator: String, amount: Coin },
    /// Create a contract from the code `code_id`, hand it `msg` and `funds`,
    /// and report back under `reply_id` once it exists.
    Instantiate {
        admin: Option<String>,
        code_id: u64,
        msg: InstantiateMsg,
        funds: Vec<Coin>,
        label: String,
        reply_id: u64,
    },
}

/// An instruction as plain values.
#[allow(inconsistent_fields)]
pub ghost enum InstructionView {
    Send { to_address: Seq<char>, amount: Seq<CoinView> },
    SetWithdrawAddress { address: Seq<char> },
    WithdrawDelegatorReward { validator: Seq<char> },
    Delegate { validator: Seq<char>, amount: CoinView },
    Undelegate { validator: Seq<char>, amount: CoinView },
    Redelegate { src_validator: Seq<char>, dst_validator: Seq<char>, amount: CoinView },
    Instantiate {
        admin: Option<Seq<char>>,
        code_id: u64,
        msg: InstantiateMsgView,
        funds: Seq<CoinView>,
        label: Seq<char>,
        reply_id: u64,
    },
}

impl View for Instruction {
    type V = InstructionView;

    open spec fn view(&self) -> InstructionView {
        match self {
            Instruction::Send { to_address, amount } => InstructionView::Send {
                to_address: to_address@,
                amount: amount.deep_view(),
            },
            Instruction::SetWithdrawAddress { address } => InstructionView::SetWithdrawAddress {
                address: address@,
            },
            Instruction::WithdrawDelegatorReward {
                validator,
            } => InstructionView::WithdrawDelegatorReward { validator: validator@ },
            Instruction::Delegate { validator, amount } => InstructionView::Delegate {
                validator: validator@,
                amount: amount@,
            },
            Instruction::Undelegate { validator, amount } => InstructionView::Undelegate {
                validator: validator@,
                amount: amount@,
            },
            Instruction::Redelegate {
                src_validator,
                dst_validator,
                amount,
            } => InstructionView::Redelegate {
                src_validator: src_validator@,
                dst_validator: dst_validator@,
                amount: amount@,
            },
            Instruction::Instantiate {
                admin,
                code_id,
                msg,
                funds,
                label,
                reply_id,
            } => InstructionView::Instantiate {
                admin: admin.deep_view(),
                code_id: *code_id,
                msg: msg@,
                funds: funds.deep_view(),
                label: label@,
                reply_id: *reply_id,
            },
        }
    }
}

impl DeepView for Instruction {
    type V = InstructionView;

    open spec fn deep_view(&self) -> InstructionView {
        self@
    }
}

/// What a served request hands back.
#[derive(Clone, Debug, PartialEq)]
pub struct Response {
    /// The instructions, in the order in which they are to be carried out.
    pub messages: Vec<Instruction>,
    /// The attributes, in the order in which they were added.
    pub attributes: Vec<Attribute>,
}

/// A response as plain values.
pub ghost struct ResponseView {
    pub messages: Seq<InstructionView>,
    pub attributes: Seq<AttributeView>,
}

impl View for Response {
    type V = ResponseView;

    open spec fn view(&self) -> ResponseView {
        ResponseView {
            messages: self.messages.deep_view(),
            attributes: self.attributes.deep_view(),
        }
    }
}

/// An attribute from two texts.
pub open spec fn attr(key: Seq<char>, value: Seq<char>) -> AttributeView {
    AttributeView { key, value }
}

/// The sum of the amounts of some coins.
pub open spec fn coins_total(coins: Seq<CoinView>) -> nat
    decreases coins.len(),
{
    if coins.len() == 0 {
        0
    } else {
        coins_total(coins.drop_last()) + coins.last().amount
    }
}

/// What the instructions of a response pay out in all.
pub open spec fn sent_total(messages: Seq<InstructionView>) -> nat
    decreases messages.len(),
{
    if messages.len() == 0 {
        0
    } else {
        sent_total(messages.drop_last()) + match messages.last() {
            InstructionView::Send { amount, .. } => coins_total(amount),
            _ => 0,
        }
    }
}

/// Instructions among which none pays pay out nothing.
pub proof fn lemma_sent_total_without_send(messages: Seq<InstructionView>)
    requires
        forall|i: int| 0 <= i < messages.len() ==> !(#[trigger] messages[i] is Send),
    ensures
        sent_total(messages) == 0,
    decreases messages.len(),
{
    if messages.len() > 0 {
        lemma_sent_total_without_send(messages.drop_last());
        assert(!(messages[messages.len() - 1] is Send));
    }
}

/// One instruction that pays one coin pays out the amount of that coin.
pub proof fn lemma_sent_total_of_one(to_address: Seq<char>, coin: CoinView)
    ensures
        sent_total(seq![InstructionView::Send { to_address, amount: seq![coin] }]) == coin.amount,
{
    let amount = seq![coin];
    let messages = seq![InstructionView::Send { to_address, amount }];
    assert(amount.drop_last() =~= Seq::<CoinView>::empty());
    assert(coins_total(amount) == coin.amount) by {
        reveal_with_fuel(coins_total, 2);
    }
    assert(messages.drop_last() =~= Seq::<InstructionView>::empty());
    assert(messages.last() == InstructionView::Send { to_address, amount });
    reveal_with_fuel(sent_total, 2);
}

impl Response {
    /// A response without instructions or attributes.
    pub fn new() -> (r: Response)
        ensures
            r@ == (ResponseView { messages: seq![], attributes: seq![] }),
    {
        let r = Response { messages: Vec::new(), attributes: Vec::new() };
        assert(r@.messages =~= seq![]);
        assert(r@.attributes =~= seq![]);
        r
    }

    /// Adds an instruction after those that are there.
    pub fn add_message(&mut self, msg: Instruction)
        ensures
            final(self)@ == (ResponseView {
                messages: old(self)@.messages.push(msg@),
                attributes: old(self)@.attributes,
            }),
    {
        self.messages.push(msg);
        assert(self@.messages =~= old(self)@.messages.push(msg@));
    }

    /// Adds an attribute after those that are there.
    pub fn add_attribute(&mut self, key: &str, value: &str)
        ensures
            final(self)@ == (ResponseView {
                messages: old(self)@.messages,
                attributes: old(self)@.attributes.push(attr(key@, value@)),
            }),
    {
        let attribute = Attribute { key: key.to_owned(), value: value.to_owned() };
        self.attributes.push(attribute);
        assert(self@.attributes =~= old(self)@.attributes.push(attr(key@, value@)));
    }
}

} // verus!
