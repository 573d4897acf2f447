//! The payload of a creation result: a protocol-buffers message that names
//! the contract that was created.
//!
//! ```text
//! message MsgInstantiateContractResponse {
//!   string contract_address = 1;
//!   bytes data = 2;
//! }
//! ```
//!
//! The protobuf crate ships a message of the same layout, a string as field 1
//! and bytes as field 2: `google.protobuf.Any`. The payload is parsed as one.

use protobuf::well_known_types::Any;
use protobuf::Message;
use vstd::prelude::*;

verus! {

/// The decoded payload of a creation result.
#[derive(Clone, Debug, PartialEq)]
pub struct MsgInstantiateContractResponse {
    /// The address of the contract that was created.
    pub contract_address: String,
    /// What the new contract handed back when it was created.
    pub data: Vec<u8>,
}

/// A decoded payload as plain values.
pub ghost struct InstantiateResponseView {
    pub contract_address: Seq<char>,
    pub data: Seq<u8>,
}

impl View for MsgInstantiateContractResponse {
    type V = InstantiateResponseView;

    open spec fn view(&self) -> InstantiateResponseView {
        InstantiateResponseView { contract_address: self.contract_address@, data: self.data@ }
    }
}

impl DeepView for MsgInstantiateContractResponse {
    type V = InstantiateResponseView;

    open spec fn deep_view(&self) -> InstantiateResponseView {
        self@
    }
}

/// The message that the bytes of a payload encode, or nothing where they
/// encode none.
pub uninterp spec fn decoded_payload(bytes: Seq<u8>) -> Option<InstantiateResponseView>;

/// Calls `protobuf::Message::parse_from_bytes` for the message
/// `protobuf::well_known_types::Any`. Not proved here, and not stated: which
/// bytes the outside function accepts and what it reads from them. What is
/// relied on is that its answer depends on the bytes alone.
#[verifier::external_body]
pub(crate) fn parse_payload(bytes: &[u8]) -> (r: Option<MsgInstantiateContractResponse>)
    ensures
        r.deep_view() == decoded_payload(bytes@),
{
    match Any::parse_from_bytes(bytes) {
        Ok(message) => Some(
            MsgInstantiateContractResponse {
                contract_address: message.type_url,
                data: message.value,
            },
        ),
        Err(_) => None,
    }
}

} // verus!
