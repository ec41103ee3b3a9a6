//! Request and response shapes for the dispatch layer.
//!
//! The host decodes wire messages into these plain values before handing
//! them to the handlers, and encodes the results it gets back.

use vstd::prelude::*;

verus! {

/// The one-shot initialization request. It carries no payload: the owner
/// is the identity of the caller that delivers it.
pub struct InstantiateMsg {}

/// A state-changing request.
pub enum ExecuteMsg {
    /// Store `price` under `symbol`, replacing any prior value.
    SetPrice { symbol: String, price: u128 },
}

/// A read-only request.
pub enum QueryMsg {
    /// Look up the price stored under `symbol`.
    GetPrice { symbol: String },
}

/// The answer to a successful [`QueryMsg::GetPrice`].
#[derive(Clone, Copy, Debug, PartialEq, Eq, Structural)]
pub struct GetPriceResponse {
    pub price: u128,
}

/// A coin amount attached to a request by its caller. The registry's logic
/// never reads the funds; they are carried for fidelity with the host's
/// request envelope.
pub struct Coin {
    pub denom: String,
    pub amount: u128,
}

/// What the host tells a handler about the incoming request: who sent it
/// and what funds came along.
pub struct MessageInfo {
    pub sender: String,
    pub funds: Vec<Coin>,
}

/// One observable attribute of a successful request, for external audit.
pub struct Attribute {
    pub key: String,
    pub value: String,
}

/// What a successful state-changing request hands back to the host:
/// follow-up messages (none are ever emitted here) and audit attributes.
pub struct Response {
    pub messages: Vec<String>,
    pub attributes: Vec<Attribute>,
}

impl Response {
    /// An empty response: no messages, no attributes.
    pub fn new() -> (r: Response)
        ensures
            r.messages@ == Seq::<String>::empty(),
            r.attributes@ == Seq::<Attribute>::empty(),
    {
        Response { messages: Vec::new(), attributes: Vec::new() }
    }

    /// Append one audit attribute, keeping everything else as it was.
    pub fn add_attribute(self, key: String, value: String) -> (r: Response)
        ensures
            r.messages@ == self.messages@,
            r.attributes@ == self.attributes@.push((Attribute { key, value })),
    {
        let mut attributes = self.attributes;
        attributes.push(Attribute { key, value });
        Response { messages: self.messages, attributes }
    }
}

} // verus!
