//! The effect description a successful request returns: human-readable
//! attributes for observability, plus outbound instructions (a token
//! delivery notice or a native-currency payment) for the host dispatcher.

use vstd::prelude::*;
use vstd::string::StringExecFns;
use crate::env::Coin;

verus! {

/// One human-readable (key, value) pair; informational, never load-bearing.
#[derive(Debug)]
pub struct Attribute {
    pub key: String,
    pub value: String,
}

/// An outbound instruction the host dispatcher performs after the request
/// commits.
#[derive(Debug)]
pub enum OutMsg {
    /// Pay native currency out of the contract's account.
    BankSend { to_address: String, amount: Vec<Coin> },
    /// Deliver a token-received notice to a contract, fire-and-forget.
    Cw721Receive { contract: String, sender: String, token_id: String, msg: Vec<u8> },
}

/// The success payload of a request.
#[derive(Debug)]
pub struct Response {
    pub attributes: Vec<Attribute>,
    pub messages: Vec<OutMsg>,
}

impl Response {
    /// An empty response: no attributes, no outbound instructions.
    pub fn new() -> (r: Response)
        ensures
            r.attributes@ == Seq::<Attribute>::empty(),
            r.messages@ == Seq::<OutMsg>::empty(),
    {
        Response { attributes: Vec::new(), messages: Vec::new() }
    }

    /// Appends one observability attribute.
    pub fn add_attribute(self, key: &str, value: String) -> (r: Response)
        ensures
            r.attributes@.len() == self.attributes@.len() + 1,
            r.attributes@.subrange(0, self.attributes@.len() as int) == self.attributes@,
            r.attributes@.last().key@ == key@,
            r.attributes@.last().value == value,
            r.messages@ == self.messages@,
    {
        let mut attributes = self.attributes;
        attributes.push(Attribute { key: String::from_str(key), value });
        Response { attributes, messages: self.messages }
    }

    /// Appends one outbound instruction.
    pub fn add_message(self, msg: OutMsg) -> (r: Response)
        ensures
            r.messages@ == self.messages@.push(msg),
            r.attributes@ == self.attributes@,
    {
        let mut messages = self.messages;
        messages.push(msg);
        Response { attributes: self.attributes, messages }
    }
}

/// The decimal rendering of an unsigned amount, as produced by the standard
/// library's formatting; a function of the amount alone.
pub uninterp spec fn decimal_of(n: u128) -> Seq<char>;

/// Relies on `u128::to_string` from the standard library: the decimal
/// rendering of the amount, which depends on the amount alone.
#[verifier::external_body]
pub fn u128_to_string(n: u128) -> (r: String)
    ensures
        r@ == decimal_of(n),
{
    n.to_string()
}

/// Renders a boolean as the standard library's `to_string` does.
pub fn bool_to_string(b: bool) -> (r: String)
    ensures
        b ==> r@ == "true"@,
        !b ==> r@ == "false"@,
{
    if b {
        String::from_str("true")
    } else {
        String::from_str("false")
    }
}

} // verus!
