//! What the contract answers to a request that it accepts.

use cosmwasm_std::Binary;
use vstd::prelude::*;

verus! {

/// One key and value of a response.
#[derive(Debug, Clone, PartialEq, Eq)]
pub struct Attribute {
    pub key: String,
    pub value: String,
}

/// The answer to an accepted request: its attributes, in the order in which
/// they were added.
#[derive(Debug, Clone, PartialEq, Eq)]
pub struct Response {
    pub attributes: Vec<Attribute>,
}

impl View for Attribute {
    type V = (Seq<char>, Seq<char>);

    open spec fn view(&self) -> (Seq<char>, Seq<char>) {
        (self.key@, self.value@)
    }
}

impl View for Response {
    type V = Seq<(Seq<char>, Seq<char>)>;

    open spec fn view(&self) -> Seq<(Seq<char>, Seq<char>)> {
        Seq::new(self.attributes@.len(), |i: int| self.attributes@[i]@)
    }
}

impl Response {
    /// A response without attributes.
    pub fn new() -> (response: Response)
        ensures
            response@ == Seq::<(Seq<char>, Seq<char>)>::empty(),
    {
        Response { attributes: Vec::new() }
    }

    /// The response with one more attribute at its end.
    pub fn add_attribute(self, key: &str, value: String) -> (response: Response)
        ensures
            response@ == self@.push((key@, value@)),
    {
        let mut attributes = self.attributes;
        attributes.push(Attribute { key: String::from_str(key), value });
        Response { attributes }
    }
}

impl Default for Response {
    fn default() -> (response: Response)
        ensures
            response@ == Seq::<(Seq<char>, Seq<char>)>::empty(),
    {
        Response::new()
    }
}

/// The standard base64 text of a byte string, with padding.
pub uninterp spec fn base64_text(data: Seq<u8>) -> Seq<char>;

/// Calls `Binary::to_string` of `cosmwasm_std` on a copy of the bytes; its
/// `Display` writes what `Binary::to_base64` returns, the padded standard
/// base64 encoding.
#[verifier::external_body]
pub(crate) fn binary_to_string(data: &[u8]) -> (text: String)
    ensures
        text@ == base64_text(data@),
{
    Binary::from(data).to_string()
}

} // verus!
