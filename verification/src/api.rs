//! The requests that the chain's JSON-RPC interface is asked with.
//!
//! Only the requests are made here. Sending one and reading the answer is
//! the caller's business.

use crate::hex::{hex_text, to_hex};
use vstd::prelude::*;

verus! {

/// The mathematical value of a [`MultipleTypes`].
pub enum SpecMultipleTypes {
    Str(Seq<char>),
    Bool(bool),
    Int(i64),
}

/// One parameter of a request.
#[derive(Debug, PartialEq, Eq)]
pub enum MultipleTypes {
    Str(String),
    Bool(bool),
    Int(i64),
}

impl View for MultipleTypes {
    type V = SpecMultipleTypes;

    open spec fn view(&self) -> SpecMultipleTypes {
        match self {
            MultipleTypes::Str(s) => SpecMultipleTypes::Str(s@),
            MultipleTypes::Bool(b) => SpecMultipleTypes::Bool(*b),
            MultipleTypes::Int(i) => SpecMultipleTypes::Int(*i),
        }
    }
}

/// The mathematical value of a [`JsonRpcRequest`].
pub struct SpecJsonRpcRequest {
    pub jsonrpc: Seq<char>,
    pub method: Seq<char>,
    pub id: Seq<char>,
    pub params: Seq<SpecMultipleTypes>,
}

/// One JSON-RPC request.
#[derive(Debug, PartialEq, Eq)]
pub struct JsonRpcRequest {
    pub jsonrpc: String,
    pub method: String,
    pub id: String,
    pub params: Vec<MultipleTypes>,
}

impl View for JsonRpcRequest {
    type V = SpecJsonRpcRequest;

    open spec fn view(&self) -> SpecJsonRpcRequest {
        SpecJsonRpcRequest {
            jsonrpc: self.jsonrpc@,
            method: self.method@,
            id: self.id@,
            params: self.params@.map_values(|p: MultipleTypes| p@),
        }
    }
}

/// The request for `method` with `params`, in version 2.0 of the protocol
/// and under the id that every request of this crate has.
pub open spec fn request(method: Seq<char>, params: Seq<SpecMultipleTypes>) -> SpecJsonRpcRequest {
    SpecJsonRpcRequest { jsonrpc: "2.0"@, method, id: "1"@, params }
}

/// A block's number as the interface wants it: `0x` and the number's
/// hexadecimal digits.
pub open spec fn block_number_text(block_number: u128) -> Seq<char> {
    "0x"@ + hex_text(block_number as nat)
}

/// The maker of this crate's requests.
pub struct JsonRpcApiRequestBuilder;

impl JsonRpcApiRequestBuilder {
    /// The request with the fields that all requests share.
    fn build(method: &str, params: Vec<MultipleTypes>) -> (req: JsonRpcRequest)
        ensures
            req@ == request(method@, params@.map_values(|p: MultipleTypes| p@)),
    {
        JsonRpcRequest {
            jsonrpc: "2.0".to_owned(),
            id: "1".to_owned(),
            method: method.to_owned(),
            params,
        }
    }

    /// The request for the receipt of the transaction with this hash.
    pub fn get_transaction_receipt(hash: &str) -> (req: JsonRpcRequest)
        ensures
            req@ == request("eth_getTransactionReceipt"@, seq![SpecMultipleTypes::Str(hash@)]),
    {
        let mut params: Vec<MultipleTypes> = Vec::new();
        params.push(MultipleTypes::Str(hash.to_owned()));
        proof {
            assert(params@.map_values(|p: MultipleTypes| p@) =~= seq![
                SpecMultipleTypes::Str(hash@),
            ]);
        }
        Self::build("eth_getTransactionReceipt", params)
    }

    /// The request for the latest block, with its transactions in full.
    pub fn get_block_by_number_latest() -> (req: JsonRpcRequest)
        ensures
            req@ == request(
                "eth_getBlockByNumber"@,
                seq![SpecMultipleTypes::Str("latest"@), SpecMultipleTypes::Bool(true)],
            ),
    {
        let mut params: Vec<MultipleTypes> = Vec::new();
        params.push(MultipleTypes::Str("latest".to_owned()));
        params.push(MultipleTypes::Bool(true));
        proof {
            assert(params@.map_values(|p: MultipleTypes| p@) =~= seq![
                SpecMultipleTypes::Str("latest"@),
                SpecMultipleTypes::Bool(true),
            ]);
        }
        Self::build("eth_getBlockByNumber", params)
    }

    /// The request for the block of this number, with its transactions in
    /// full.
    pub fn get_block_by_number_hash(block_number: u128) -> (req: JsonRpcRequest)
        ensures
            req@ == request(
                "eth_getBlockByNumber"@,
                seq![
                    SpecMultipleTypes::Str(block_number_text(block_number)),
                    SpecMultipleTypes::Bool(true),
                ],
            ),
    {
        let mut block_hex = "0x".to_owned();
        block_hex.append(to_hex(block_number).as_str());
        let mut params: Vec<MultipleTypes> = Vec::new();
        params.push(MultipleTypes::Str(block_hex));
        params.push(MultipleTypes::Bool(true));
        proof {
            assert(params@.map_values(|p: MultipleTypes| p@) =~= seq![
                SpecMultipleTypes::Str(block_number_text(block_number)),
                SpecMultipleTypes::Bool(true),
            ]);
        }
        Self::build("eth_getBlockByNumber", params)
    }
}

} // verus!
