//! The withdrawal event: a transaction that takes funds out of a mixer
//! pool, known by its call data.

use crate::address::{address_text, checksum_text};
use crate::hex::{decode_hex, hex_bytes};
use crate::sol::{withdraw_call, SpecWithdrawCall, TornadoCashSol};
use crate::text::{owned_or_empty, str_eq, text_or_empty};
use crate::types::block::{BlockJson, SpecBlock, SpecTransaction};
use crate::types::finding::finding_view;
use crate::types::scan::{first_from, lemma_first_found, lemma_none_found, position_view};
use vstd::prelude::*;

verus! {

/// The mathematical value of a [`TornadoCashWithdrawEventJson`].
pub struct SpecTornadoCashWithdrawEventJson {
    pub tornado_address: Seq<char>,
    pub recipient: Seq<char>,
    pub relayer: Seq<char>,
    pub tornado_address_name: Seq<char>,
    pub block_timestamp: u64,
    pub block: u64,
    pub transaction_hash: Seq<char>,
}

/// What is reported of a withdrawal from a mixer pool.
#[derive(Debug, PartialEq, Eq)]
pub struct TornadoCashWithdrawEventJson {
    pub tornado_address: String,
    pub recipient: String,
    pub relayer: String,
    pub tornado_address_name: String,
    pub block_timestamp: u64,
    pub block: u64,
    pub transaction_hash: String,
}

impl View for TornadoCashWithdrawEventJson {
    type V = SpecTornadoCashWithdrawEventJson;

    open spec fn view(&self) -> SpecTornadoCashWithdrawEventJson {
        SpecTornadoCashWithdrawEventJson {
            tornado_address: self.tornado_address@,
            recipient: self.recipient@,
            relayer: self.relayer@,
            tornado_address_name: self.tornado_address_name@,
            block_timestamp: self.block_timestamp,
            block: self.block,
            transaction_hash: self.transaction_hash@,
        }
    }
}

/// The call of `withdraw` that a transaction's input encodes, where the
/// input is hexadecimal text and its bytes decode.
pub open spec fn withdraw_of_input(input: Seq<char>) -> Option<SpecWithdrawCall> {
    match hex_bytes(input) {
        Some(bytes) => match withdraw_call(bytes) {
            Ok(call) => Some(call),
            Err(_) => None,
        },
        None => None,
    }
}

/// The addresses of a withdrawal as text: the pool, the recipient and the
/// relayer.
pub open spec fn withdraw_addresses(call: SpecWithdrawCall) -> (Seq<char>, Seq<char>, Seq<char>) {
    (checksum_text(call.tornado), checksum_text(call.recipient), checksum_text(call.relayer))
}

/// The name of a mixer pool by its address: one of the two known pools, or
/// `Unknown`.
pub open spec fn pool_name(tornado_address: Seq<char>) -> Seq<char> {
    if tornado_address == TornadoCashWithdrawEvent::TCETH01@ {
        "ETH/0.1"@
    } else if tornado_address == TornadoCashWithdrawEvent::TCETH1@ {
        "ETH/1"@
    } else {
        "Unknown"@
    }
}

/// Whether a transaction is a withdrawal from a mixer pool: its input
/// decodes as a call of `withdraw`.
pub open spec fn is_withdrawal(tx: SpecTransaction) -> bool {
    tx.input matches Some(input) && withdraw_of_input(input) is Some
}

/// What is reported of the withdrawal `tx` of `block`.
pub open spec fn withdrawal_report(
    block: SpecBlock,
    tx: SpecTransaction,
) -> SpecTornadoCashWithdrawEventJson
    recommends
        is_withdrawal(tx),
        block.well_formed(),
{
    let (tornado, recipient, relayer) = withdraw_addresses(withdraw_of_input(tx.input->0)->0);
    SpecTornadoCashWithdrawEventJson {
        tornado_address: tornado,
        recipient,
        relayer,
        tornado_address_name: pool_name(tornado),
        block_timestamp: block.timestamp_value()->0,
        block: block.number_value()->0,
        transaction_hash: text_or_empty(tx.hash),
    }
}

/// The test that the search for a withdrawal applies to each position.
pub open spec fn withdrawal_at(block: SpecBlock) -> spec_fn(int) -> bool {
    |i: int| is_withdrawal(block.transactions[i])
}

/// The position of the block's first withdrawal.
pub open spec fn first_withdrawal(block: SpecBlock) -> Option<int> {
    first_from(0, block.transactions.len() as int, withdrawal_at(block))
}

/// What the withdrawal classifier finds in a block: the report of its first
/// withdrawal under the classifier's kind, or nothing.
pub open spec fn withdrawal_event(block: SpecBlock) -> Option<
    (u32, SpecTornadoCashWithdrawEventJson),
> {
    match first_withdrawal(block) {
        Some(i) => Some((TornadoCashWithdrawEvent::ID, withdrawal_report(block, block.transactions[i]))),
        None => None,
    }
}

/// The classifier of withdrawals from a mixer pool.
pub struct TornadoCashWithdrawEvent;

impl TornadoCashWithdrawEvent {
    /// The kind of this event.
    pub const ID: u32 = 1;

    /// The address of the pool of 0.1 ETH.
    pub const TCETH01: &'static str = "0x12D66f87A04A9E220743712cE6d9bB1B5616B8Fc";

    /// The address of the pool of 1 ETH.
    pub const TCETH1: &'static str = "0x47CE0C6eD5B0Ce3d3A51fdb1C52DC66a7c3c2936";

    /// The name of the pool at `tornado_address`.
    pub fn pool_name(tornado_address: &str) -> (name: String)
        ensures
            name@ == pool_name(tornado_address@),
    {
        if str_eq(tornado_address, Self::TCETH01) {
            "ETH/0.1".to_owned()
        } else if str_eq(tornado_address, Self::TCETH1) {
            "ETH/1".to_owned()
        } else {
            "Unknown".to_owned()
        }
    }

    /// Decodes a transaction's input as a call of `withdraw` and gives the
    /// pool, the recipient and the relayer as text. `None` where the input
    /// is no hexadecimal text or its bytes are no such call.
    pub fn decode_transaction(input: &str) -> (decoded: Option<(String, String, String)>)
        ensures
            match decoded {
                Some((tornado, recipient, relayer)) => withdraw_of_input(input@) matches Some(call)
                    && (tornado@, recipient@, relayer@) == withdraw_addresses(call),
                None => withdraw_of_input(input@) is None,
            },
    {
        let bytes = match decode_hex(input) {
            Some(bytes) => bytes,
            None => {
                return None;
            },
        };
        match TornadoCashSol::decode(bytes.as_slice()) {
            Ok(call) => Some(
                (
                    address_text(call.tornado.as_slice()),
                    address_text(call.recipient.as_slice()),
                    address_text(call.relayer.as_slice()),
                ),
            ),
            Err(_) => None,
        }
    }

    /// The report of a withdrawal whose addresses are these texts.
    pub fn report(
        tornado_address: String,
        recipient: String,
        relayer: String,
        block: u64,
        block_timestamp: u64,
        transaction_hash: String,
    ) -> (json: TornadoCashWithdrawEventJson)
        ensures
            json@ == (SpecTornadoCashWithdrawEventJson {
                tornado_address: tornado_address@,
                recipient: recipient@,
                relayer: relayer@,
                tornado_address_name: pool_name(tornado_address@),
                block_timestamp,
                block,
                transaction_hash: transaction_hash@,
            }),
    {
        let tornado_address_name = Self::pool_name(tornado_address.as_str());
        TornadoCashWithdrawEventJson {
            tornado_address,
            recipient,
            relayer,
            tornado_address_name,
            block_timestamp,
            block,
            transaction_hash,
        }
    }

    /// Scans for the block's first withdrawal: its position, and its
    /// addresses as text.
    fn find(block: &BlockJson) -> (found: Option<(usize, (String, String, String))>)
        ensures
            match found {
                Some((i, (tornado, recipient, relayer))) => {
                    &&& first_withdrawal(block@) == Some(i as int)
                    &&& i < block@.transactions.len()
                    &&& is_withdrawal(block@.transactions[i as int])
                    &&& (tornado@, recipient@, relayer@) == withdraw_addresses(
                        withdraw_of_input(block@.transactions[i as int].input->0)->0,
                    )
                },
                None => first_withdrawal(block@) is None,
            },
    {
        let txs = block.transactions();
        let n = txs.len();
        let mut i: usize = 0;
        while i < n
            invariant
                i <= n,
                n == txs@.len(),
                n == block@.transactions.len(),
                forall|j: int| 0 <= j < n ==> (#[trigger] txs@[j])@ == block@.transactions[j],
                forall|j: int| 0 <= j < i ==> !#[trigger] withdrawal_at(block@)(j),
            decreases n - i,
        {
            if let Some(input) = txs[i].input() {
                if let Some(withdraw) = Self::decode_transaction(input) {
                    proof {
                        lemma_first_found(0, n as int, withdrawal_at(block@), i as int);
                    }
                    return Some((i, withdraw));
                }
            }
            i += 1;
        }
        proof {
            lemma_none_found(0, n as int, withdrawal_at(block@));
        }
        None
    }

    /// The position of the block's first withdrawal from a mixer pool.
    pub fn position(&self, block: &BlockJson) -> (at: Option<usize>)
        ensures
            position_view(at) == first_withdrawal(block@),
    {
        match Self::find(block) {
            Some((i, _)) => Some(i),
            None => None,
        }
    }

    /// Finds the block's first withdrawal from a mixer pool.
    ///
    /// A block that holds a withdrawal must have its number and timestamp.
    pub fn event(&self, block: &BlockJson) -> (found: Option<(u32, TornadoCashWithdrawEventJson)>)
        requires
            first_withdrawal(block@) is Some ==> block@.well_formed(),
        ensures
            finding_view(found) == withdrawal_event(block@),
    {
        match Self::find(block) {
            Some((i, withdraw)) => {
                let txs = block.transactions();
                let json = Self::report(
                    withdraw.0,
                    withdraw.1,
                    withdraw.2,
                    block.number(),
                    block.timestamp(),
                    owned_or_empty(txs[i].hash()),
                );
                Some((Self::ID, json))
            },
            None => None,
        }
    }
}

} // verus!
