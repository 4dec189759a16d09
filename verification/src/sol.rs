//! Decoding of the call data of the mixer router's `withdraw` function.
//!
//! The function is
//! `withdraw(address,bytes,bytes32,bytes32,address,address,uint256,uint256)`.
//! Its call data is the four-byte selector, then eight 32-byte words: a
//! word per argument, where the word of the `bytes` argument holds the
//! position of its length word, which the bytes follow. Positions count from
//! the end of the selector.
//!
//! The decoding is lenient: of an address word only the last 20 bytes are
//! read, of a position or length word only the last 8, padding is not
//! looked at, and bytes after the last argument are ignored.

use vstd::prelude::*;
use vstd::slice::{slice_subrange, slice_to_vec};

verus! {

/// The selector of `withdraw`: the first four bytes of the Keccak-256 hash
/// of its signature.
pub open spec fn withdraw_selector() -> Seq<u8> {
    seq![0xb4u8, 0x38u8, 0x68u8, 0x9fu8]
}

/// The number that eight bytes stand for, most significant byte first.
pub open spec fn be_u64(s: Seq<u8>) -> int {
    s[0] as int * 0x100_0000_0000_0000 + s[1] as int * 0x1_0000_0000_0000 + s[2] as int
        * 0x100_0000_0000 + s[3] as int * 0x1_0000_0000 + s[4] as int * 0x100_0000 + s[5] as int
        * 0x1_0000 + s[6] as int * 0x100 + s[7] as int
}

/// The `i`-th 32-byte word of the arguments.
pub open spec fn word(body: Seq<u8>, i: int) -> Seq<u8> {
    body.subrange(32 * i, 32 * i + 32)
}

/// The address that a word holds: its last 20 bytes.
pub open spec fn word_address(word: Seq<u8>) -> Seq<u8> {
    word.subrange(12, 32)
}

/// The position or length that a word holds: the number in its last 8
/// bytes.
pub open spec fn word_length(word: Seq<u8>) -> int {
    be_u64(word.subrange(24, 32))
}

/// Why call data is no call of `withdraw`.
#[derive(Debug, Clone, Copy, PartialEq, Eq, Structural)]
pub enum DecodeError {
    /// The data does not begin with the selector of `withdraw`.
    SelectorMismatch,
    /// The data ends before the arguments do.
    Overrun,
}

/// The mathematical value of a [`WithdrawCall`].
pub struct SpecWithdrawCall {
    pub tornado: Seq<u8>,
    pub proof: Seq<u8>,
    pub root: Seq<u8>,
    pub nullifier_hash: Seq<u8>,
    pub recipient: Seq<u8>,
    pub relayer: Seq<u8>,
    pub fee: Seq<u8>,
    pub refund: Seq<u8>,
}

impl SpecWithdrawCall {
    /// Addresses have 20 bytes; hashes and amounts have 32.
    pub open spec fn well_formed(self) -> bool {
        &&& self.tornado.len() == 20
        &&& self.recipient.len() == 20
        &&& self.relayer.len() == 20
        &&& self.root.len() == 32
        &&& self.nullifier_hash.len() == 32
        &&& self.fee.len() == 32
        &&& self.refund.len() == 32
    }
}

/// The arguments of one call of `withdraw`. Amounts are 256-bit numbers,
/// most significant byte first.
#[derive(Debug, PartialEq, Eq)]
pub struct WithdrawCall {
    /// The mixer pool that pays out.
    pub tornado: Vec<u8>,
    /// The zero-knowledge proof.
    pub proof: Vec<u8>,
    /// The Merkle root that the proof refers to.
    pub root: Vec<u8>,
    /// The hash of the spent note's nullifier.
    pub nullifier_hash: Vec<u8>,
    /// Who receives the funds.
    pub recipient: Vec<u8>,
    /// Who relays the withdrawal.
    pub relayer: Vec<u8>,
    /// What the relayer is paid.
    pub fee: Vec<u8>,
    /// What is refunded to the recipient.
    pub refund: Vec<u8>,
}

impl View for WithdrawCall {
    type V = SpecWithdrawCall;

    open spec fn view(&self) -> SpecWithdrawCall {
        SpecWithdrawCall {
            tornado: self.tornado@,
            proof: self.proof@,
            root: self.root@,
            nullifier_hash: self.nullifier_hash@,
            recipient: self.recipient@,
            relayer: self.relayer@,
            fee: self.fee@,
            refund: self.refund@,
        }
    }
}

/// The arguments that `body`, the call data after the selector, encodes;
/// `None` where `body` ends before they do.
pub open spec fn withdraw_arguments(body: Seq<u8>) -> Option<SpecWithdrawCall> {
    if body.len() < 256 {
        None
    } else {
        let at = word_length(word(body, 1));
        if at + 32 > body.len() {
            None
        } else {
            let len = word_length(body.subrange(at, at + 32));
            if at + 32 + len > body.len() {
                None
            } else {
                Some(
                    SpecWithdrawCall {
                        tornado: word_address(word(body, 0)),
                        proof: body.subrange(at + 32, at + 32 + len),
                        root: word(body, 2),
                        nullifier_hash: word(body, 3),
                        recipient: word_address(word(body, 4)),
                        relayer: word_address(word(body, 5)),
                        fee: word(body, 6),
                        refund: word(body, 7),
                    },
                )
            }
        }
    }
}

/// The call of `withdraw` that `data` encodes, or why it encodes none.
pub open spec fn withdraw_call(data: Seq<u8>) -> Result<SpecWithdrawCall, DecodeError> {
    if data.len() < 4 || data.subrange(0, 4) != withdraw_selector() {
        Err(DecodeError::SelectorMismatch)
    } else {
        match withdraw_arguments(data.skip(4)) {
            Some(call) => Ok(call),
            None => Err(DecodeError::Overrun),
        }
    }
}

/// Every decoded call has addresses of 20 bytes and words of 32.
pub proof fn lemma_decoded_call_is_well_formed(data: Seq<u8>)
    ensures
        withdraw_call(data) matches Ok(call) ==> call.well_formed(),
{
}

/// The bytes of `data` from `from` up to `to`, copied out.
fn copy_range(data: &[u8], from: usize, to: usize) -> (out: Vec<u8>)
    requires
        from <= to <= data@.len(),
    ensures
        out@ == data@.subrange(from as int, to as int),
{
    slice_to_vec(slice_subrange(data, from, to))
}

/// Reads the position or length held by the word at `at`.
fn read_length(body: &[u8], at: usize) -> (r: u64)
    requires
        at + 32 <= body@.len() <= usize::MAX,
    ensures
        r == word_length(body@.subrange(at as int, at + 32)),
{
    let b0 = body[at + 24] as u64;
    let b1 = body[at + 25] as u64;
    let b2 = body[at + 26] as u64;
    let b3 = body[at + 27] as u64;
    let b4 = body[at + 28] as u64;
    let b5 = body[at + 29] as u64;
    let b6 = body[at + 30] as u64;
    let b7 = body[at + 31] as u64;
    b0 * 0x100_0000_0000_0000 + b1 * 0x1_0000_0000_0000 + b2 * 0x100_0000_0000 + b3
        * 0x1_0000_0000 + b4 * 0x100_0000 + b5 * 0x1_0000 + b6 * 0x100 + b7
}

/// The decoder of the mixer router's calls.
pub struct TornadoCashSol;

impl TornadoCashSol {
    /// Decodes the call data of one call of `withdraw`.
    ///
    /// Succeeds exactly where the data begins with the selector and holds
    /// all eight arguments; the error says which of the two failed.
    pub fn decode(hex: &[u8]) -> (decoded: Result<WithdrawCall, DecodeError>)
        ensures
            match decoded {
                Ok(call) => withdraw_call(hex@) == Ok::<SpecWithdrawCall, DecodeError>(call@),
                Err(e) => withdraw_call(hex@) == Err::<SpecWithdrawCall, DecodeError>(e),
            },
            decoded matches Ok(call) ==> call@.well_formed(),
    {
        if hex.len() < 4 {
            return Err(DecodeError::SelectorMismatch);
        }
        if hex[0] != 0xb4 || hex[1] != 0x38 || hex[2] != 0x68 || hex[3] != 0x9f {
            return Err(DecodeError::SelectorMismatch);
        }
        proof {
            assert(hex@.subrange(0, 4) =~= withdraw_selector());
        }
        let body = slice_subrange(hex, 4, hex.len());
        let n = body.len();
        if n < 256 {
            return Err(DecodeError::Overrun);
        }
        let at = read_length(body, 32);
        if at > (n - 32) as u64 {
            return Err(DecodeError::Overrun);
        }
        let at = at as usize;
        let len = read_length(body, at);
        if len > (n - 32 - at) as u64 {
            return Err(DecodeError::Overrun);
        }
        let len = len as usize;
        let call = WithdrawCall {
            tornado: copy_range(body, 12, 32),
            proof: copy_range(body, at + 32, at + 32 + len),
            root: copy_range(body, 64, 96),
            nullifier_hash: copy_range(body, 96, 128),
            recipient: copy_range(body, 140, 160),
            relayer: copy_range(body, 172, 192),
            fee: copy_range(body, 192, 224),
            refund: copy_range(body, 224, 256),
        };
        proof {
            let b = body@;
            assert(word_address(word(b, 0)) =~= b.subrange(12, 32));
            assert(word_address(word(b, 4)) =~= b.subrange(140, 160));
            assert(word_address(word(b, 5)) =~= b.subrange(172, 192));
        }
        Ok(call)
    }
}

} // verus!
