//! Account and contract addresses as text.

use vstd::prelude::*;

verus! {

/// The text of a 20-byte address: `0x` and its forty hexadecimal digits,
/// with the mixed-case checksum of EIP-55.
pub uninterp spec fn checksum_text(address: Seq<u8>) -> Seq<char>;

/// Writes a 20-byte address as text.
///
/// Calls `to_string` on an `alloy_primitives::Address` made of the bytes.
/// Believed of it: the text depends on the twenty bytes alone. It is the
/// EIP-55 form, whose letter case comes from a Keccak-256 hash, so the
/// contract names the text and does not spell it out. The call panics on a
/// slice of another length, which `requires` leaves out.
#[verifier::external_body]
pub(crate) fn address_text(address: &[u8]) -> (text: String)
    requires
        address@.len() == 20,
    ensures
        text@ == checksum_text(address@),
{
    alloy_primitives::Address::from_slice(address).to_string()
}

} // verus!
