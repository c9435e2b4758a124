//! The text form of a contract address.

use alloy_primitives::Address;
use vstd::prelude::*;

verus! {

/// The mixed-case checksum text of the address with these bytes: `0x` and forty
/// hexadecimal digits, whose letters' cases carry a checksum of the digits.
pub uninterp spec fn address_checksum(address: Seq<u8>) -> Seq<char>;

/// Writes `address` out with `alloy_primitives::Address::to_checksum`, for no chain in
/// particular.
///
/// Trusted: the text is taken to be a function of the twenty bytes alone, named
/// [`address_checksum`]. Nothing is assumed of what the text holds.
#[verifier::external_body]
pub(crate) fn checksum_text(address: &[u8; 20]) -> (text: String)
    ensures
        text@ == address_checksum(address@),
{
    Address::new(*address).to_checksum(None)
}

} // verus!
