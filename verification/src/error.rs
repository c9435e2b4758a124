//! The ways in which the registry refuses a request.

use crate::address::{address_checksum, checksum_text};
use vstd::prelude::*;
use vstd::string::StringExecFns;

verus! {

/// A refusal of the registry. Each one names the address of the contract concerned.
///
/// All three point at a mistake in the way a test was set up, not at a passing
/// condition: none is worth a retry.
#[derive(Clone, Copy, Debug, PartialEq, Eq)]
pub enum RouterError {
    /// A router is registered for the contract already.
    AlreadyInitialized {
        /// The address of the contract.
        contract_address: [u8; 20],
    },
    /// No router is registered for the contract.
    NotInitialized {
        /// The address of the contract.
        contract_address: [u8; 20],
    },
    /// The contract's entry could not be had, because an access to the table that
    /// holds it was still open.
    Locked {
        /// The address of the contract.
        contract_address: [u8; 20],
    },
}

impl RouterError {
    /// The address of the contract that the refusal concerns.
    pub open spec fn address(self) -> [u8; 20] {
        match self {
            RouterError::AlreadyInitialized { contract_address } => contract_address,
            RouterError::NotInitialized { contract_address } => contract_address,
            RouterError::Locked { contract_address } => contract_address,
        }
    }

    /// What is wrong, in words that end where the address follows.
    pub open spec fn preamble(self) -> Seq<char> {
        match self {
            RouterError::AlreadyInitialized { .. } =>
                "contract's router is already initialized - contract_address is "@,
            RouterError::NotInitialized { .. } =>
                "contract's router is not initialized - contract_address is "@,
            RouterError::Locked { .. } =>
                "contract's router is already being accessed - contract_address is "@,
        }
    }

    /// The message of the refusal: what is wrong, then the address in its checksum text.
    pub open spec fn text(self) -> Seq<char> {
        self.preamble() + address_checksum(self.address()@)
    }

    /// The address of the contract that the refusal concerns.
    pub fn contract_address(&self) -> (address: [u8; 20])
        ensures
            address == self.address(),
    {
        match self {
            RouterError::AlreadyInitialized { contract_address } => *contract_address,
            RouterError::NotInitialized { contract_address } => *contract_address,
            RouterError::Locked { contract_address } => *contract_address,
        }
    }

    /// The message of the refusal, which names the contract's address.
    pub fn message(&self) -> (message: String)
        ensures
            message@ == self.text(),
    {
        let mut message = match self {
            RouterError::AlreadyInitialized { .. } => String::from_str(
                "contract's router is already initialized - contract_address is ",
            ),
            RouterError::NotInitialized { .. } => String::from_str(
                "contract's router is not initialized - contract_address is ",
            ),
            RouterError::Locked { .. } => String::from_str(
                "contract's router is already being accessed - contract_address is ",
            ),
        };
        let address = self.contract_address();
        let written = checksum_text(&address);
        message.append(written.as_str());
        message
    }
}

} // verus!
