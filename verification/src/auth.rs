//! The context of one authorized contract invocation.

use vstd::prelude::*;

verus! {

/// What an authorization can be demanded of: an account or a contract, each
/// known by its 32-byte identity.
#[derive(Clone, Copy, Debug, PartialEq, Eq)]
pub enum Address {
    Account([u8; 32]),
    Contract([u8; 32]),
}

impl Address {
    /// The address of the contract with the identity `contract_id`.
    pub fn from_contract_id(contract_id: &[u8; 32]) -> (address: Address)
        ensures
            address == Address::Contract(*contract_id),
    {
        Address::Contract(*contract_id)
    }
}

/// One invocation as the host reports it: the contract that was called, the
/// function's symbol and the arguments in their dynamic representation.
pub struct Context {
    pub contract: [u8; 32],
    pub fn_name: String,
    pub args: Vec<u64>,
}

impl Context {
    /// The address of the contract that was called.
    pub fn contract(&self) -> (address: Address)
        ensures
            address == Address::Contract(self.contract),
    {
        Address::from_contract_id(&self.contract)
    }
}

} // verus!
