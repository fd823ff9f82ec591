//! What the command-line interactor remembers between runs.
use vstd::prelude::*;
use crate::address::Address;

verus! {

/// The bech32 text (human-readable part "erd") of an account address.
pub uninterp spec fn bech32_text(address: Address) -> Seq<char>;

/// Calls `multiversx_sc_scenario::bech32::encode` on the address's 32 bytes.
/// Trusted: the result is the bech32 text of the address, a function of the
/// address alone; nothing more about its characters is claimed.
#[verifier::external_body]
fn encode_bech32(address: &Address) -> (r: String)
    ensures
        r@ == bech32_text(*address),
{
    let bytes = [
        address.w0.to_be_bytes(),
        address.w1.to_be_bytes(),
        address.w2.to_be_bytes(),
        address.w3.to_be_bytes(),
    ].concat();
    let address = multiversx_sc_snippets::imports::Address::from_slice(&bytes);
    multiversx_sc_snippets::imports::bech32::encode(&address)
}

/// The interactor's saved state: the bech32 address of the deployed contract,
/// once there is one.
pub struct State {
    pub contract_address: Option<String>,
}

impl Default for State {
    fn default() -> (r: State)
        ensures
            r.contract_address is None,
    {
        State { contract_address: None }
    }
}

impl State {
    /// Sets the contract address.
    pub fn set_address(&mut self, address: String)
        ensures
            final(self).contract_address == Some(address),
    {
        self.contract_address = Some(address);
    }

    /// Remembers a newly deployed contract by the bech32 text of its address.
    pub fn record_deployment(&mut self, new_address: &Address)
        ensures
            final(self).contract_address matches Some(a) && a@ == bech32_text(*new_address),
    {
        let text = encode_bech32(new_address);
        self.set_address(text);
    }

    /// Returns the contract address. There must be one: the interactor stops
    /// with "no known contract, deploy first" before calling this without one.
    pub fn current_address(&self) -> (r: &String)
        requires
            self.contract_address is Some,
        ensures
            *r == self.contract_address->0,
    {
        match &self.contract_address {
            Some(a) => a,
            None => {
                proof {
                    assert(false);
                }
                unreached()
            },
        }
    }
}

} // verus!
