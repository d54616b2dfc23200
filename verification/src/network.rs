use vstd::prelude::*;

verus! {

/// Magic value of the network that a default client talks to (regtest).
pub const MAGIC_NUMBER: u32 = 0xDAB5BFFA;

/// The networks a peer can belong to.
#[derive(Copy, Clone, Debug, PartialEq, Eq, Structural)]
pub enum Chain {
    Regtest,
    Testnet3,
}

/// The 4-byte network identifier of each chain, as an integer.
pub open spec fn magic_of(chain: Chain) -> u32 {
    match chain {
        Chain::Regtest => 0xDAB5BFFA,
        Chain::Testnet3 => 0x0709110B,
    }
}

impl Chain {
    /// The magic value that opens every frame on this chain.
    pub fn magic_value(&self) -> (m: u32)
        ensures
            m == magic_of(*self),
    {
        match self {
            Chain::Regtest => 0xDAB5BFFA,
            Chain::Testnet3 => 0x0709110B,
        }
    }
}

} // verus!
