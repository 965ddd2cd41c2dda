use vstd::prelude::*;

verus! {

/// The network a contract targets.  A single enumerated selector; the
/// builder starts from the canonical default network and the last
/// configuration call wins.
#[derive(Clone, Copy, Debug, PartialEq, Eq, Structural)]
pub enum Chain {
    Bitcoin,
    Testnet3,
    Signet,
    Regtest,
    LiquidV1,
    LiquidTestnet,
}

impl Default for Chain {
    /// The canonical default network used when no chain was configured.
    fn default() -> (r: Self)
        ensures
            r == Chain::Testnet3,
    {
        Chain::Testnet3
    }
}

} // verus!
