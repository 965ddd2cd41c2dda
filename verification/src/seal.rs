use vstd::prelude::*;

verus! {

/// A reference to a specific transaction output ("seal") to which a piece of
/// owned state is bound: the identifier of the transaction and the index of
/// the output within it.
#[derive(Clone, Debug)]
pub struct Outpoint {
    pub txid: Vec<u8>,
    pub vout: u32,
}

/// Two seals refer to the same transaction output.
pub open spec fn seal_eq(a: Outpoint, b: Outpoint) -> bool {
    a.txid@ == b.txid@ && a.vout == b.vout
}

impl Outpoint {
    /// Decides whether `self` and `other` refer to the same transaction output.
    pub fn same_output(&self, other: &Outpoint) -> (r: bool)
        ensures
            r <==> seal_eq(*self, *other),
    {
        let txid_eq = self.txid == other.txid;
        proof {
            if txid_eq {
                assert(self.txid@ =~= other.txid@);
            }
        }
        self.vout == other.vout && txid_eq
    }
}

} // verus!
