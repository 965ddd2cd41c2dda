use vstd::prelude::*;
use rand::Rng;

verus! {

/// The byte length of a blinding factor.
pub const BLINDING_LEN: usize = 32;

/// Relies on rand's `ThreadRng::fill_bytes` (an operating-system-seeded
/// cryptographically secure generator) to fill a 32-byte buffer.  Nothing can
/// be promised of the bytes themselves; only the length is stated.
#[verifier::external_body]
fn fresh_blinding_bytes() -> (r: Vec<u8>)
    ensures
        r@.len() == BLINDING_LEN,
{
    let mut bytes = vec![0u8; 32];
    rand::rng().fill_bytes(&mut bytes);
    bytes
}

/// A revealed fungible value: an amount paired with the cryptographic
/// blinding factor it was concealed under.
#[derive(Clone, Debug)]
pub struct RevealedFungible {
    pub value: u64,
    pub blinding: Vec<u8>,
}

impl RevealedFungible {
    /// A revealed fungible value carries a full-length blinding factor.
    pub open spec fn wf(self) -> bool {
        self.blinding@.len() == BLINDING_LEN
    }

    /// Conceals `value` under a blinding factor drawn freshly from the
    /// process-wide randomness source; every call draws independently.
    pub fn new(value: u64) -> (r: RevealedFungible)
        ensures
            r.value == value,
            r.wf(),
    {
        RevealedFungible { value, blinding: fresh_blinding_bytes() }
    }
}

} // verus!
