//! Account addresses.
use vstd::prelude::*;

verus! {

/// A 32-byte account address, held as four big-endian 64-bit words
/// (`w0` holds bytes 0..8, `w3` holds bytes 24..32).
#[derive(Clone, Copy, Debug, PartialEq, Eq, Structural)]
pub struct Address {
    pub w0: u64,
    pub w1: u64,
    pub w2: u64,
    pub w3: u64,
}

impl Address {
    /// The address made of the four given words.
    pub fn from_words(w0: u64, w1: u64, w2: u64, w3: u64) -> (r: Address)
        ensures
            r == (Address { w0, w1, w2, w3 }),
    {
        Address { w0, w1, w2, w3 }
    }
}

} // verus!
