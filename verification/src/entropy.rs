use vstd::prelude::*;

verus! {

/// A byte from `rand::random::<u8>()`, which draws it from the generator
/// that `rand` keeps for the calling thread. Nothing is claimed of the byte:
/// any of the 256 values may come back, and two calls may differ.
#[verifier::external_body]
pub(crate) fn random_byte() -> (byte: u8) {
    rand::random::<u8>()
}

} // verus!
