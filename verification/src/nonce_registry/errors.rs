use vstd::prelude::*;

verus! {

/// Why a nonce-registry call was refused.
#[derive(Clone, Copy, Debug, PartialEq, Eq, PartialOrd, Ord, Structural)]
pub enum Error {
    /// The `(signer, nonce)` pair was already consumed and cannot be reused.
    NonceAlreadyConsumed,
}

impl Error {
    /// The contract error code under which the host reports this error.
    pub fn code(&self) -> (r: u32)
        ensures
            r == 7000,
    {
        7000
    }
}

} // verus!
