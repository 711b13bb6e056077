use vstd::prelude::*;

verus! {

/// Why a compliance-oracle call was refused.
#[derive(Clone, Copy, Debug, PartialEq, Eq, PartialOrd, Ord, Structural)]
pub enum Error {
    /// `initialize` was called more than once.
    AlreadyInitialized,
    /// The contract has not been initialized yet.
    NotInitialized,
    /// The caller is not the authorized attestor (or, for `set_attestor`, the admin).
    Unauthorized,
    /// The expiry ledger is not strictly after the current ledger.
    InvalidExpiry,
}

impl Error {
    /// The contract error code under which the host reports this error.
    pub fn code(&self) -> (r: u32)
        ensures
            r == match *self {
                Error::AlreadyInitialized => 1u32,
                Error::NotInitialized => 2u32,
                Error::Unauthorized => 3u32,
                Error::InvalidExpiry => 4u32,
            },
    {
        match self {
            Error::AlreadyInitialized => 1,
            Error::NotInitialized => 2,
            Error::Unauthorized => 3,
            Error::InvalidExpiry => 4,
        }
    }
}

} // verus!
