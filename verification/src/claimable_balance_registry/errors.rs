use vstd::prelude::*;

verus! {

/// Why a claimable-balance-registry call was refused.
#[derive(Clone, Copy, Debug, PartialEq, Eq, PartialOrd, Ord, Structural)]
pub enum Error {
    /// `initialize` was called more than once.
    AlreadyInitialized,
    /// The contract has not been initialized yet.
    NotInitialized,
    /// The caller is not the authorized writer (or, for `set_writer`, the admin).
    Unauthorized,
    /// The balance for this `(recovery_address, asset)` pair is zero.
    NothingToClaim,
    /// `amount` passed to `record` must be positive.
    InvalidAmount,
}

impl Error {
    /// The contract error code under which the host reports this error.
    pub fn code(&self) -> (r: u32)
        ensures
            r == match *self {
                Error::AlreadyInitialized => 1u32,
                Error::NotInitialized => 2u32,
                Error::Unauthorized => 3u32,
                Error::NothingToClaim => 4u32,
                Error::InvalidAmount => 5u32,
            },
    {
        match self {
            Error::AlreadyInitialized => 1,
            Error::NotInitialized => 2,
            Error::Unauthorized => 3,
            Error::NothingToClaim => 4,
            Error::InvalidAmount => 5,
        }
    }
}

} // verus!
