use vstd::prelude::*;

verus! {

/// Why a pause-guardian call was refused.
#[derive(Clone, Copy, Debug, PartialEq, Eq, Structural)]
pub enum Error {
    /// `initialize` was called more than once.
    AlreadyInitialized,
    /// The contract has not been initialized.
    NotInitialized,
    /// The guardian list is empty.
    InvalidGuardians,
    /// The threshold is zero or exceeds the number of guardians.
    InvalidThreshold,
    /// The caller is not a guardian.
    Unauthorized,
    /// The scope is already paused.
    AlreadyPaused,
    /// The scope is not paused.
    AlreadyUnpaused,
}

impl Error {
    /// The contract error code under which the host reports this error.
    pub fn code(&self) -> (r: u32)
        ensures
            r == match *self {
                Error::AlreadyInitialized => 1u32,
                Error::NotInitialized => 2u32,
                Error::InvalidGuardians => 3u32,
                Error::InvalidThreshold => 4u32,
                Error::Unauthorized => 5u32,
                Error::AlreadyPaused => 6u32,
                Error::AlreadyUnpaused => 7u32,
            },
    {
        match self {
            Error::AlreadyInitialized => 1,
            Error::NotInitialized => 2,
            Error::InvalidGuardians => 3,
            Error::InvalidThreshold => 4,
            Error::Unauthorized => 5,
            Error::AlreadyPaused => 6,
            Error::AlreadyUnpaused => 7,
        }
    }
}

} // verus!
