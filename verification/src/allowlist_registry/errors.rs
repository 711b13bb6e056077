use vstd::prelude::*;

verus! {

/// Why an allowlist-registry call was refused.
#[derive(Clone, Copy, Debug, PartialEq, Eq, PartialOrd, Ord, Structural)]
pub enum Error {
    /// `initialize` was called more than once.
    AlreadyInitialized,
    /// A state-changing operation was attempted before initialization.
    NotInitialized,
    /// The caller is not the admin set during `initialize`.
    Unauthorized,
}

impl Error {
    /// The contract error code under which the host reports this error.
    pub fn code(&self) -> (r: u32)
        ensures
            r == match *self {
                Error::AlreadyInitialized => 8000u32,
                Error::NotInitialized => 8001u32,
                Error::Unauthorized => 8002u32,
            },
    {
        match self {
            Error::AlreadyInitialized => 8000,
            Error::NotInitialized => 8001,
            Error::Unauthorized => 8002,
        }
    }
}

} // verus!
