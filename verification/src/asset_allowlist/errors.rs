use vstd::prelude::*;

verus! {

/// Why an asset-allowlist call was refused.
#[derive(Clone, Copy, Debug, PartialEq, Eq, PartialOrd, Ord, Structural)]
pub enum Error {
    /// `initialize` was called more than once.
    AlreadyInitialized,
    /// A state-changing operation was attempted before initialization.
    NotInitialized,
    /// The caller is not the admin set during `initialize`.
    Unauthorized,
}

impl Error {
    /// The contract error code under which the host reports this error.
    pub fn code(&self) -> (r: u32)
        ensures
            r == match *self {
                Error::AlreadyInitialized => 9000u32,
                Error::NotInitialized => 9001u32,
                Error::Unauthorized => 9002u32,
            },
    {
        match self {
            Error::AlreadyInitialized => 9000,
            Error::NotInitialized => 9001,
            Error::Unauthorized => 9002,
        }
    }
}

} // verus!
