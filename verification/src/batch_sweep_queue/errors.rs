use vstd::prelude::*;

verus! {

/// Why a batch-sweep-queue call was refused.
#[derive(Clone, Copy, Debug, PartialEq, Eq, PartialOrd, Ord, Structural)]
pub enum Error {
    /// The contract has already been initialized.
    AlreadyInitialized,
    /// A state-changing operation was attempted before initialization.
    NotInitialized,
    /// The caller is not the admin.
    Unauthorized,
    /// The `max` argument to `peek_batch` is zero.
    InvalidBatchSize,
}

impl Error {
    /// The contract error code under which the host reports this error.
    pub fn code(&self) -> (r: u32)
        ensures
            r == match *self {
                Error::AlreadyInitialized => 1u32,
                Error::NotInitialized => 2u32,
                Error::Unauthorized => 3u32,
                Error::InvalidBatchSize => 4u32,
            },
    {
        match self {
            Error::AlreadyInitialized => 1,
            Error::NotInitialized => 2,
            Error::Unauthorized => 3,
            Error::InvalidBatchSize => 4,
        }
    }
}

} // verus!
