use vstd::prelude::*;

verus! {

/// Why a fee-splitter call was refused.
#[derive(Clone, Copy, Debug, PartialEq, Eq, PartialOrd, Ord, Structural)]
pub enum Error {
    /// The contract has already been initialized.
    AlreadyInitialized,
    /// The contract has not been initialized yet.
    NotInitialized,
    /// The caller is not the admin.
    Unauthorized,
    /// The payee list is empty.
    NoPayees,
    /// The payee and share lists differ in length.
    LengthMismatch,
    /// The shares do not sum to exactly 10 000 basis points.
    SharesDoNotSum,
    /// A share is zero.
    ZeroShare,
    /// The amount to split is not positive.
    InvalidAmount,
}

impl Error {
    /// The contract error code under which the host reports this error.
    pub fn code(&self) -> (r: u32)
        ensures
            r == match *self {
                Error::AlreadyInitialized => 6000u32,
                Error::NotInitialized => 6001u32,
                Error::Unauthorized => 6002u32,
                Error::NoPayees => 6003u32,
                Error::LengthMismatch => 6004u32,
                Error::SharesDoNotSum => 6005u32,
                Error::ZeroShare => 6006u32,
                Error::InvalidAmount => 6007u32,
            },
    {
        match self {
            Error::AlreadyInitialized => 6000,
            Error::NotInitialized => 6001,
            Error::Unauthorized => 6002,
            Error::NoPayees => 6003,
            Error::LengthMismatch => 6004,
            Error::SharesDoNotSum => 6005,
            Error::ZeroShare => 6006,
            Error::InvalidAmount => 6007,
        }
    }
}

} // verus!
