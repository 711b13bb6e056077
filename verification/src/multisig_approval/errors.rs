use vstd::prelude::*;

verus! {

/// Why a multisig call was refused.
#[derive(Clone, Copy, Debug, PartialEq, Eq, PartialOrd, Ord, Structural)]
pub enum Error {
    /// The contract has already been initialized.
    AlreadyInitialized,
    /// The contract has not been initialized yet.
    NotInitialized,
    /// The caller is not a registered signer.
    NotASigner,
    /// The threshold exceeds the number of signers.
    ThresholdTooHigh,
    /// The threshold is zero.
    ThresholdZero,
    /// The proposal id does not exist.
    ProposalNotFound,
    /// This signer has already approved this proposal.
    AlreadyApproved,
    /// The caller is not the admin.
    Unauthorized,
    /// The signer list is empty.
    NoSigners,
}

impl Error {
    /// The contract error code under which the host reports this error.
    pub fn code(&self) -> (r: u32)
        ensures
            r == match *self {
                Error::AlreadyInitialized => 5000u32,
                Error::NotInitialized => 5001u32,
                Error::NotASigner => 5002u32,
                Error::ThresholdTooHigh => 5003u32,
                Error::ThresholdZero => 5004u32,
                Error::ProposalNotFound => 5005u32,
                Error::AlreadyApproved => 5006u32,
                Error::Unauthorized => 5007u32,
                Error::NoSigners => 5008u32,
            },
    {
        match self {
            Error::AlreadyInitialized => 5000,
            Error::NotInitialized => 5001,
            Error::NotASigner => 5002,
            Error::ThresholdTooHigh => 5003,
            Error::ThresholdZero => 5004,
            Error::ProposalNotFound => 5005,
            Error::AlreadyApproved => 5006,
            Error::Unauthorized => 5007,
            Error::NoSigners => 5008,
        }
    }
}

} // verus!
