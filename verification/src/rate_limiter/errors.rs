use vstd::prelude::*;

verus! {

/// Why a rate-limiter call was refused.
#[derive(Clone, Copy, Debug, PartialEq, Eq, PartialOrd, Ord, Structural)]
pub enum Error {
    /// `initialize` was called more than once.
    AlreadyInitialized,
    /// The contract has not been initialized.
    NotInitialized,
    /// The caller is not the configured admin.
    Unauthorized,
    /// A window length or call limit of zero was supplied.
    InvalidLimits,
    /// The key has used up its calls for the current window.
    RateLimitExceeded,
}

} // verus!
