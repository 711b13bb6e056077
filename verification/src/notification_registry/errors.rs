use vstd::prelude::*;

verus! {

/// Why a notification-registry call was refused.
#[derive(Clone, Copy, Debug, PartialEq, Eq, PartialOrd, Ord, Structural)]
pub enum Error {
    /// No subscription exists for the `(watched_address, subscriber)` pair.
    NotSubscribed,
}

impl Error {
    /// The contract error code under which the host reports this error.
    pub fn code(&self) -> (r: u32)
        ensures
            r == 11000,
    {
        11000
    }
}

} // verus!
