use vstd::prelude::*;

verus! {

/// Why an audit-log call was refused.
#[derive(Clone, Copy, Debug, PartialEq, Eq, PartialOrd, Ord, Structural)]
pub enum Error {
    /// `initialize` was called more than once.
    AlreadyInitialized,
    /// A state-changing operation was attempted before initialization.
    NotInitialized,
    /// The caller is not the admin set during `initialize`.
    Unauthorized,
    /// `record` was called by an address that is not an authorized writer.
    UnauthorizedWriter,
    /// The requested entry id does not exist.
    EntryNotFound,
}

impl Error {
    /// The contract error code under which the host reports this error.
    pub fn code(&self) -> (r: u32)
        ensures
            r == match *self {
                Error::AlreadyInitialized => 9100u32,
                Error::NotInitialized => 9101u32,
                Error::Unauthorized => 9102u32,
                Error::UnauthorizedWriter => 9103u32,
                Error::EntryNotFound => 9104u32,
            },
    {
        match self {
            Error::AlreadyInitialized => 9100,
            Error::NotInitialized => 9101,
            Error::Unauthorized => 9102,
            Error::UnauthorizedWriter => 9103,
            Error::EntryNotFound => 9104,
        }
    }
}

} // verus!
