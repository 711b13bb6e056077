use vstd::prelude::*;

verus! {

/// Why an access-controller call was refused.
#[derive(Clone, Copy, Debug, PartialEq, Eq, PartialOrd, Ord, Structural)]
pub enum Error {
    /// `initialize` was called more than once.
    AlreadyInitialized,
    /// The contract has not been initialized.
    NotInitialized,
    /// The caller is neither the super admin nor holds the `admin` role.
    Unauthorized,
    /// The super admin's own `super_admin` role cannot be revoked.
    CannotRevokeSuperAdmin,
}

} // verus!
