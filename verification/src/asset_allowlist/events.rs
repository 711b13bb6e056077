use vstd::prelude::*;

use super::Env;
use crate::primitives::Address;

verus! {

/// Published when the asset allowlist is initialized.
#[derive(Clone, Debug, PartialEq, Eq)]
pub struct Initialized {
    pub admin: Address,
}

/// Published when an asset is added to the allowlist.
#[derive(Clone, Debug, PartialEq, Eq)]
pub struct AssetAllowed {
    pub asset: Address,
    pub admin: Address,
}

/// Published when an asset is removed from the allowlist.
#[derive(Clone, Debug, PartialEq, Eq)]
pub struct AssetDisallowed {
    pub asset: Address,
    pub admin: Address,
}

/// The events of the asset allowlist, one variant per topic.
#[derive(Clone, Debug, PartialEq, Eq)]
pub enum Event {
    /// Topic `init`.
    Initialized(Initialized),
    /// Topic `allowed`.
    AssetAllowed(AssetAllowed),
    /// Topic `disallowd`.
    AssetDisallowed(AssetDisallowed),
}

pub fn emit_initialized(env: &mut Env, admin: Address)
    ensures
        final(env).publishes(*old(env), Event::Initialized(Initialized { admin })),
{
    env.publish(Event::Initialized(Initialized { admin }));
}

pub fn emit_asset_allowed(env: &mut Env, asset: Address, admin: Address)
    ensures
        final(env).publishes(*old(env), Event::AssetAllowed(AssetAllowed { asset, admin })),
{
    env.publish(Event::AssetAllowed(AssetAllowed { asset, admin }));
}

pub fn emit_asset_disallowed(env: &mut Env, asset: Address, admin: Address)
    ensures
        final(env).publishes(*old(env), Event::AssetDisallowed(AssetDisallowed { asset, admin })),
{
    env.publish(Event::AssetDisallowed(AssetDisallowed { asset, admin }));
}

} // verus!
