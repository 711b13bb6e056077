pub mod access_controller;
pub mod address_list;
pub mod allowlist_registry;
pub mod asset_allowlist;
pub mod audit_log;
pub mod batch_sweep_queue;
pub mod claimable_balance_registry;
pub mod compliance_oracle;
pub mod env;
pub mod fee_splitter;
pub mod multisig_approval;
pub mod nonce_registry;
pub mod notification_registry;
pub mod pause_guardian;
pub mod filters;
pub mod primitives;
pub mod rate_limiter;
pub mod store;
