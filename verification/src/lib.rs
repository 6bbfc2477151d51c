//! Execution core of a sharded chain: a registry of domain runtimes with
//! delayed, validated upgrades, and the decision logic of block construction.
//!
//! Every function in this crate is verified against the contract written on
//! it. The calls into `parity-scale-codec`, `sp-version`, `sp-runtime` and
//! `sp-io` stand behind small private functions whose contracts are taken on
//! trust; each of them says so in its documentation.

pub mod block_builder;
pub mod building_laws;
pub mod digest;
pub mod dispatch;
pub mod domains;
pub mod hashing;
pub mod primitives;
pub mod raw_genesis;
pub mod registry_laws;
pub mod runtime_configs;
pub mod runtime_registry;
pub mod upgrade_schedule;
pub mod version;
