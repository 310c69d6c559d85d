//! Verified core of the Earnproof registries: the shared error catalog, the
//! storage-namespace inventory, TTL health reporting, strkey validation, the
//! resumable migration checkpoint, configuration digests, the interface
//! compatibility gates, and executable models of the issuer and proof
//! registries whose every entry point carries a contract.

pub mod ttl;
pub mod table;
pub mod digest;
pub mod errors;
pub mod address;
pub mod migration;
pub mod context;
pub mod records;
pub mod issuer_registry;
pub mod issuer_laws;
pub mod governance;
pub mod proof_registry;
pub mod proof_laws;
pub mod error_catalog;
pub mod storage_namespaces;
pub mod namespace_order;
pub mod gates;
pub mod artifacts;
