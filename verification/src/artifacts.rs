//! Golden artifacts of each contract's interface: entry points, storage keys,
//! error codes and events, as the compatibility gates compare them.

pub mod issuer_registry;
pub mod proof_registry;
pub mod protocol_config;
