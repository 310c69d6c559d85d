//! Inventory of every storage namespace (`DataKey` variant) of every contract:
//! its durability tier, its payload arity, the type stored under it, and who
//! writes it.

use vstd::prelude::*;
use vstd::string::StringSliceAdditionalSpecFns;

verus! {

/// Durability tier of a storage entry.
#[derive(Copy, Clone, Debug, PartialEq, Eq, Structural)]
pub enum StorageClass {
    /// Stored in instance storage (moves with the contract instance).
    Instance,
    /// Stored in persistent storage (rent-bearing, independent lifecycle).
    Persistent,
    /// Stored in temporary storage (short TTL, cleared on expiry).
    Temporary,
}

pub open spec fn spec_class_name(c: StorageClass) -> &'static str {
    match c {
        StorageClass::Instance => "instance",
        StorageClass::Persistent => "persistent",
        StorageClass::Temporary => "temporary",
    }
}

impl StorageClass {
    /// Stable lower-case name of the tier.
    pub fn as_str(&self) -> (r: &'static str)
        ensures
            r == spec_class_name(*self),
    {
        match self {
            StorageClass::Instance => "instance",
            StorageClass::Persistent => "persistent",
            StorageClass::Temporary => "temporary",
        }
    }
}

/// One `DataKey` variant.
#[derive(Copy, Clone, Debug, PartialEq, Eq)]
pub struct StorageNamespace {
    /// Contract that owns this namespace.
    pub contract: &'static str,
    /// Name of the `DataKey` enum variant.
    pub namespace: &'static str,
    /// Number of payload arguments: 0 for singletons, 1 per record, 2+ composite.
    pub arity: u32,
    /// Durability tier in storage.
    pub class: StorageClass,
    /// Type of value stored under this key.
    pub value: &'static str,
    /// Party that creates or mutates entries under this key.
    pub owner: &'static str,
}

/// The contracts of the protocol.
pub fn contracts() -> (r: [&'static str; 3])
    ensures
        r@ == seq!["issuer-registry", "proof-registry", "protocol-config"],
{
    let r = ["issuer-registry", "proof-registry", "protocol-config"];
    assert(r@ =~= seq!["issuer-registry", "proof-registry", "protocol-config"]);
    r
}

/// Number of inventoried namespaces.
pub const STORAGE_NAMESPACES_LEN: usize = 56;

/// The namespace at position `i` of the inventory, which is sorted by
/// `(contract, namespace)`.
pub open spec fn spec_namespace_at(i: int) -> StorageNamespace {
    if i == 0 {
        StorageNamespace {
            contract: "issuer-registry",
            namespace: "AddressIssuer",
            arity: 1,
            class: StorageClass::Persistent,
            value: "BytesN<32>",
            owner: "registry operator",
        }
    } else if i == 1 {
        StorageNamespace {
            contract: "issuer-registry",
            namespace: "AddressTtl",
            arity: 1,
            class: StorageClass::Persistent,
            value: "u32",
            owner: "keepalive operator",
        }
    } else if i == 2 {
        StorageNamespace {
            contract: "issuer-registry",
            namespace: "Admin",
            arity: 0,
            class: StorageClass::Instance,
            value: "Address",
            owner: "deployment operator",
        }
    } else if i == 3 {
        StorageNamespace {
            contract: "issuer-registry",
            namespace: "AllowedWasm",
            arity: 1,
            class: StorageClass::Persistent,
            value: "UpgradeApprovalRecord",
            owner: "deployment operator",
        }
    } else if i == 4 {
        StorageNamespace {
            contract: "issuer-registry",
            namespace: "ContractVersion",
            arity: 0,
            class: StorageClass::Instance,
            value: "u32",
            owner: "deployment operator",
        }
    } else if i == 5 {
        StorageNamespace {
            contract: "issuer-registry",
            namespace: "CurrentWasmHash",
            arity: 0,
            class: StorageClass::Instance,
            value: "BytesN<32>",
            owner: "deployment operator",
        }
    } else if i == 6 {
        StorageNamespace {
            contract: "issuer-registry",
            namespace: "Decommissioned",
            arity: 0,
            class: StorageClass::Instance,
            value: "bool",
            owner: "registry operator",
        }
    } else if i == 7 {
        StorageNamespace {
            contract: "issuer-registry",
            namespace: "InstanceLiveUntil",
            arity: 0,
            class: StorageClass::Instance,
            value: "u32",
            owner: "keepalive operator",
        }
    } else if i == 8 {
        StorageNamespace {
            contract: "issuer-registry",
            namespace: "Issuer",
            arity: 1,
            class: StorageClass::Persistent,
            value: "IssuerRecord",
            owner: "registry operator",
        }
    } else if i == 9 {
        StorageNamespace {
            contract: "issuer-registry",
            namespace: "IssuerTtl",
            arity: 1,
            class: StorageClass::Persistent,
            value: "u32",
            owner: "keepalive operator",
        }
    } else if i == 10 {
        StorageNamespace {
            contract: "issuer-registry",
            namespace: "LatestUpgradeReceipt",
            arity: 0,
            class: StorageClass::Instance,
            value: "UpgradeReceipt",
            owner: "deployment operator",
        }
    } else if i == 11 {
        StorageNamespace {
            contract: "issuer-registry",
            namespace: "MigrationStatus",
            arity: 0,
            class: StorageClass::Instance,
            value: "MigrationStatus",
            owner: "deployment operator",
        }
    } else if i == 12 {
        StorageNamespace {
            contract: "issuer-registry",
            namespace: "ScopedPause",
            arity: 1,
            class: StorageClass::Persistent,
            value: "bool",
            owner: "deployment operator",
        }
    } else if i == 13 {
        StorageNamespace {
            contract: "issuer-registry",
            namespace: "Successor",
            arity: 0,
            class: StorageClass::Instance,
            value: "Address",
            owner: "registry operator",
        }
    } else if i == 14 {
        StorageNamespace {
            contract: "issuer-registry",
            namespace: "UpgradeApproval",
            arity: 0,
            class: StorageClass::Instance,
            value: "UpgradeApproval",
            owner: "deployment operator",
        }
    } else if i == 15 {
        StorageNamespace {
            contract: "issuer-registry",
            namespace: "UpgradeApprovalMetadata",
            arity: 1,
            class: StorageClass::Persistent,
            value: "UpgradeApprovalMetadata",
            owner: "deployment operator",
        }
    } else if i == 16 {
        StorageNamespace {
            contract: "issuer-registry",
            namespace: "UpgradeHistory",
            arity: 1,
            class: StorageClass::Persistent,
            value: "UpgradeHistoryRecord",
            owner: "deployment operator",
        }
    } else if i == 17 {
        StorageNamespace {
            contract: "issuer-registry",
            namespace: "UpgradeHistoryCount",
            arity: 0,
            class: StorageClass::Instance,
            value: "u32",
            owner: "deployment operator",
        }
    } else if i == 18 {
        StorageNamespace {
            contract: "proof-registry",
            namespace: "Admin",
            arity: 0,
            class: StorageClass::Instance,
            value: "Address",
            owner: "deployment operator",
        }
    } else if i == 19 {
        StorageNamespace {
            contract: "proof-registry",
            namespace: "AllowedWasm",
            arity: 1,
            class: StorageClass::Persistent,
            value: "UpgradeApprovalRecord",
            owner: "deployment operator",
        }
    } else if i == 20 {
        StorageNamespace {
            contract: "proof-registry",
            namespace: "ArchivedProof",
            arity: 1,
            class: StorageClass::Persistent,
            value: "ArchivedProofRecord",
            owner: "issuing party",
        }
    } else if i == 21 {
        StorageNamespace {
            contract: "proof-registry",
            namespace: "ContractVersion",
            arity: 0,
            class: StorageClass::Instance,
            value: "u32",
            owner: "deployment operator",
        }
    } else if i == 22 {
        StorageNamespace {
            contract: "proof-registry",
            namespace: "CurrentWasmHash",
            arity: 0,
            class: StorageClass::Instance,
            value: "BytesN<32>",
            owner: "deployment operator",
        }
    } else if i == 23 {
        StorageNamespace {
            contract: "proof-registry",
            namespace: "InstanceLiveUntil",
            arity: 0,
            class: StorageClass::Instance,
            value: "u32",
            owner: "keepalive operator",
        }
    } else if i == 24 {
        StorageNamespace {
            contract: "proof-registry",
            namespace: "IssuerRegistry",
            arity: 0,
            class: StorageClass::Instance,
            value: "Address",
            owner: "deployment operator",
        }
    } else if i == 25 {
        StorageNamespace {
            contract: "proof-registry",
            namespace: "IssuerRegistryVersion",
            arity: 0,
            class: StorageClass::Instance,
            value: "u32",
            owner: "deployment operator",
        }
    } else if i == 26 {
        StorageNamespace {
            contract: "proof-registry",
            namespace: "LatestUpgradeReceipt",
            arity: 0,
            class: StorageClass::Instance,
            value: "UpgradeReceipt",
            owner: "deployment operator",
        }
    } else if i == 27 {
        StorageNamespace {
            contract: "proof-registry",
            namespace: "MigrationStatus",
            arity: 0,
            class: StorageClass::Instance,
            value: "MigrationStatus",
            owner: "deployment operator",
        }
    } else if i == 28 {
        StorageNamespace {
            contract: "proof-registry",
            namespace: "Proof",
            arity: 1,
            class: StorageClass::Persistent,
            value: "ProofRecord",
            owner: "issuing party",
        }
    } else if i == 29 {
        StorageNamespace {
            contract: "proof-registry",
            namespace: "ProofTtl",
            arity: 1,
            class: StorageClass::Persistent,
            value: "u32",
            owner: "keepalive operator",
        }
    } else if i == 30 {
        StorageNamespace {
            contract: "proof-registry",
            namespace: "ProtocolConfig",
            arity: 0,
            class: StorageClass::Instance,
            value: "Address",
            owner: "deployment operator",
        }
    } else if i == 31 {
        StorageNamespace {
            contract: "proof-registry",
            namespace: "ProtocolConfigVersion",
            arity: 0,
            class: StorageClass::Instance,
            value: "u32",
            owner: "deployment operator",
        }
    } else if i == 32 {
        StorageNamespace {
            contract: "proof-registry",
            namespace: "ScopedPause",
            arity: 1,
            class: StorageClass::Persistent,
            value: "bool",
            owner: "deployment operator",
        }
    } else if i == 33 {
        StorageNamespace {
            contract: "proof-registry",
            namespace: "UpgradeApproval",
            arity: 0,
            class: StorageClass::Instance,
            value: "UpgradeApproval",
            owner: "deployment operator",
        }
    } else if i == 34 {
        StorageNamespace {
            contract: "proof-registry",
            namespace: "UpgradeApprovalMetadata",
            arity: 1,
            class: StorageClass::Persistent,
            value: "UpgradeApprovalMetadata",
            owner: "deployment operator",
        }
    } else if i == 35 {
        StorageNamespace {
            contract: "proof-registry",
            namespace: "UpgradeHistory",
            arity: 1,
            class: StorageClass::Persistent,
            value: "UpgradeHistoryRecord",
            owner: "deployment operator",
        }
    } else if i == 36 {
        StorageNamespace {
            contract: "proof-registry",
            namespace: "UpgradeHistoryCount",
            arity: 0,
            class: StorageClass::Instance,
            value: "u32",
            owner: "deployment operator",
        }
    } else if i == 37 {
        StorageNamespace {
            contract: "protocol-config",
            namespace: "Admin",
            arity: 0,
            class: StorageClass::Instance,
            value: "Address",
            owner: "protocol operator",
        }
    } else if i == 38 {
        StorageNamespace {
            contract: "protocol-config",
            namespace: "AllowedWasm",
            arity: 1,
            class: StorageClass::Persistent,
            value: "UpgradeApprovalRecord",
            owner: "protocol operator",
        }
    } else if i == 39 {
        StorageNamespace {
            contract: "protocol-config",
            namespace: "ConfigVersion",
            arity: 0,
            class: StorageClass::Instance,
            value: "u32",
            owner: "protocol operator",
        }
    } else if i == 40 {
        StorageNamespace {
            contract: "protocol-config",
            namespace: "ContractVersion",
            arity: 0,
            class: StorageClass::Instance,
            value: "u32",
            owner: "protocol operator",
        }
    } else if i == 41 {
        StorageNamespace {
            contract: "protocol-config",
            namespace: "CurrentPause",
            arity: 0,
            class: StorageClass::Instance,
            value: "PauseMetadata",
            owner: "protocol operator",
        }
    } else if i == 42 {
        StorageNamespace {
            contract: "protocol-config",
            namespace: "CurrentWasmHash",
            arity: 0,
            class: StorageClass::Instance,
            value: "BytesN<32>",
            owner: "protocol operator",
        }
    } else if i == 43 {
        StorageNamespace {
            contract: "protocol-config",
            namespace: "InstanceLiveUntil",
            arity: 0,
            class: StorageClass::Instance,
            value: "u32",
            owner: "keepalive operator",
        }
    } else if i == 44 {
        StorageNamespace {
            contract: "protocol-config",
            namespace: "LatestPause",
            arity: 0,
            class: StorageClass::Instance,
            value: "PauseMetadata",
            owner: "protocol operator",
        }
    } else if i == 45 {
        StorageNamespace {
            contract: "protocol-config",
            namespace: "LatestUpgradeReceipt",
            arity: 0,
            class: StorageClass::Instance,
            value: "UpgradeReceipt",
            owner: "protocol operator",
        }
    } else if i == 46 {
        StorageNamespace {
            contract: "protocol-config",
            namespace: "MigrationStatus",
            arity: 0,
            class: StorageClass::Instance,
            value: "MigrationStatus",
            owner: "protocol operator",
        }
    } else if i == 47 {
        StorageNamespace {
            contract: "protocol-config",
            namespace: "Paused",
            arity: 0,
            class: StorageClass::Instance,
            value: "bool",
            owner: "protocol operator",
        }
    } else if i == 48 {
        StorageNamespace {
            contract: "protocol-config",
            namespace: "SchemaRecord",
            arity: 1,
            class: StorageClass::Persistent,
            value: "SchemaRecord",
            owner: "protocol operator",
        }
    } else if i == 49 {
        StorageNamespace {
            contract: "protocol-config",
            namespace: "SchemaTtl",
            arity: 1,
            class: StorageClass::Persistent,
            value: "u32",
            owner: "keepalive operator",
        }
    } else if i == 50 {
        StorageNamespace {
            contract: "protocol-config",
            namespace: "SchemaVersion",
            arity: 1,
            class: StorageClass::Persistent,
            value: "bool",
            owner: "protocol operator",
        }
    } else if i == 51 {
        StorageNamespace {
            contract: "protocol-config",
            namespace: "ScopedPause",
            arity: 1,
            class: StorageClass::Persistent,
            value: "bool",
            owner: "protocol operator",
        }
    } else if i == 52 {
        StorageNamespace {
            contract: "protocol-config",
            namespace: "UpgradeApproval",
            arity: 0,
            class: StorageClass::Instance,
            value: "UpgradeApproval",
            owner: "protocol operator",
        }
    } else if i == 53 {
        StorageNamespace {
            contract: "protocol-config",
            namespace: "UpgradeApprovalMetadata",
            arity: 1,
            class: StorageClass::Persistent,
            value: "UpgradeApprovalMetadata",
            owner: "protocol operator",
        }
    } else if i == 54 {
        StorageNamespace {
            contract: "protocol-config",
            namespace: "UpgradeHistory",
            arity: 1,
            class: StorageClass::Persistent,
            value: "UpgradeHistoryRecord",
            owner: "protocol operator",
        }
    } else {
        StorageNamespace {
            contract: "protocol-config",
            namespace: "UpgradeHistoryCount",
            arity: 0,
            class: StorageClass::Instance,
            value: "u32",
            owner: "protocol operator",
        }
    }
}

/// The whole inventory.
pub open spec fn spec_storage_namespaces() -> Seq<StorageNamespace> {
    Seq::new(STORAGE_NAMESPACES_LEN as nat, |i: int| spec_namespace_at(i))
}

fn namespace_entry(i: usize) -> (r: StorageNamespace)
    requires
        i < STORAGE_NAMESPACES_LEN,
    ensures
        r == spec_namespace_at(i as int),
{
    match i {
        0 => StorageNamespace {
            contract: "issuer-registry",
            namespace: "AddressIssuer",
            arity: 1,
            class: StorageClass::Persistent,
            value: "BytesN<32>",
            owner: "registry operator",
        },
        1 => StorageNamespace {
            contract: "issuer-registry",
            namespace: "AddressTtl",
            arity: 1,
            class: StorageClass::Persistent,
            value: "u32",
            owner: "keepalive operator",
        },
        2 => StorageNamespace {
            contract: "issuer-registry",
            namespace: "Admin",
            arity: 0,
            class: StorageClass::Instance,
            value: "Address",
            owner: "deployment operator",
        },
        3 => StorageNamespace {
            contract: "issuer-registry",
            namespace: "AllowedWasm",
            arity: 1,
            class: StorageClass::Persistent,
            value: "UpgradeApprovalRecord",
            owner: "deployment operator",
        },
        4 => StorageNamespace {
            contract: "issuer-registry",
            namespace: "ContractVersion",
            arity: 0,
            class: StorageClass::Instance,
            value: "u32",
            owner: "deployment operator",
        },
        5 => StorageNamespace {
            contract: "issuer-registry",
            namespace: "CurrentWasmHash",
            arity: 0,
            class: StorageClass::Instance,
            value: "BytesN<32>",
            owner: "deployment operator",
        },
        6 => StorageNamespace {
            contract: "issuer-registry",
            namespace: "Decommissioned",
            arity: 0,
            class: StorageClass::Instance,
            value: "bool",
            owner: "registry operator",
        },
        7 => StorageNamespace {
            contract: "issuer-registry",
            namespace: "InstanceLiveUntil",
            arity: 0,
            class: StorageClass::Instance,
            value: "u32",
            owner: "keepalive operator",
        },
        8 => StorageNamespace {
            contract: "issuer-registry",
            namespace: "Issuer",
            arity: 1,
            class: StorageClass::Persistent,
            value: "IssuerRecord",
            owner: "registry operator",
        },
        9 => StorageNamespace {
            contract: "issuer-registry",
            namespace: "IssuerTtl",
            arity: 1,
            class: StorageClass::Persistent,
            value: "u32",
            owner: "keepalive operator",
        },
        10 => StorageNamespace {
            contract: "issuer-registry",
            namespace: "LatestUpgradeReceipt",
            arity: 0,
            class: StorageClass::Instance,
            value: "UpgradeReceipt",
            owner: "deployment operator",
        },
        11 => StorageNamespace {
            contract: "issuer-registry",
            namespace: "MigrationStatus",
            arity: 0,
            class: StorageClass::Instance,
            value: "MigrationStatus",
            owner: "deployment operator",
        },
        12 => StorageNamespace {
            contract: "issuer-registry",
            namespace: "ScopedPause",
            arity: 1,
            class: StorageClass::Persistent,
            value: "bool",
            owner: "deployment operator",
        },
        13 => StorageNamespace {
            contract: "issuer-registry",
            namespace: "Successor",
            arity: 0,
            class: StorageClass::Instance,
            value: "Address",
            owner: "registry operator",
        },
        14 => StorageNamespace {
            contract: "issuer-registry",
            namespace: "UpgradeApproval",
            arity: 0,
            class: StorageClass::Instance,
            value: "UpgradeApproval",
            owner: "deployment operator",
        },
        15 => StorageNamespace {
            contract: "issuer-registry",
            namespace: "UpgradeApprovalMetadata",
            arity: 1,
            class: StorageClass::Persistent,
            value: "UpgradeApprovalMetadata",
            owner: "deployment operator",
        },
        16 => StorageNamespace {
            contract: "issuer-registry",
            namespace: "UpgradeHistory",
            arity: 1,
            class: StorageClass::Persistent,
            value: "UpgradeHistoryRecord",
            owner: "deployment operator",
        },
        17 => StorageNamespace {
            contract: "issuer-registry",
            namespace: "UpgradeHistoryCount",
            arity: 0,
            class: StorageClass::Instance,
            value: "u32",
            owner: "deployment operator",
        },
        18 => StorageNamespace {
            contract: "proof-registry",
            namespace: "Admin",
            arity: 0,
            class: StorageClass::Instance,
            value: "Address",
            owner: "deployment operator",
        },
        19 => StorageNamespace {
            contract: "proof-registry",
            namespace: "AllowedWasm",
            arity: 1,
            class: StorageClass::Persistent,
            value: "UpgradeApprovalRecord",
            owner: "deployment operator",
        },
        20 => StorageNamespace {
            contract: "proof-registry",
            namespace: "ArchivedProof",
            arity: 1,
            class: StorageClass::Persistent,
            value: "ArchivedProofRecord",
            owner: "issuing party",
        },
        21 => StorageNamespace {
            contract: "proof-registry",
            namespace: "ContractVersion",
            arity: 0,
            class: StorageClass::Instance,
            value: "u32",
            owner: "deployment operator",
        },
        22 => StorageNamespace {
            contract: "proof-registry",
            namespace: "CurrentWasmHash",
            arity: 0,
            class: StorageClass::Instance,
            value: "BytesN<32>",
            owner: "deployment operator",
        },
        23 => StorageNamespace {
            contract: "proof-registry",
            namespace: "InstanceLiveUntil",
            arity: 0,
            class: StorageClass::Instance,
            value: "u32",
            owner: "keepalive operator",
        },
        24 => StorageNamespace {
            contract: "proof-registry",
            namespace: "IssuerRegistry",
            arity: 0,
            class: StorageClass::Instance,
            value: "Address",
            owner: "deployment operator",
        },
        25 => StorageNamespace {
            contract: "proof-registry",
            namespace: "IssuerRegistryVersion",
            arity: 0,
            class: StorageClass::Instance,
            value: "u32",
            owner: "deployment operator",
        },
        26 => StorageNamespace {
            contract: "proof-registry",
            namespace: "LatestUpgradeReceipt",
            arity: 0,
            class: StorageClass::Instance,
            value: "UpgradeReceipt",
            owner: "deployment operator",
        },
        27 => StorageNamespace {
            contract: "proof-registry",
            namespace: "MigrationStatus",
            arity: 0,
            class: StorageClass::Instance,
            value: "MigrationStatus",
            owner: "deployment operator",
        },
        28 => StorageNamespace {
            contract: "proof-registry",
            namespace: "Proof",
            arity: 1,
            class: StorageClass::Persistent,
            value: "ProofRecord",
            owner: "issuing party",
        },
        29 => StorageNamespace {
            contract: "proof-registry",
            namespace: "ProofTtl",
            arity: 1,
            class: StorageClass::Persistent,
            value: "u32",
            owner: "keepalive operator",
        },
        30 => StorageNamespace {
            contract: "proof-registry",
            namespace: "ProtocolConfig",
            arity: 0,
            class: StorageClass::Instance,
            value: "Address",
            owner: "deployment operator",
        },
        31 => StorageNamespace {
            contract: "proof-registry",
            namespace: "ProtocolConfigVersion",
            arity: 0,
            class: StorageClass::Instance,
            value: "u32",
            owner: "deployment operator",
        },
        32 => StorageNamespace {
            contract: "proof-registry",
            namespace: "ScopedPause",
            arity: 1,
            class: StorageClass::Persistent,
            value: "bool",
            owner: "deployment operator",
        },
        33 => StorageNamespace {
            contract: "proof-registry",
            namespace: "UpgradeApproval",
            arity: 0,
            class: StorageClass::Instance,
            value: "UpgradeApproval",
            owner: "deployment operator",
        },
        34 => StorageNamespace {
            contract: "proof-registry",
            namespace: "UpgradeApprovalMetadata",
            arity: 1,
            class: StorageClass::Persistent,
            value: "UpgradeApprovalMetadata",
            owner: "deployment operator",
        },
        35 => StorageNamespace {
            contract: "proof-registry",
            namespace: "UpgradeHistory",
            arity: 1,
            class: StorageClass::Persistent,
            value: "UpgradeHistoryRecord",
            owner: "deployment operator",
        },
        36 => StorageNamespace {
            contract: "proof-registry",
            namespace: "UpgradeHistoryCount",
            arity: 0,
            class: StorageClass::Instance,
            value: "u32",
            owner: "deployment operator",
        },
        37 => StorageNamespace {
            contract: "protocol-config",
            namespace: "Admin",
            arity: 0,
            class: StorageClass::Instance,
            value: "Address",
            owner: "protocol operator",
        },
        38 => StorageNamespace {
            contract: "protocol-config",
            namespace: "AllowedWasm",
            arity: 1,
            class: StorageClass::Persistent,
            value: "UpgradeApprovalRecord",
            owner: "protocol operator",
        },
        39 => StorageNamespace {
            contract: "protocol-config",
            namespace: "ConfigVersion",
            arity: 0,
            class: StorageClass::Instance,
            value: "u32",
            owner: "protocol operator",
        },
        40 => StorageNamespace {
            contract: "protocol-config",
            namespace: "ContractVersion",
            arity: 0,
            class: StorageClass::Instance,
            value: "u32",
            owner: "protocol operator",
        },
        41 => StorageNamespace {
            contract: "protocol-config",
            namespace: "CurrentPause",
            arity: 0,
            class: StorageClass::Instance,
            value: "PauseMetadata",
            owner: "protocol operator",
        },
        42 => StorageNamespace {
            contract: "protocol-config",
            namespace: "CurrentWasmHash",
            arity: 0,
            class: StorageClass::Instance,
            value: "BytesN<32>",
            owner: "protocol operator",
        },
        43 => StorageNamespace {
            contract: "protocol-config",
            namespace: "InstanceLiveUntil",
            arity: 0,
            class: StorageClass::Instance,
            value: "u32",
            owner: "keepalive operator",
        },
        44 => StorageNamespace {
            contract: "protocol-config",
            namespace: "LatestPause",
            arity: 0,
            class: StorageClass::Instance,
            value: "PauseMetadata",
            owner: "protocol operator",
        },
        45 => StorageNamespace {
            contract: "protocol-config",
            namespace: "LatestUpgradeReceipt",
            arity: 0,
            class: StorageClass::Instance,
            value: "UpgradeReceipt",
            owner: "protocol operator",
        },
        46 => StorageNamespace {
            contract: "protocol-config",
            namespace: "MigrationStatus",
            arity: 0,
            class: StorageClass::Instance,
            value: "MigrationStatus",
            owner: "protocol operator",
        },
        47 => StorageNamespace {
            contract: "protocol-config",
            namespace: "Paused",
            arity: 0,
            class: StorageClass::Instance,
            value: "bool",
            owner: "protocol operator",
        },
        48 => StorageNamespace {
            contract: "protocol-config",
            namespace: "SchemaRecord",
            arity: 1,
            class: StorageClass::Persistent,
            value: "SchemaRecord",
            owner: "protocol operator",
        },
        49 => StorageNamespace {
            contract: "protocol-config",
            namespace: "SchemaTtl",
            arity: 1,
            class: StorageClass::Persistent,
            value: "u32",
            owner: "keepalive operator",
        },
        50 => StorageNamespace {
            contract: "protocol-config",
            namespace: "SchemaVersion",
            arity: 1,
            class: StorageClass::Persistent,
            value: "bool",
            owner: "protocol operator",
        },
        51 => StorageNamespace {
            contract: "protocol-config",
            namespace: "ScopedPause",
            arity: 1,
            class: StorageClass::Persistent,
            value: "bool",
            owner: "protocol operator",
        },
        52 => StorageNamespace {
            contract: "protocol-config",
            namespace: "UpgradeApproval",
            arity: 0,
            class: StorageClass::Instance,
            value: "UpgradeApproval",
            owner: "protocol operator",
        },
        53 => StorageNamespace {
            contract: "protocol-config",
            namespace: "UpgradeApprovalMetadata",
            arity: 1,
            class: StorageClass::Persistent,
            value: "UpgradeApprovalMetadata",
            owner: "protocol operator",
        },
        54 => StorageNamespace {
            contract: "protocol-config",
            namespace: "UpgradeHistory",
            arity: 1,
            class: StorageClass::Persistent,
            value: "UpgradeHistoryRecord",
            owner: "protocol operator",
        },
        _ => StorageNamespace {
            contract: "protocol-config",
            namespace: "UpgradeHistoryCount",
            arity: 0,
            class: StorageClass::Instance,
            value: "u32",
            owner: "protocol operator",
        },
    }
}

/// The whole inventory, sorted by `(contract, namespace)`.
pub fn storage_namespaces() -> (r: Vec<StorageNamespace>)
    ensures
        r@ == spec_storage_namespaces(),
{
    let mut v: Vec<StorageNamespace> = Vec::new();
    let mut i: usize = 0;
    while i < STORAGE_NAMESPACES_LEN
        invariant
            i <= STORAGE_NAMESPACES_LEN,
            v@ =~= Seq::new(i as nat, |k: int| spec_namespace_at(k)),
        decreases STORAGE_NAMESPACES_LEN - i,
    {
        v.push(namespace_entry(i));
        i = i + 1;
    }
    v
}

/// Whether two strings have the same UTF-8 bytes.
pub fn str_equal(a: &str, b: &str) -> (r: bool)
    ensures
        r == (a.spec_bytes() == b.spec_bytes()),
{
    let x = a.as_bytes();
    let y = b.as_bytes();
    if x.len() != y.len() {
        return false;
    }
    let mut i: usize = 0;
    while i < x.len()
        invariant
            x@ == a.spec_bytes(),
            y@ == b.spec_bytes(),
            x@.len() == y@.len(),
            i <= x@.len(),
            forall|j: int| 0 <= j < i ==> x@[j] == y@[j],
        decreases x@.len() - i,
    {
        if x[i] != y[i] {
            return false;
        }
        i = i + 1;
    }
    assert(x@ =~= y@);
    true
}

/// Entry `i` belongs to `contract` and is named `namespace` (compared by bytes).
pub open spec fn spec_entry_is(i: int, contract: &str, namespace: &str) -> bool {
    spec_namespace_at(i).contract.spec_bytes() == contract.spec_bytes()
        && spec_namespace_at(i).namespace.spec_bytes() == namespace.spec_bytes()
}

/// Looks up a namespace entry by contract and namespace name: the first entry
/// with both names, if any.
pub fn namespace(contract: &str, name: &str) -> (r: Option<StorageNamespace>)
    ensures
        match r {
            Some(e) => exists|i: int|
                0 <= i < STORAGE_NAMESPACES_LEN && #[trigger] spec_namespace_at(i) == e
                    && spec_entry_is(i, contract, name) && forall|j: int|
                    0 <= j < i ==> !spec_entry_is(j, contract, name),
            None => forall|i: int| 0 <= i < STORAGE_NAMESPACES_LEN ==> !spec_entry_is(i, contract, name),
        },
{
    let all = storage_namespaces();
    let mut i: usize = 0;
    while i < STORAGE_NAMESPACES_LEN
        invariant
            i <= STORAGE_NAMESPACES_LEN,
            all@ == spec_storage_namespaces(),
            forall|j: int| 0 <= j < i ==> !spec_entry_is(j, contract, name),
        decreases STORAGE_NAMESPACES_LEN - i,
    {
        let entry = all[i];
        assert(entry == spec_namespace_at(i as int));
        if str_equal(entry.contract, contract) && str_equal(entry.namespace, name) {
            return Some(entry);
        }
        i = i + 1;
    }
    None
}

/// The names, in inventory order, of the namespaces `contract` keeps in `class`.
pub open spec fn spec_names_for(contract: &str, class: StorageClass, upto: int) -> Seq<&'static str>
    decreases upto,
{
    if upto <= 0 {
        Seq::empty()
    } else {
        let prev = spec_names_for(contract, class, upto - 1);
        let e = spec_namespace_at(upto - 1);
        if e.contract.spec_bytes() == contract.spec_bytes() && e.class == class {
            prev.push(e.namespace)
        } else {
            prev
        }
    }
}

/// Every namespace declared for a contract in a durability tier, in
/// inventory order.
pub fn namespaces_for(contract: &str, class: StorageClass) -> (r: Vec<&'static str>)
    ensures
        r@ == spec_names_for(contract, class, STORAGE_NAMESPACES_LEN as int),
{
    let all = storage_namespaces();
    let mut names: Vec<&'static str> = Vec::new();
    let mut i: usize = 0;
    while i < STORAGE_NAMESPACES_LEN
        invariant
            i <= STORAGE_NAMESPACES_LEN,
            all@ == spec_storage_namespaces(),
            names@ == spec_names_for(contract, class, i as int),
        decreases STORAGE_NAMESPACES_LEN - i,
    {
        let entry = all[i];
        assert(entry == spec_namespace_at(i as int));
        if str_equal(entry.contract, contract) && entry.class == class {
            names.push(entry.namespace);
        }
        i = i + 1;
    }
    names
}

} // verus!
