//! The storage-namespace inventory is strictly sorted by `(contract,
//! namespace)` in code-point order, which makes every entry's pair of names
//! unique: no two namespaces of the protocol collide.

use vstd::prelude::*;
use crate::storage_namespaces::{spec_entry_is, spec_namespace_at, STORAGE_NAMESPACES_LEN};

verus! {

/// Lexicographic order on character sequences, by code point.
pub open spec fn chars_lt(a: Seq<char>, b: Seq<char>) -> bool
    decreases a.len(),
{
    if a.len() == 0 {
        b.len() > 0
    } else if b.len() == 0 {
        false
    } else if a[0] != b[0] {
        (a[0] as u32) < (b[0] as u32)
    } else {
        chars_lt(a.drop_first(), b.drop_first())
    }
}

/// `a` precedes `b` when they agree before position `k` and `a` is shorter
/// there or has the smaller character.
proof fn lemma_lt_at(a: Seq<char>, b: Seq<char>, k: int)
    requires
        0 <= k <= a.len(),
        k <= b.len(),
        forall|i: int| 0 <= i < k ==> a[i] == b[i],
        (k == a.len() && k < b.len()) || (k < a.len() && k < b.len() && (a[k] as u32) < (b[k] as u32)),
    ensures
        chars_lt(a, b),
    decreases k,
{
    if k > 0 {
        assert(a[0] == b[0]);
        assert forall|i: int| 0 <= i < k - 1 implies a.drop_first()[i] == b.drop_first()[i] by {
            assert(a[i + 1] == b[i + 1]);
        }
        lemma_lt_at(a.drop_first(), b.drop_first(), k - 1);
    }
}

/// No sequence precedes itself.
proof fn lemma_lt_irreflexive(a: Seq<char>)
    ensures
        !chars_lt(a, a),
    decreases a.len(),
{
    if a.len() > 0 {
        lemma_lt_irreflexive(a.drop_first());
    }
}

/// The order is transitive.
proof fn lemma_lt_transitive(a: Seq<char>, b: Seq<char>, c: Seq<char>)
    requires
        chars_lt(a, b),
        chars_lt(b, c),
    ensures
        chars_lt(a, c),
    decreases a.len(),
{
    if a.len() > 0 && b.len() > 0 && c.len() > 0 && a[0] == b[0] && b[0] == c[0] {
        lemma_lt_transitive(a.drop_first(), b.drop_first(), c.drop_first());
    }
}

/// Entry `i` precedes entry `j` in `(contract, namespace)` order.
pub open spec fn entry_lt(i: int, j: int) -> bool {
    let x = spec_namespace_at(i);
    let y = spec_namespace_at(j);
    chars_lt(x.contract@, y.contract@) || (x.contract@ == y.contract@ && chars_lt(
        x.namespace@,
        y.namespace@,
    ))
}

proof fn lemma_entry_lt_transitive(i: int, j: int, k: int)
    requires
        entry_lt(i, j),
        entry_lt(j, k),
    ensures
        entry_lt(i, k),
{
    let (x, y, z) = (spec_namespace_at(i), spec_namespace_at(j), spec_namespace_at(k));
    if chars_lt(x.contract@, y.contract@) && chars_lt(y.contract@, z.contract@) {
        lemma_lt_transitive(x.contract@, y.contract@, z.contract@);
    } else if x.contract@ == y.contract@ && y.contract@ == z.contract@ {
        lemma_lt_transitive(x.namespace@, y.namespace@, z.namespace@);
    }
}

/// Each entry precedes the next one.
#[verifier::rlimit(50)]
proof fn lemma_adjacent_entries_are_ordered(i: int)
    requires
        0 <= i < STORAGE_NAMESPACES_LEN - 1,
    ensures
        entry_lt(i, i + 1),
{
    if i == 0 {
        reveal_strlit("AddressIssuer");
        reveal_strlit("AddressTtl");
        lemma_lt_at("AddressIssuer"@, "AddressTtl"@, 7);
    } else if i == 1 {
        reveal_strlit("AddressTtl");
        reveal_strlit("Admin");
        lemma_lt_at("AddressTtl"@, "Admin"@, 2);
    } else if i == 2 {
        reveal_strlit("Admin");
        reveal_strlit("AllowedWasm");
        lemma_lt_at("Admin"@, "AllowedWasm"@, 1);
    } else if i == 3 {
        reveal_strlit("AllowedWasm");
        reveal_strlit("ContractVersion");
        lemma_lt_at("AllowedWasm"@, "ContractVersion"@, 0);
    } else if i == 4 {
        reveal_strlit("ContractVersion");
        reveal_strlit("CurrentWasmHash");
        lemma_lt_at("ContractVersion"@, "CurrentWasmHash"@, 1);
    } else if i == 5 {
        reveal_strlit("CurrentWasmHash");
        reveal_strlit("Decommissioned");
        lemma_lt_at("CurrentWasmHash"@, "Decommissioned"@, 0);
    } else if i == 6 {
        reveal_strlit("Decommissioned");
        reveal_strlit("InstanceLiveUntil");
        lemma_lt_at("Decommissioned"@, "InstanceLiveUntil"@, 0);
    } else if i == 7 {
        reveal_strlit("InstanceLiveUntil");
        reveal_strlit("Issuer");
        lemma_lt_at("InstanceLiveUntil"@, "Issuer"@, 1);
    } else if i == 8 {
        reveal_strlit("Issuer");
        reveal_strlit("IssuerTtl");
        lemma_lt_at("Issuer"@, "IssuerTtl"@, 6);
    } else if i == 9 {
        reveal_strlit("IssuerTtl");
        reveal_strlit("LatestUpgradeReceipt");
        lemma_lt_at("IssuerTtl"@, "LatestUpgradeReceipt"@, 0);
    } else if i == 10 {
        reveal_strlit("LatestUpgradeReceipt");
        reveal_strlit("MigrationStatus");
        lemma_lt_at("LatestUpgradeReceipt"@, "MigrationStatus"@, 0);
    } else if i == 11 {
        reveal_strlit("MigrationStatus");
        reveal_strlit("ScopedPause");
        lemma_lt_at("MigrationStatus"@, "ScopedPause"@, 0);
    } else if i == 12 {
        reveal_strlit("ScopedPause");
        reveal_strlit("Successor");
        lemma_lt_at("ScopedPause"@, "Successor"@, 1);
    } else if i == 13 {
        reveal_strlit("Successor");
        reveal_strlit("UpgradeApproval");
        lemma_lt_at("Successor"@, "UpgradeApproval"@, 0);
    } else if i == 14 {
        reveal_strlit("UpgradeApproval");
        reveal_strlit("UpgradeApprovalMetadata");
        lemma_lt_at("UpgradeApproval"@, "UpgradeApprovalMetadata"@, 15);
    } else if i == 15 {
        reveal_strlit("UpgradeApprovalMetadata");
        reveal_strlit("UpgradeHistory");
        lemma_lt_at("UpgradeApprovalMetadata"@, "UpgradeHistory"@, 7);
    } else if i == 16 {
        reveal_strlit("UpgradeHistory");
        reveal_strlit("UpgradeHistoryCount");
        lemma_lt_at("UpgradeHistory"@, "UpgradeHistoryCount"@, 14);
    } else if i == 17 {
        reveal_strlit("issuer-registry");
        reveal_strlit("proof-registry");
        lemma_lt_at("issuer-registry"@, "proof-registry"@, 0);
    } else if i == 18 {
        reveal_strlit("Admin");
        reveal_strlit("AllowedWasm");
        lemma_lt_at("Admin"@, "AllowedWasm"@, 1);
    } else if i == 19 {
        reveal_strlit("AllowedWasm");
        reveal_strlit("ArchivedProof");
        lemma_lt_at("AllowedWasm"@, "ArchivedProof"@, 1);
    } else if i == 20 {
        reveal_strlit("ArchivedProof");
        reveal_strlit("ContractVersion");
        lemma_lt_at("ArchivedProof"@, "ContractVersion"@, 0);
    } else if i == 21 {
        reveal_strlit("ContractVersion");
        reveal_strlit("CurrentWasmHash");
        lemma_lt_at("ContractVersion"@, "CurrentWasmHash"@, 1);
    } else if i == 22 {
        reveal_strlit("CurrentWasmHash");
        reveal_strlit("InstanceLiveUntil");
        lemma_lt_at("CurrentWasmHash"@, "InstanceLiveUntil"@, 0);
    } else if i == 23 {
        reveal_strlit("InstanceLiveUntil");
        reveal_strlit("IssuerRegistry");
        lemma_lt_at("InstanceLiveUntil"@, "IssuerRegistry"@, 1);
    } else if i == 24 {
        reveal_strlit("IssuerRegistry");
        reveal_strlit("IssuerRegistryVersion");
        lemma_lt_at("IssuerRegistry"@, "IssuerRegistryVersion"@, 14);
    } else if i == 25 {
        reveal_strlit("IssuerRegistryVersion");
        reveal_strlit("LatestUpgradeReceipt");
        lemma_lt_at("IssuerRegistryVersion"@, "LatestUpgradeReceipt"@, 0);
    } else if i == 26 {
        reveal_strlit("LatestUpgradeReceipt");
        reveal_strlit("MigrationStatus");
        lemma_lt_at("LatestUpgradeReceipt"@, "MigrationStatus"@, 0);
    } else if i == 27 {
        reveal_strlit("MigrationStatus");
        reveal_strlit("Proof");
        lemma_lt_at("MigrationStatus"@, "Proof"@, 0);
    } else if i == 28 {
        reveal_strlit("Proof");
        reveal_strlit("ProofTtl");
        lemma_lt_at("Proof"@, "ProofTtl"@, 5);
    } else if i == 29 {
        reveal_strlit("ProofTtl");
        reveal_strlit("ProtocolConfig");
        lemma_lt_at("ProofTtl"@, "ProtocolConfig"@, 3);
    } else if i == 30 {
        reveal_strlit("ProtocolConfig");
        reveal_strlit("ProtocolConfigVersion");
        lemma_lt_at("ProtocolConfig"@, "ProtocolConfigVersion"@, 14);
    } else if i == 31 {
        reveal_strlit("ProtocolConfigVersion");
        reveal_strlit("ScopedPause");
        lemma_lt_at("ProtocolConfigVersion"@, "ScopedPause"@, 0);
    } else if i == 32 {
        reveal_strlit("ScopedPause");
        reveal_strlit("UpgradeApproval");
        lemma_lt_at("ScopedPause"@, "UpgradeApproval"@, 0);
    } else if i == 33 {
        reveal_strlit("UpgradeApproval");
        reveal_strlit("UpgradeApprovalMetadata");
        lemma_lt_at("UpgradeApproval"@, "UpgradeApprovalMetadata"@, 15);
    } else if i == 34 {
        reveal_strlit("UpgradeApprovalMetadata");
        reveal_strlit("UpgradeHistory");
        lemma_lt_at("UpgradeApprovalMetadata"@, "UpgradeHistory"@, 7);
    } else if i == 35 {
        reveal_strlit("UpgradeHistory");
        reveal_strlit("UpgradeHistoryCount");
        lemma_lt_at("UpgradeHistory"@, "UpgradeHistoryCount"@, 14);
    } else if i == 36 {
        reveal_strlit("proof-registry");
        reveal_strlit("protocol-config");
        lemma_lt_at("proof-registry"@, "protocol-config"@, 3);
    } else if i == 37 {
        reveal_strlit("Admin");
        reveal_strlit("AllowedWasm");
        lemma_lt_at("Admin"@, "AllowedWasm"@, 1);
    } else if i == 38 {
        reveal_strlit("AllowedWasm");
        reveal_strlit("ConfigVersion");
        lemma_lt_at("AllowedWasm"@, "ConfigVersion"@, 0);
    } else if i == 39 {
        reveal_strlit("ConfigVersion");
        reveal_strlit("ContractVersion");
        lemma_lt_at("ConfigVersion"@, "ContractVersion"@, 3);
    } else if i == 40 {
        reveal_strlit("ContractVersion");
        reveal_strlit("CurrentPause");
        lemma_lt_at("ContractVersion"@, "CurrentPause"@, 1);
    } else if i == 41 {
        reveal_strlit("CurrentPause");
        reveal_strlit("CurrentWasmHash");
        lemma_lt_at("CurrentPause"@, "CurrentWasmHash"@, 7);
    } else if i == 42 {
        reveal_strlit("CurrentWasmHash");
        reveal_strlit("InstanceLiveUntil");
        lemma_lt_at("CurrentWasmHash"@, "InstanceLiveUntil"@, 0);
    } else if i == 43 {
        reveal_strlit("InstanceLiveUntil");
        reveal_strlit("LatestPause");
        lemma_lt_at("InstanceLiveUntil"@, "LatestPause"@, 0);
    } else if i == 44 {
        reveal_strlit("LatestPause");
        reveal_strlit("LatestUpgradeReceipt");
        lemma_lt_at("LatestPause"@, "LatestUpgradeReceipt"@, 6);
    } else if i == 45 {
        reveal_strlit("LatestUpgradeReceipt");
        reveal_strlit("MigrationStatus");
        lemma_lt_at("LatestUpgradeReceipt"@, "MigrationStatus"@, 0);
    } else if i == 46 {
        reveal_strlit("MigrationStatus");
        reveal_strlit("Paused");
        lemma_lt_at("MigrationStatus"@, "Paused"@, 0);
    } else if i == 47 {
        reveal_strlit("Paused");
        reveal_strlit("SchemaRecord");
        lemma_lt_at("Paused"@, "SchemaRecord"@, 0);
    } else if i == 48 {
        reveal_strlit("SchemaRecord");
        reveal_strlit("SchemaTtl");
        lemma_lt_at("SchemaRecord"@, "SchemaTtl"@, 6);
    } else if i == 49 {
        reveal_strlit("SchemaTtl");
        reveal_strlit("SchemaVersion");
        lemma_lt_at("SchemaTtl"@, "SchemaVersion"@, 6);
    } else if i == 50 {
        reveal_strlit("SchemaVersion");
        reveal_strlit("ScopedPause");
        lemma_lt_at("SchemaVersion"@, "ScopedPause"@, 2);
    } else if i == 51 {
        reveal_strlit("ScopedPause");
        reveal_strlit("UpgradeApproval");
        lemma_lt_at("ScopedPause"@, "UpgradeApproval"@, 0);
    } else if i == 52 {
        reveal_strlit("UpgradeApproval");
        reveal_strlit("UpgradeApprovalMetadata");
        lemma_lt_at("UpgradeApproval"@, "UpgradeApprovalMetadata"@, 15);
    } else if i == 53 {
        reveal_strlit("UpgradeApprovalMetadata");
        reveal_strlit("UpgradeHistory");
        lemma_lt_at("UpgradeApprovalMetadata"@, "UpgradeHistory"@, 7);
    } else if i == 54 {
        reveal_strlit("UpgradeHistory");
        reveal_strlit("UpgradeHistoryCount");
        lemma_lt_at("UpgradeHistory"@, "UpgradeHistoryCount"@, 14);
    } else {
    }
}

/// Every entry precedes every later one.
proof fn lemma_entries_are_ordered(i: int, j: int)
    requires
        0 <= i < j < STORAGE_NAMESPACES_LEN,
    ensures
        entry_lt(i, j),
    decreases j - i,
{
    lemma_adjacent_entries_are_ordered(i);
    if i + 1 < j {
        lemma_entries_are_ordered(i + 1, j);
        lemma_entry_lt_transitive(i, i + 1, j);
    }
}

/// No two inventory entries share both their contract and their namespace
/// name, so a lookup by an entry's names finds that entry.
pub proof fn lemma_namespaces_are_collision_free(i: int, j: int)
    requires
        0 <= i < j < STORAGE_NAMESPACES_LEN,
    ensures
        !spec_entry_is(j, spec_namespace_at(i).contract, spec_namespace_at(i).namespace),
        !spec_entry_is(i, spec_namespace_at(j).contract, spec_namespace_at(j).namespace),
{
    lemma_entries_are_ordered(i, j);
    let x = spec_namespace_at(i);
    let y = spec_namespace_at(j);
    lemma_lt_irreflexive(x.contract@);
    lemma_lt_irreflexive(x.namespace@);
    vstd::utf8::encode_utf8_decode_utf8(x.contract@);
    vstd::utf8::encode_utf8_decode_utf8(y.contract@);
    vstd::utf8::encode_utf8_decode_utf8(x.namespace@);
    vstd::utf8::encode_utf8_decode_utf8(y.namespace@);
}

} // verus!
