//! The issuer registry: who may issue proofs, under which address, with which
//! metadata commitments, and in which lifecycle state.
//!
//! [`IssuerRegistryContract`] holds the contract's complete storage. Every entry point
//! is specified by a function from the abstract state before the call to the
//! outcome: the state after it and what it returns, or the rejection. A
//! rejected call leaves the state exactly as it was.

use vstd::prelude::*;
use crate::address::{is_valid_principal_address, spec_valid_principal};
use crate::digest::{
    issuer_registry_digest, issuer_registry_domain, issuer_registry_payload_hash, names_address,
    strkey_names_address, CONFIG_DIGEST_VERSION,
};
use crate::context::{spec_authorizes, spec_live_until, Invocation};
use crate::errors::{Abort, ContractError, IssuerError, Rejection};
use crate::migration::{
    advance_migration_step, begin_migration_step, spec_advance, spec_begin, MigrationStatus,
};
use crate::records::{IssuerRecord, IssuerStatus, METADATA_REVISION_INITIAL};
use crate::table::{spec_zero_digest, spec_zero_hash, Address, Hash32, Table};
use crate::ttl::{spec_ttl_status, ttl_status, TtlStatus};

verus! {

/// Emitted when an issuer is registered.
#[derive(Clone, Copy, Debug, PartialEq, Eq)]
pub struct IssuerRegistered {
    pub issuer_id_hash: Hash32,
    pub issuer_address: Address,
    pub metadata_hash: Hash32,
    pub metadata_uri_hash: Hash32,
    pub metadata_revision: u32,
    pub created_at: u64,
}

/// Emitted when an issuer's metadata commitments are updated.
#[derive(Clone, Copy, Debug, PartialEq, Eq)]
pub struct IssuerMetadataUpdated {
    pub issuer_id_hash: Hash32,
    pub metadata_hash: Hash32,
    pub metadata_uri_hash: Hash32,
    pub metadata_revision: u32,
    pub updated_at: u64,
}

/// Emitted when an issuer is suspended.
#[derive(Clone, Copy, Debug, PartialEq, Eq)]
pub struct IssuerSuspended {
    pub issuer_id_hash: Hash32,
    pub effective_ledger: u32,
    pub effective_timestamp: u64,
    pub updated_at: u64,
}

/// Emitted when an issuer is reactivated.
#[derive(Clone, Copy, Debug, PartialEq, Eq)]
pub struct IssuerReactivated {
    pub issuer_id_hash: Hash32,
    pub effective_ledger: u32,
    pub effective_timestamp: u64,
    pub updated_at: u64,
}

/// Emitted when an issuer is permanently revoked.
#[derive(Clone, Copy, Debug, PartialEq, Eq)]
pub struct IssuerRevoked {
    pub issuer_id_hash: Hash32,
    pub effective_ledger: u32,
    pub effective_timestamp: u64,
    pub updated_at: u64,
}

/// Emitted when an issuer's address is rotated.
#[derive(Clone, Copy, Debug, PartialEq, Eq)]
pub struct IssuerAddressRotated {
    pub issuer_id_hash: Hash32,
    pub old_address: Address,
    pub new_address: Address,
    pub updated_at: u64,
}

/// Emitted when the admin adds a WASM hash to the upgrade allowlist.
#[derive(Clone, Copy, Debug, PartialEq, Eq)]
pub struct UpgradeAllowlisted {
    pub wasm_hash: Hash32,
    pub new_contract_version: u32,
    pub approved_by: Address,
}

/// Emitted when the admin removes a WASM hash from the allowlist.
#[derive(Clone, Copy, Debug, PartialEq, Eq)]
pub struct UpgradeRevoked {
    pub wasm_hash: Hash32,
    pub revoked_by: Address,
}

/// Emitted when an upgrade is applied.
#[derive(Clone, Copy, Debug, PartialEq, Eq)]
pub struct ContractUpgraded {
    pub new_wasm_hash: Hash32,
    pub old_contract_version: u32,
    pub new_contract_version: u32,
    pub upgraded_by: Address,
}

/// The abstract storage of the issuer registry.
pub struct IssuerRegistryModel {
    pub admin: Option<Address>,
    /// 0 before initialization.
    pub contract_version: u32,
    pub migration: Option<MigrationStatus>,
    pub instance_live_until: Option<u32>,
    /// Issuer records by issuer id.
    pub issuers: Map<Seq<u8>, IssuerRecord>,
    /// Reverse index: issuer id by address.
    pub address_index: Map<Seq<u8>, Hash32>,
    /// Tracked live-until ledger of each issuer record.
    pub issuer_ttl: Map<Seq<u8>, u32>,
    /// Tracked live-until ledger of each reverse-index entry.
    pub address_ttl: Map<Seq<u8>, u32>,
    /// Approved upgrade target version by WASM hash.
    pub allowed_wasm: Map<Seq<u8>, u32>,
}

/// The issuer registry's storage.
pub struct IssuerRegistryContract {
    pub admin: Option<Address>,
    pub contract_version: u32,
    pub migration: Option<MigrationStatus>,
    pub instance_live_until: Option<u32>,
    pub issuers: Table<Hash32, IssuerRecord>,
    pub address_index: Table<Address, Hash32>,
    pub issuer_ttl: Table<Hash32, u32>,
    pub address_ttl: Table<Address, u32>,
    pub allowed_wasm: Table<Hash32, u32>,
}

/// `spec` describes a call that rejected with `e` and left `post == pre`, or
/// that succeeded with `out` and the state `post`; `r` and `post` match it.
pub open spec fn outcome_matches<M, T, E>(
    spec: Result<(M, T), Rejection<E>>,
    r: Result<T, Rejection<E>>,
    pre: M,
    post: M,
) -> bool {
    match spec {
        Ok((m, out)) => r == Ok::<T, Rejection<E>>(out) && post == m,
        Err(e) => r == Err::<T, Rejection<E>>(e) && post == pre,
    }
}

/// No migration is under way, or the one that was has completed.
pub open spec fn spec_operational(m: IssuerRegistryModel) -> bool {
    !(m.migration matches Some(s) && !s.complete)
}

/// Every issuer's address points back at it in the reverse index, and every
/// reverse-index entry points at an issuer holding that address.
pub open spec fn index_consistent(m: IssuerRegistryModel) -> bool {
    &&& forall|id: Seq<u8>| #[trigger]
        m.issuers.contains_key(id) ==> {
            &&& m.address_index.contains_key(m.issuers[id].issuer_address@)
            &&& m.address_index[m.issuers[id].issuer_address@]@ == id
            &&& m.issuers[id].issuer_id_hash@ == id
        }
    &&& forall|a: Seq<u8>| #[trigger]
        m.address_index.contains_key(a) ==> {
            &&& m.issuers.contains_key(m.address_index[a]@)
            &&& m.issuers[m.address_index[a]@].issuer_address@ == a
        }
}

/// The record written by a successful registration.
pub open spec fn spec_new_issuer_record(
    inv: Invocation,
    issuer_id_hash: Hash32,
    issuer_address: Address,
    metadata_hash: Hash32,
) -> IssuerRecord {
    IssuerRecord {
        issuer_id_hash,
        issuer_address,
        metadata_hash,
        metadata_uri_hash: spec_zero_hash(),
        metadata_revision: METADATA_REVISION_INITIAL,
        status: IssuerStatus::Active,
        created_at: inv.ledger.timestamp,
        updated_at: inv.ledger.timestamp,
        status_effective_ledger: inv.ledger.sequence,
        status_effective_timestamp: inv.ledger.timestamp,
    }
}

/// `r + 1`, or `u32::MAX` when that does not fit.
pub open spec fn spec_next_revision(r: u32) -> u32 {
    if r == u32::MAX { u32::MAX } else { (r + 1) as u32 }
}

pub open spec fn spec_initialize(m: IssuerRegistryModel, inv: Invocation, admin: Address) -> Result<
    (IssuerRegistryModel, ()),
    Rejection<ContractError>,
> {
    if m.admin is Some {
        Err(Rejection::Typed(ContractError::AlreadyInitialized))
    } else if !spec_valid_principal(admin@) {
        Err(Rejection::Typed(ContractError::InvalidInput))
    } else if !spec_authorizes(inv, admin@) {
        Err(Rejection::Aborted(Abort::Unauthorized))
    } else {
        Ok(
            (
                IssuerRegistryModel {
                    admin: Some(admin),
                    contract_version: 1,
                    instance_live_until: Some(spec_live_until(inv)),
                    ..m
                },
                (),
            ),
        )
    }
}

/// The checks every admin-gated issuer operation makes before touching the
/// issuer: no migration in flight, an admin exists, and the admin signed.
pub open spec fn spec_issuer_admin_gate(m: IssuerRegistryModel, inv: Invocation) -> Option<
    Rejection<IssuerError>,
> {
    if !spec_operational(m) {
        Some(Rejection::Aborted(Abort::MigrationInProgress))
    } else if m.admin is None {
        Some(Rejection::Typed(IssuerError::IssuerNotFound))
    } else if !spec_authorizes(inv, m.admin.unwrap()@) {
        Some(Rejection::Aborted(Abort::Unauthorized))
    } else {
        None
    }
}

pub open spec fn spec_register_issuer(
    m: IssuerRegistryModel,
    inv: Invocation,
    issuer_id_hash: Hash32,
    issuer_address: Address,
    metadata_hash: Hash32,
) -> Result<(IssuerRegistryModel, IssuerRegistered), Rejection<IssuerError>> {
    if !spec_operational(m) {
        Err(Rejection::Aborted(Abort::MigrationInProgress))
    } else if m.admin is None {
        Err(Rejection::Typed(IssuerError::IssuerNotFound))
    } else if !spec_valid_principal(issuer_address@) {
        Err(Rejection::Typed(IssuerError::InvalidAddress))
    } else if !spec_authorizes(inv, m.admin.unwrap()@) {
        Err(Rejection::Aborted(Abort::Unauthorized))
    } else if m.issuers.contains_key(issuer_id_hash@) {
        Err(Rejection::Typed(IssuerError::IssuerAlreadyRegistered))
    } else if m.address_index.contains_key(issuer_address@) {
        Err(Rejection::Typed(IssuerError::IssuerAddressAlreadyRegistered))
    } else {
        let rec = spec_new_issuer_record(inv, issuer_id_hash, issuer_address, metadata_hash);
        let live = spec_live_until(inv);
        Ok(
            (
                IssuerRegistryModel {
                    issuers: m.issuers.insert(issuer_id_hash@, rec),
                    address_index: m.address_index.insert(issuer_address@, issuer_id_hash),
                    issuer_ttl: m.issuer_ttl.insert(issuer_id_hash@, live),
                    address_ttl: m.address_ttl.insert(issuer_address@, live),
                    ..m
                },
                IssuerRegistered {
                    issuer_id_hash,
                    issuer_address,
                    metadata_hash,
                    metadata_uri_hash: spec_zero_hash(),
                    metadata_revision: METADATA_REVISION_INITIAL,
                    created_at: inv.ledger.timestamp,
                },
            ),
        )
    }
}

pub open spec fn spec_update_issuer(
    m: IssuerRegistryModel,
    inv: Invocation,
    issuer_id_hash: Hash32,
    metadata_hash: Hash32,
) -> Result<(IssuerRegistryModel, IssuerMetadataUpdated), Rejection<IssuerError>> {
    if let Some(e) = spec_issuer_admin_gate(m, inv) {
        Err(e)
    } else if !m.issuers.contains_key(issuer_id_hash@) {
        Err(Rejection::Typed(IssuerError::IssuerNotFound))
    } else if m.issuers[issuer_id_hash@].status is Revoked {
        Err(Rejection::Typed(IssuerError::IssuerRevoked))
    } else {
        let old = m.issuers[issuer_id_hash@];
        let rec = IssuerRecord {
            metadata_hash,
            metadata_revision: spec_next_revision(old.metadata_revision),
            updated_at: inv.ledger.timestamp,
            ..old
        };
        Ok(
            (
                IssuerRegistryModel {
                    issuers: m.issuers.insert(issuer_id_hash@, rec),
                    issuer_ttl: m.issuer_ttl.insert(issuer_id_hash@, spec_live_until(inv)),
                    ..m
                },
                IssuerMetadataUpdated {
                    issuer_id_hash,
                    metadata_hash,
                    metadata_uri_hash: old.metadata_uri_hash,
                    metadata_revision: rec.metadata_revision,
                    updated_at: inv.ledger.timestamp,
                },
            ),
        )
    }
}

pub open spec fn spec_set_metadata_commitment(
    m: IssuerRegistryModel,
    inv: Invocation,
    issuer_id_hash: Hash32,
    metadata_hash: Hash32,
    metadata_uri_hash: Hash32,
) -> Result<(IssuerRegistryModel, IssuerMetadataUpdated), Rejection<IssuerError>> {
    if let Some(e) = spec_issuer_admin_gate(m, inv) {
        Err(e)
    } else if metadata_hash@ == spec_zero_digest() || metadata_uri_hash@ == spec_zero_digest() {
        Err(Rejection::Typed(IssuerError::InvalidMetadataCommitment))
    } else if !m.issuers.contains_key(issuer_id_hash@) {
        Err(Rejection::Typed(IssuerError::IssuerNotFound))
    } else if m.issuers[issuer_id_hash@].status is Revoked {
        Err(Rejection::Typed(IssuerError::IssuerRevoked))
    } else {
        let old = m.issuers[issuer_id_hash@];
        let rec = IssuerRecord {
            metadata_hash,
            metadata_uri_hash,
            metadata_revision: spec_next_revision(old.metadata_revision),
            updated_at: inv.ledger.timestamp,
            ..old
        };
        Ok(
            (
                IssuerRegistryModel {
                    issuers: m.issuers.insert(issuer_id_hash@, rec),
                    issuer_ttl: m.issuer_ttl.insert(issuer_id_hash@, spec_live_until(inv)),
                    ..m
                },
                IssuerMetadataUpdated {
                    issuer_id_hash,
                    metadata_hash,
                    metadata_uri_hash,
                    metadata_revision: rec.metadata_revision,
                    updated_at: inv.ledger.timestamp,
                },
            ),
        )
    }
}

/// Moves an issuer to `status`. Any status may be entered from `Active` or
/// `Suspended`; from `Revoked` only `Revoked` again. Returns the effective
/// ledger and timestamp.
pub open spec fn spec_set_status(
    m: IssuerRegistryModel,
    inv: Invocation,
    issuer_id_hash: Hash32,
    status: IssuerStatus,
) -> Result<(IssuerRegistryModel, (u32, u64)), Rejection<IssuerError>> {
    if let Some(e) = spec_issuer_admin_gate(m, inv) {
        Err(e)
    } else if !m.issuers.contains_key(issuer_id_hash@) {
        Err(Rejection::Typed(IssuerError::IssuerNotFound))
    } else if m.issuers[issuer_id_hash@].status is Revoked && !(status is Revoked) {
        Err(Rejection::Typed(IssuerError::InvalidTransition))
    } else {
        let old = m.issuers[issuer_id_hash@];
        let rec = IssuerRecord {
            status,
            updated_at: inv.ledger.timestamp,
            status_effective_ledger: inv.ledger.sequence,
            status_effective_timestamp: inv.ledger.timestamp,
            ..old
        };
        Ok(
            (
                IssuerRegistryModel {
                    issuers: m.issuers.insert(issuer_id_hash@, rec),
                    issuer_ttl: m.issuer_ttl.insert(issuer_id_hash@, spec_live_until(inv)),
                    ..m
                },
                (inv.ledger.sequence, inv.ledger.timestamp),
            ),
        )
    }
}

pub open spec fn spec_rotate_issuer_address(
    m: IssuerRegistryModel,
    inv: Invocation,
    issuer_id_hash: Hash32,
    new_address: Address,
) -> Result<(IssuerRegistryModel, IssuerAddressRotated), Rejection<IssuerError>> {
    if !spec_operational(m) {
        Err(Rejection::Aborted(Abort::MigrationInProgress))
    } else if m.admin is None {
        Err(Rejection::Typed(IssuerError::IssuerNotFound))
    } else if !spec_valid_principal(new_address@) {
        Err(Rejection::Typed(IssuerError::InvalidAddress))
    } else if !spec_authorizes(inv, m.admin.unwrap()@) {
        Err(Rejection::Aborted(Abort::Unauthorized))
    } else if !m.issuers.contains_key(issuer_id_hash@) {
        Err(Rejection::Typed(IssuerError::IssuerNotFound))
    } else if m.issuers[issuer_id_hash@].status is Revoked {
        Err(Rejection::Typed(IssuerError::IssuerRevoked))
    } else if new_address@ == m.issuers[issuer_id_hash@].issuer_address@ {
        Err(Rejection::Typed(IssuerError::InvalidAddress))
    } else if m.address_index.contains_key(new_address@) {
        Err(Rejection::Typed(IssuerError::IssuerAddressAlreadyRegistered))
    } else {
        let old = m.issuers[issuer_id_hash@];
        let old_address = old.issuer_address;
        let rec = IssuerRecord {
            issuer_address: new_address,
            updated_at: inv.ledger.timestamp,
            ..old
        };
        let live = spec_live_until(inv);
        Ok(
            (
                IssuerRegistryModel {
                    issuers: m.issuers.insert(issuer_id_hash@, rec),
                    address_index: m.address_index.remove(old_address@).insert(
                        new_address@,
                        issuer_id_hash,
                    ),
                    issuer_ttl: m.issuer_ttl.insert(issuer_id_hash@, live),
                    address_ttl: m.address_ttl.remove(old_address@).insert(new_address@, live),
                    ..m
                },
                IssuerAddressRotated {
                    issuer_id_hash,
                    old_address,
                    new_address,
                    updated_at: inv.ledger.timestamp,
                },
            ),
        )
    }
}

pub open spec fn spec_get_issuer(
    m: IssuerRegistryModel,
    inv: Invocation,
    issuer_id_hash: Hash32,
) -> Result<(IssuerRegistryModel, IssuerRecord), Rejection<IssuerError>> {
    if !m.issuers.contains_key(issuer_id_hash@) {
        Err(Rejection::Typed(IssuerError::IssuerNotFound))
    } else {
        Ok(
            (
                IssuerRegistryModel {
                    issuer_ttl: m.issuer_ttl.insert(issuer_id_hash@, spec_live_until(inv)),
                    ..m
                },
                m.issuers[issuer_id_hash@],
            ),
        )
    }
}

pub open spec fn spec_get_issuer_by_address(
    m: IssuerRegistryModel,
    inv: Invocation,
    issuer_address: Address,
) -> Result<(IssuerRegistryModel, IssuerRecord), Rejection<IssuerError>> {
    if !m.address_index.contains_key(issuer_address@) {
        Err(Rejection::Typed(IssuerError::IssuerAddressNotFound))
    } else if !m.issuers.contains_key(m.address_index[issuer_address@]@) {
        Err(Rejection::Typed(IssuerError::IssuerNotFound))
    } else {
        Ok(
            (
                IssuerRegistryModel {
                    address_ttl: m.address_ttl.insert(issuer_address@, spec_live_until(inv)),
                    ..m
                },
                m.issuers[m.address_index[issuer_address@]@],
            ),
        )
    }
}

/// The state after `is_active_issuer`: the record's TTL is extended when it exists.
pub open spec fn spec_touch_issuer(m: IssuerRegistryModel, inv: Invocation, id: Seq<u8>) -> IssuerRegistryModel {
    if m.issuers.contains_key(id) {
        IssuerRegistryModel { issuer_ttl: m.issuer_ttl.insert(id, spec_live_until(inv)), ..m }
    } else {
        m
    }
}

/// An issuer is active when its record exists with status `Active`.
pub open spec fn spec_is_active(m: IssuerRegistryModel, id: Seq<u8>) -> bool {
    m.issuers.contains_key(id) && m.issuers[id].status is Active
}

/// An address is active when it indexes an issuer that is active.
pub open spec fn spec_is_active_address(m: IssuerRegistryModel, address: Seq<u8>) -> bool {
    m.address_index.contains_key(address) && spec_is_active(m, m.address_index[address]@)
}

/// The state after `is_active_address`.
pub open spec fn spec_touch_address(m: IssuerRegistryModel, inv: Invocation, address: Seq<u8>) -> IssuerRegistryModel {
    if m.address_index.contains_key(address) {
        spec_touch_issuer(m, inv, m.address_index[address]@)
    } else {
        m
    }
}

/// The admin gate of the governance entry points.
pub open spec fn spec_governance_gate(m: IssuerRegistryModel, inv: Invocation) -> Option<Rejection<ContractError>> {
    if m.admin is None {
        Some(Rejection::Typed(ContractError::NotInitialized))
    } else if !spec_authorizes(inv, m.admin.unwrap()@) {
        Some(Rejection::Aborted(Abort::Unauthorized))
    } else {
        None
    }
}

pub open spec fn spec_begin_migration(
    m: IssuerRegistryModel,
    inv: Invocation,
    target: u32,
    total: u32,
) -> Result<(IssuerRegistryModel, MigrationStatus), Rejection<ContractError>> {
    if let Some(e) = spec_governance_gate(m, inv) {
        Err(e)
    } else {
        match spec_begin(m.migration, m.contract_version, target, total) {
            Err(e) => Err(Rejection::Typed(e)),
            Ok((s, false)) => Ok((m, s)),
            Ok((s, true)) => Ok(
                (
                    IssuerRegistryModel {
                        migration: Some(s),
                        instance_live_until: Some(spec_live_until(inv)),
                        ..m
                    },
                    s,
                ),
            ),
        }
    }
}

pub open spec fn spec_advance_migration(
    m: IssuerRegistryModel,
    inv: Invocation,
    expected_cursor: u32,
    processed_items: u32,
) -> Result<(IssuerRegistryModel, MigrationStatus), Rejection<ContractError>> {
    if let Some(e) = spec_governance_gate(m, inv) {
        Err(e)
    } else {
        match spec_advance(m.migration, expected_cursor, processed_items) {
            Err(e) => Err(Rejection::Typed(e)),
            Ok((s, false)) => Ok((m, s)),
            Ok((s, true)) => Ok(
                (
                    IssuerRegistryModel {
                        migration: Some(s),
                        instance_live_until: Some(spec_live_until(inv)),
                        ..m
                    },
                    s,
                ),
            ),
        }
    }
}

pub open spec fn spec_refresh_instance_ttl(m: IssuerRegistryModel, inv: Invocation) -> Result<
    (IssuerRegistryModel, TtlStatus),
    Rejection<ContractError>,
> {
    if let Some(e) = spec_governance_gate(m, inv) {
        Err(e)
    } else {
        let post = IssuerRegistryModel { instance_live_until: Some(spec_live_until(inv)), ..m };
        Ok((post, spec_ttl_status(inv.ledger.sequence, true, post.instance_live_until)))
    }
}

/// The admin gate of the upgrade entry points, which abort rather than
/// return an error.
pub open spec fn spec_upgrade_gate(m: IssuerRegistryModel, inv: Invocation) -> Option<Abort> {
    if m.admin is None {
        Some(Abort::NotInitialized)
    } else if !spec_authorizes(inv, m.admin.unwrap()@) {
        Some(Abort::Unauthorized)
    } else {
        None
    }
}

pub open spec fn spec_approve_upgrade(
    m: IssuerRegistryModel,
    inv: Invocation,
    wasm_hash: Hash32,
    new_version: u32,
) -> Result<(IssuerRegistryModel, UpgradeAllowlisted), Rejection<ContractError>> {
    if let Some(a) = spec_upgrade_gate(m, inv) {
        Err(Rejection::Aborted(a))
    } else if new_version <= m.contract_version {
        Err(Rejection::Aborted(Abort::VersionNotAdvanced))
    } else {
        Ok(
            (
                IssuerRegistryModel {
                    allowed_wasm: m.allowed_wasm.insert(wasm_hash@, new_version),
                    instance_live_until: Some(spec_live_until(inv)),
                    ..m
                },
                UpgradeAllowlisted {
                    wasm_hash,
                    new_contract_version: new_version,
                    approved_by: m.admin.unwrap(),
                },
            ),
        )
    }
}

pub open spec fn spec_revoke_upgrade(
    m: IssuerRegistryModel,
    inv: Invocation,
    wasm_hash: Hash32,
) -> Result<(IssuerRegistryModel, UpgradeRevoked), Rejection<ContractError>> {
    if let Some(a) = spec_upgrade_gate(m, inv) {
        Err(Rejection::Aborted(a))
    } else {
        Ok(
            (
                IssuerRegistryModel { allowed_wasm: m.allowed_wasm.remove(wasm_hash@), ..m },
                UpgradeRevoked { wasm_hash, revoked_by: m.admin.unwrap() },
            ),
        )
    }
}

pub open spec fn spec_upgrade_contract(
    m: IssuerRegistryModel,
    inv: Invocation,
    wasm_hash: Hash32,
) -> Result<(IssuerRegistryModel, ContractUpgraded), Rejection<ContractError>> {
    if let Some(a) = spec_upgrade_gate(m, inv) {
        Err(Rejection::Aborted(a))
    } else if !m.allowed_wasm.contains_key(wasm_hash@) {
        Err(Rejection::Aborted(Abort::NotAllowlisted))
    } else if m.allowed_wasm[wasm_hash@] <= m.contract_version {
        Err(Rejection::Aborted(Abort::VersionNotAdvanced))
    } else if m.migration matches Some(s) && (!s.complete || s.target_contract_version
        != m.allowed_wasm[wasm_hash@]) {
        Err(Rejection::Aborted(Abort::MigrationIncomplete))
    } else {
        let new_version = m.allowed_wasm[wasm_hash@];
        Ok(
            (
                IssuerRegistryModel {
                    allowed_wasm: m.allowed_wasm.remove(wasm_hash@),
                    contract_version: new_version,
                    migration: None,
                    instance_live_until: Some(spec_live_until(inv)),
                    ..m
                },
                ContractUpgraded {
                    new_wasm_hash: wasm_hash,
                    old_contract_version: m.contract_version,
                    new_contract_version: new_version,
                    upgraded_by: m.admin.unwrap(),
                },
            ),
        )
    }
}

impl IssuerRegistryContract {
    /// The abstract storage.
    pub open spec fn view(&self) -> IssuerRegistryModel {
        IssuerRegistryModel {
            admin: self.admin,
            contract_version: self.contract_version,
            migration: self.migration,
            instance_live_until: self.instance_live_until,
            issuers: self.issuers.view(),
            address_index: self.address_index.view(),
            issuer_ttl: self.issuer_ttl.view(),
            address_ttl: self.address_ttl.view(),
            allowed_wasm: self.allowed_wasm.view(),
        }
    }

    /// Every table has unique keys.
    pub open spec fn wf(&self) -> bool {
        &&& self.issuers.wf()
        &&& self.address_index.wf()
        &&& self.issuer_ttl.wf()
        &&& self.address_ttl.wf()
        &&& self.allowed_wasm.wf()
    }

    /// A registry with empty storage, as deployed.
    pub fn new() -> (r: IssuerRegistryContract)
        ensures
            r.wf(),
            r@.admin is None,
            r@.contract_version == 0,
            r@.migration is None,
            r@.instance_live_until is None,
            r@.issuers == Map::<Seq<u8>, IssuerRecord>::empty(),
            r@.address_index == Map::<Seq<u8>, Hash32>::empty(),
            r@.issuer_ttl == Map::<Seq<u8>, u32>::empty(),
            r@.address_ttl == Map::<Seq<u8>, u32>::empty(),
            r@.allowed_wasm == Map::<Seq<u8>, u32>::empty(),
            index_consistent(r@),
    {
        IssuerRegistryContract {
            admin: None,
            contract_version: 0,
            migration: None,
            instance_live_until: None,
            issuers: Table::new(),
            address_index: Table::new(),
            issuer_ttl: Table::new(),
            address_ttl: Table::new(),
            allowed_wasm: Table::new(),
        }
    }

    fn is_operational(&self) -> (r: bool)
        ensures
            r == spec_operational(self@),
    {
        match self.migration {
            Some(s) => s.complete,
            None => true,
        }
    }

    fn extend_issuer(&mut self, inv: &Invocation, issuer_id_hash: Hash32)
        requires
            old(self).wf(),
        ensures
            final(self).wf(),
            final(self)@ == (IssuerRegistryModel {
                issuer_ttl: old(self)@.issuer_ttl.insert(issuer_id_hash@, spec_live_until(*inv)),
                ..old(self)@
            }),
    {
        let live = inv.live_until();
        self.issuer_ttl.set(issuer_id_hash, live);
    }

    fn extend_address(&mut self, inv: &Invocation, issuer_address: Address)
        requires
            old(self).wf(),
        ensures
            final(self).wf(),
            final(self)@ == (IssuerRegistryModel {
                address_ttl: old(self)@.address_ttl.insert(issuer_address@, spec_live_until(*inv)),
                ..old(self)@
            }),
    {
        let live = inv.live_until();
        self.address_ttl.set(issuer_address, live);
    }

    /// Sets the admin and the initial contract version.
    pub fn initialize(&mut self, inv: &Invocation, admin: Address) -> (r: Result<(), Rejection<ContractError>>)
        requires
            old(self).wf(),
        ensures
            final(self).wf(),
            outcome_matches(spec_initialize(old(self)@, *inv, admin), r, old(self)@, final(self)@),
    {
        if self.admin.is_some() {
            return Err(Rejection::Typed(ContractError::AlreadyInitialized));
        }
        if !is_valid_principal_address(&admin) {
            return Err(Rejection::Typed(ContractError::InvalidInput));
        }
        if !inv.authorizes(&admin) {
            return Err(Rejection::Aborted(Abort::Unauthorized));
        }
        self.admin = Some(admin);
        self.contract_version = 1;
        self.instance_live_until = Some(inv.live_until());
        Ok(())
    }

    /// The admin, once initialized.
    pub fn get_admin(&self) -> (r: Result<Address, ContractError>)
        ensures
            match self@.admin {
                Some(a) => r == Ok::<Address, ContractError>(a),
                None => r == Err::<Address, ContractError>(ContractError::NotInitialized),
            },
    {
        match self.admin {
            Some(a) => Ok(a),
            None => Err(ContractError::NotInitialized),
        }
    }

    fn issuer_admin_gate(&self, inv: &Invocation) -> (r: Option<Rejection<IssuerError>>)
        ensures
            r == spec_issuer_admin_gate(self@, *inv),
    {
        if !self.is_operational() {
            return Some(Rejection::Aborted(Abort::MigrationInProgress));
        }
        match self.admin {
            None => Some(Rejection::Typed(IssuerError::IssuerNotFound)),
            Some(admin) => if inv.authorizes(&admin) {
                None
            } else {
                Some(Rejection::Aborted(Abort::Unauthorized))
            },
        }
    }

    /// Registers a new active issuer under `issuer_id_hash` at `issuer_address`.
    pub fn register_issuer(
        &mut self,
        inv: &Invocation,
        issuer_id_hash: Hash32,
        issuer_address: Address,
        metadata_hash: Hash32,
    ) -> (r: Result<IssuerRegistered, Rejection<IssuerError>>)
        requires
            old(self).wf(),
        ensures
            final(self).wf(),
            outcome_matches(
                spec_register_issuer(old(self)@, *inv, issuer_id_hash, issuer_address, metadata_hash),
                r,
                old(self)@,
                final(self)@,
            ),
    {
        if !self.is_operational() {
            return Err(Rejection::Aborted(Abort::MigrationInProgress));
        }
        let admin = match self.admin {
            Some(a) => a,
            None => return Err(Rejection::Typed(IssuerError::IssuerNotFound)),
        };
        if !is_valid_principal_address(&issuer_address) {
            return Err(Rejection::Typed(IssuerError::InvalidAddress));
        }
        if !inv.authorizes(&admin) {
            return Err(Rejection::Aborted(Abort::Unauthorized));
        }
        if self.issuers.contains(&issuer_id_hash) {
            return Err(Rejection::Typed(IssuerError::IssuerAlreadyRegistered));
        }
        if self.address_index.contains(&issuer_address) {
            return Err(Rejection::Typed(IssuerError::IssuerAddressAlreadyRegistered));
        }
        let now = inv.ledger.timestamp;
        let metadata_uri_hash = Hash32::zero();
        let record = IssuerRecord {
            issuer_id_hash,
            issuer_address,
            metadata_hash,
            metadata_uri_hash,
            metadata_revision: METADATA_REVISION_INITIAL,
            status: IssuerStatus::Active,
            created_at: now,
            updated_at: now,
            status_effective_ledger: inv.ledger.sequence,
            status_effective_timestamp: now,
        };
        self.issuers.set(issuer_id_hash, record);
        self.address_index.set(issuer_address, issuer_id_hash);
        self.extend_issuer(inv, issuer_id_hash);
        self.extend_address(inv, issuer_address);
        Ok(
            IssuerRegistered {
                issuer_id_hash,
                issuer_address,
                metadata_hash,
                metadata_uri_hash,
                metadata_revision: METADATA_REVISION_INITIAL,
                created_at: now,
            },
        )
    }

    /// Replaces an issuer's content commitment and bumps its revision.
    pub fn update_issuer(&mut self, inv: &Invocation, issuer_id_hash: Hash32, metadata_hash: Hash32) -> (r: Result<
        IssuerMetadataUpdated,
        Rejection<IssuerError>,
    >)
        requires
            old(self).wf(),
        ensures
            final(self).wf(),
            outcome_matches(
                spec_update_issuer(old(self)@, *inv, issuer_id_hash, metadata_hash),
                r,
                old(self)@,
                final(self)@,
            ),
    {
        if let Some(e) = self.issuer_admin_gate(inv) {
            return Err(e);
        }
        let old = match self.issuers.get(&issuer_id_hash) {
            Some(rec) => *rec,
            None => return Err(Rejection::Typed(IssuerError::IssuerNotFound)),
        };
        if old.status == IssuerStatus::Revoked {
            return Err(Rejection::Typed(IssuerError::IssuerRevoked));
        }
        let now = inv.ledger.timestamp;
        let rec = IssuerRecord {
            metadata_hash,
            metadata_revision: old.metadata_revision.saturating_add(1),
            updated_at: now,
            ..old
        };
        self.issuers.set(issuer_id_hash, rec);
        self.extend_issuer(inv, issuer_id_hash);
        Ok(
            IssuerMetadataUpdated {
                issuer_id_hash,
                metadata_hash,
                metadata_uri_hash: old.metadata_uri_hash,
                metadata_revision: rec.metadata_revision,
                updated_at: now,
            },
        )
    }

    /// Replaces both metadata commitments in one step and bumps the revision.
    /// Neither commitment may be the all-zero digest.
    pub fn set_issuer_metadata_commitment(
        &mut self,
        inv: &Invocation,
        issuer_id_hash: Hash32,
        metadata_hash: Hash32,
        metadata_uri_hash: Hash32,
    ) -> (r: Result<IssuerMetadataUpdated, Rejection<IssuerError>>)
        requires
            old(self).wf(),
        ensures
            final(self).wf(),
            outcome_matches(
                spec_set_metadata_commitment(
                    old(self)@,
                    *inv,
                    issuer_id_hash,
                    metadata_hash,
                    metadata_uri_hash,
                ),
                r,
                old(self)@,
                final(self)@,
            ),
    {
        if let Some(e) = self.issuer_admin_gate(inv) {
            return Err(e);
        }
        if metadata_hash.is_zero() || metadata_uri_hash.is_zero() {
            return Err(Rejection::Typed(IssuerError::InvalidMetadataCommitment));
        }
        let old = match self.issuers.get(&issuer_id_hash) {
            Some(rec) => *rec,
            None => return Err(Rejection::Typed(IssuerError::IssuerNotFound)),
        };
        if old.status == IssuerStatus::Revoked {
            return Err(Rejection::Typed(IssuerError::IssuerRevoked));
        }
        let now = inv.ledger.timestamp;
        let rec = IssuerRecord {
            metadata_hash,
            metadata_uri_hash,
            metadata_revision: old.metadata_revision.saturating_add(1),
            updated_at: now,
            ..old
        };
        self.issuers.set(issuer_id_hash, rec);
        self.extend_issuer(inv, issuer_id_hash);
        Ok(
            IssuerMetadataUpdated {
                issuer_id_hash,
                metadata_hash,
                metadata_uri_hash,
                metadata_revision: rec.metadata_revision,
                updated_at: now,
            },
        )
    }

    fn set_status(&mut self, inv: &Invocation, issuer_id_hash: Hash32, status: IssuerStatus) -> (r: Result<
        (u32, u64),
        Rejection<IssuerError>,
    >)
        requires
            old(self).wf(),
        ensures
            final(self).wf(),
            outcome_matches(
                spec_set_status(old(self)@, *inv, issuer_id_hash, status),
                r,
                old(self)@,
                final(self)@,
            ),
    {
        if let Some(e) = self.issuer_admin_gate(inv) {
            return Err(e);
        }
        let old = match self.issuers.get(&issuer_id_hash) {
            Some(rec) => *rec,
            None => return Err(Rejection::Typed(IssuerError::IssuerNotFound)),
        };
        if old.status == IssuerStatus::Revoked && status != IssuerStatus::Revoked {
            return Err(Rejection::Typed(IssuerError::InvalidTransition));
        }
        let now = inv.ledger.timestamp;
        let effective_ledger = inv.ledger.sequence;
        let rec = IssuerRecord {
            status,
            updated_at: now,
            status_effective_ledger: effective_ledger,
            status_effective_timestamp: now,
            ..old
        };
        self.issuers.set(issuer_id_hash, rec);
        self.extend_issuer(inv, issuer_id_hash);
        Ok((effective_ledger, now))
    }

    /// Suspends an issuer. Suspension is reversible; a revoked issuer cannot be
    /// suspended.
    pub fn suspend_issuer(&mut self, inv: &Invocation, issuer_id_hash: Hash32) -> (r: Result<
        IssuerSuspended,
        Rejection<IssuerError>,
    >)
        requires
            old(self).wf(),
        ensures
            final(self).wf(),
            match spec_set_status(old(self)@, *inv, issuer_id_hash, IssuerStatus::Suspended) {
                Ok((m, (l, t))) => final(self)@ == m && r == Ok::<IssuerSuspended, Rejection<IssuerError>>(
                    IssuerSuspended {
                        issuer_id_hash,
                        effective_ledger: l,
                        effective_timestamp: t,
                        updated_at: t,
                    },
                ),
                Err(e) => final(self)@ == old(self)@ && r == Err::<IssuerSuspended, Rejection<IssuerError>>(e),
            },
    {
        let (l, t) = self.set_status(inv, issuer_id_hash, IssuerStatus::Suspended)?;
        Ok(IssuerSuspended { issuer_id_hash, effective_ledger: l, effective_timestamp: t, updated_at: t })
    }

    /// Returns a suspended issuer to `Active`. A revoked issuer cannot be
    /// reactivated.
    pub fn reactivate_issuer(&mut self, inv: &Invocation, issuer_id_hash: Hash32) -> (r: Result<
        IssuerReactivated,
        Rejection<IssuerError>,
    >)
        requires
            old(self).wf(),
        ensures
            final(self).wf(),
            match spec_set_status(old(self)@, *inv, issuer_id_hash, IssuerStatus::Active) {
                Ok((m, (l, t))) => final(self)@ == m && r == Ok::<IssuerReactivated, Rejection<IssuerError>>(
                    IssuerReactivated {
                        issuer_id_hash,
                        effective_ledger: l,
                        effective_timestamp: t,
                        updated_at: t,
                    },
                ),
                Err(e) => final(self)@ == old(self)@ && r == Err::<IssuerReactivated, Rejection<IssuerError>>(e),
            },
    {
        let (l, t) = self.set_status(inv, issuer_id_hash, IssuerStatus::Active)?;
        Ok(IssuerReactivated { issuer_id_hash, effective_ledger: l, effective_timestamp: t, updated_at: t })
    }

    /// Permanently revokes an issuer.
    pub fn revoke_issuer(&mut self, inv: &Invocation, issuer_id_hash: Hash32) -> (r: Result<
        IssuerRevoked,
        Rejection<IssuerError>,
    >)
        requires
            old(self).wf(),
        ensures
            final(self).wf(),
            match spec_set_status(old(self)@, *inv, issuer_id_hash, IssuerStatus::Revoked) {
                Ok((m, (l, t))) => final(self)@ == m && r == Ok::<IssuerRevoked, Rejection<IssuerError>>(
                    IssuerRevoked {
                        issuer_id_hash,
                        effective_ledger: l,
                        effective_timestamp: t,
                        updated_at: t,
                    },
                ),
                Err(e) => final(self)@ == old(self)@ && r == Err::<IssuerRevoked, Rejection<IssuerError>>(e),
            },
    {
        let (l, t) = self.set_status(inv, issuer_id_hash, IssuerStatus::Revoked)?;
        Ok(IssuerRevoked { issuer_id_hash, effective_ledger: l, effective_timestamp: t, updated_at: t })
    }

    /// Moves an issuer to a new address, dropping the old reverse-index entry.
    pub fn rotate_issuer_address(&mut self, inv: &Invocation, issuer_id_hash: Hash32, new_address: Address) -> (r:
        Result<IssuerAddressRotated, Rejection<IssuerError>>)
        requires
            old(self).wf(),
        ensures
            final(self).wf(),
            outcome_matches(
                spec_rotate_issuer_address(old(self)@, *inv, issuer_id_hash, new_address),
                r,
                old(self)@,
                final(self)@,
            ),
    {
        if !self.is_operational() {
            return Err(Rejection::Aborted(Abort::MigrationInProgress));
        }
        let admin = match self.admin {
            Some(a) => a,
            None => return Err(Rejection::Typed(IssuerError::IssuerNotFound)),
        };
        if !is_valid_principal_address(&new_address) {
            return Err(Rejection::Typed(IssuerError::InvalidAddress));
        }
        if !inv.authorizes(&admin) {
            return Err(Rejection::Aborted(Abort::Unauthorized));
        }
        let old = match self.issuers.get(&issuer_id_hash) {
            Some(rec) => *rec,
            None => return Err(Rejection::Typed(IssuerError::IssuerNotFound)),
        };
        if old.status == IssuerStatus::Revoked {
            return Err(Rejection::Typed(IssuerError::IssuerRevoked));
        }
        if crate::table::TableKey::same_key(&new_address, &old.issuer_address) {
            return Err(Rejection::Typed(IssuerError::InvalidAddress));
        }
        if self.address_index.contains(&new_address) {
            return Err(Rejection::Typed(IssuerError::IssuerAddressAlreadyRegistered));
        }
        let old_address = old.issuer_address;
        self.address_index.remove(&old_address);
        self.address_ttl.remove(&old_address);
        let now = inv.ledger.timestamp;
        let rec = IssuerRecord { issuer_address: new_address, updated_at: now, ..old };
        self.issuers.set(issuer_id_hash, rec);
        self.address_index.set(new_address, issuer_id_hash);
        self.extend_issuer(inv, issuer_id_hash);
        self.extend_address(inv, new_address);
        Ok(IssuerAddressRotated { issuer_id_hash, old_address, new_address, updated_at: now })
    }

    /// Reads an issuer record, extending its TTL.
    pub fn get_issuer(&mut self, inv: &Invocation, issuer_id_hash: Hash32) -> (r: Result<IssuerRecord, IssuerError>)
        requires
            old(self).wf(),
        ensures
            final(self).wf(),
            match spec_get_issuer(old(self)@, *inv, issuer_id_hash) {
                Ok((m, rec)) => r == Ok::<IssuerRecord, IssuerError>(rec) && final(self)@ == m,
                Err(e) => e == Rejection::Typed(IssuerError::IssuerNotFound) && r == Err::<
                    IssuerRecord,
                    IssuerError,
                >(IssuerError::IssuerNotFound) && final(self)@ == old(self)@,
            },
    {
        let rec = match self.issuers.get(&issuer_id_hash) {
            Some(rec) => *rec,
            None => return Err(IssuerError::IssuerNotFound),
        };
        self.extend_issuer(inv, issuer_id_hash);
        Ok(rec)
    }

    /// Whether the issuer exists and is active; extends the record's TTL when
    /// it exists.
    pub fn is_active_issuer(&mut self, inv: &Invocation, issuer_id_hash: Hash32) -> (r: bool)
        requires
            old(self).wf(),
        ensures
            final(self).wf(),
            r == spec_is_active(old(self)@, issuer_id_hash@),
            final(self)@ == spec_touch_issuer(old(self)@, *inv, issuer_id_hash@),
    {
        match self.get_issuer(inv, issuer_id_hash) {
            Ok(rec) => rec.status == IssuerStatus::Active,
            Err(_) => false,
        }
    }

    /// Whether the address indexes an active issuer.
    pub fn is_active_address(&mut self, inv: &Invocation, issuer_address: Address) -> (r: bool)
        requires
            old(self).wf(),
        ensures
            final(self).wf(),
            r == spec_is_active_address(old(self)@, issuer_address@),
            final(self)@ == spec_touch_address(old(self)@, *inv, issuer_address@),
    {
        let id = match self.address_index.get(&issuer_address) {
            Some(id) => *id,
            None => return false,
        };
        self.is_active_issuer(inv, id)
    }

    /// Reads the issuer at an address, extending the index entry's TTL.
    pub fn get_issuer_by_address(&mut self, inv: &Invocation, issuer_address: Address) -> (r: Result<
        IssuerRecord,
        IssuerError,
    >)
        requires
            old(self).wf(),
        ensures
            final(self).wf(),
            match spec_get_issuer_by_address(old(self)@, *inv, issuer_address) {
                Ok((m, rec)) => r == Ok::<IssuerRecord, IssuerError>(rec) && final(self)@ == m,
                Err(Rejection::Typed(e)) => r == Err::<IssuerRecord, IssuerError>(e) && final(self)@
                    == old(self)@,
                Err(_) => false,
            },
    {
        let id = match self.address_index.get(&issuer_address) {
            Some(id) => *id,
            None => return Err(IssuerError::IssuerAddressNotFound),
        };
        let rec = match self.issuers.get(&id) {
            Some(rec) => *rec,
            None => return Err(IssuerError::IssuerNotFound),
        };
        self.extend_address(inv, issuer_address);
        Ok(rec)
    }

    /// The stored contract version; 0 before initialization.
    pub fn get_contract_version(&self) -> (r: u32)
        ensures
            r == self@.contract_version,
    {
        self.contract_version
    }

    /// Version of the configuration digest payload.
    pub fn get_config_digest_version() -> (r: u32)
        ensures
            r == CONFIG_DIGEST_VERSION,
    {
        CONFIG_DIGEST_VERSION
    }

    /// Digest of the registry's configuration (admin and contract version).
    /// `Err(NotInitialized)` before initialization; `Ok(None)` when the
    /// recorded admin text names no address.
    pub fn get_config_digest(&self) -> (r: Result<Option<Hash32>, ContractError>)
        ensures
            match self@.admin {
                None => r == Err::<Option<Hash32>, ContractError>(ContractError::NotInitialized),
                Some(a) => if strkey_names_address(a@) {
                    r matches Ok(Some(d)) && d@ == issuer_registry_payload_hash(
                        CONFIG_DIGEST_VERSION,
                        issuer_registry_domain(),
                        a@,
                        self@.contract_version,
                    )
                } else {
                    r == Ok::<Option<Hash32>, ContractError>(None)
                },
            },
    {
        match self.admin {
            None => Err(ContractError::NotInitialized),
            Some(a) => {
                if names_address(&a) {
                    Ok(Some(issuer_registry_digest(&a, self.contract_version)))
                } else {
                    Ok(None)
                }
            },
        }
    }

    /// The migration checkpoint, if a migration has begun.
    pub fn get_migration_status(&self) -> (r: Option<MigrationStatus>)
        ensures
            r == self@.migration,
    {
        self.migration
    }

    fn governance_gate(&self, inv: &Invocation) -> (r: Option<Rejection<ContractError>>)
        ensures
            r == spec_governance_gate(self@, *inv),
    {
        match self.admin {
            None => Some(Rejection::Typed(ContractError::NotInitialized)),
            Some(admin) => if inv.authorizes(&admin) {
                None
            } else {
                Some(Rejection::Aborted(Abort::Unauthorized))
            },
        }
    }

    /// Begins a storage migration towards `target_contract_version`.
    pub fn begin_migration(&mut self, inv: &Invocation, target_contract_version: u32, total_items: u32) -> (r:
        Result<MigrationStatus, Rejection<ContractError>>)
        requires
            old(self).wf(),
        ensures
            final(self).wf(),
            outcome_matches(
                spec_begin_migration(old(self)@, *inv, target_contract_version, total_items),
                r,
                old(self)@,
                final(self)@,
            ),
    {
        if let Some(e) = self.governance_gate(inv) {
            return Err(e);
        }
        match begin_migration_step(self.migration, self.contract_version, target_contract_version, total_items) {
            Err(e) => Err(Rejection::Typed(e)),
            Ok((s, written)) => {
                if written {
                    self.migration = Some(s);
                    self.instance_live_until = Some(inv.live_until());
                }
                Ok(s)
            },
        }
    }

    /// Commits a migration batch.
    pub fn advance_migration(&mut self, inv: &Invocation, expected_cursor: u32, processed_items: u32) -> (r:
        Result<MigrationStatus, Rejection<ContractError>>)
        requires
            old(self).wf(),
        ensures
            final(self).wf(),
            outcome_matches(
                spec_advance_migration(old(self)@, *inv, expected_cursor, processed_items),
                r,
                old(self)@,
                final(self)@,
            ),
    {
        if let Some(e) = self.governance_gate(inv) {
            return Err(e);
        }
        match advance_migration_step(self.migration, expected_cursor, processed_items) {
            Err(e) => Err(Rejection::Typed(e)),
            Ok((s, written)) => {
                if written {
                    self.migration = Some(s);
                    self.instance_live_until = Some(inv.live_until());
                }
                Ok(s)
            },
        }
    }

    /// TTL report of the contract instance.
    pub fn get_instance_ttl_status(&self, inv: &Invocation) -> (r: TtlStatus)
        ensures
            r == spec_ttl_status(inv.ledger.sequence, self@.admin is Some, self@.instance_live_until),
    {
        ttl_status(inv.ledger.sequence, self.admin.is_some(), self.instance_live_until)
    }

    /// TTL report of an issuer record.
    pub fn get_issuer_ttl_status(&self, inv: &Invocation, issuer_id_hash: Hash32) -> (r: TtlStatus)
        requires
            self.wf(),
        ensures
            r == spec_ttl_status(
                inv.ledger.sequence,
                self@.issuers.contains_key(issuer_id_hash@),
                if self@.issuer_ttl.contains_key(issuer_id_hash@) {
                    Some(self@.issuer_ttl[issuer_id_hash@])
                } else {
                    None
                },
            ),
    {
        let live = match self.issuer_ttl.get(&issuer_id_hash) {
            Some(l) => Some(*l),
            None => None,
        };
        ttl_status(inv.ledger.sequence, self.issuers.contains(&issuer_id_hash), live)
    }

    /// TTL report of a reverse-index entry.
    pub fn get_address_ttl_status(&self, inv: &Invocation, issuer_address: Address) -> (r: TtlStatus)
        requires
            self.wf(),
        ensures
            r == spec_ttl_status(
                inv.ledger.sequence,
                self@.address_index.contains_key(issuer_address@),
                if self@.address_ttl.contains_key(issuer_address@) {
                    Some(self@.address_ttl[issuer_address@])
                } else {
                    None
                },
            ),
    {
        let live = match self.address_ttl.get(&issuer_address) {
            Some(l) => Some(*l),
            None => None,
        };
        ttl_status(inv.ledger.sequence, self.address_index.contains(&issuer_address), live)
    }

    /// Extends the instance TTL (admin only) and reports it.
    pub fn refresh_instance_ttl(&mut self, inv: &Invocation) -> (r: Result<TtlStatus, Rejection<ContractError>>)
        requires
            old(self).wf(),
        ensures
            final(self).wf(),
            outcome_matches(spec_refresh_instance_ttl(old(self)@, *inv), r, old(self)@, final(self)@),
    {
        if let Some(e) = self.governance_gate(inv) {
            return Err(e);
        }
        self.instance_live_until = Some(inv.live_until());
        Ok(self.get_instance_ttl_status(inv))
    }

    fn upgrade_gate(&self, inv: &Invocation) -> (r: Result<Address, Abort>)
        ensures
            match spec_upgrade_gate(self@, *inv) {
                Some(a) => r == Err::<Address, Abort>(a),
                None => r == Ok::<Address, Abort>(self@.admin.unwrap()),
            },
    {
        match self.admin {
            None => Err(Abort::NotInitialized),
            Some(admin) => if inv.authorizes(&admin) {
                Ok(admin)
            } else {
                Err(Abort::Unauthorized)
            },
        }
    }

    /// Admin only: allowlists `wasm_hash` as the upgrade to `new_version`,
    /// which must exceed the current version.
    pub fn approve_upgrade(&mut self, inv: &Invocation, wasm_hash: Hash32, new_version: u32) -> (r: Result<
        UpgradeAllowlisted,
        Rejection<ContractError>,
    >)
        requires
            old(self).wf(),
        ensures
            final(self).wf(),
            outcome_matches(
                spec_approve_upgrade(old(self)@, *inv, wasm_hash, new_version),
                r,
                old(self)@,
                final(self)@,
            ),
    {
        let admin = match self.upgrade_gate(inv) {
            Ok(a) => a,
            Err(a) => return Err(Rejection::Aborted(a)),
        };
        if new_version <= self.contract_version {
            return Err(Rejection::Aborted(Abort::VersionNotAdvanced));
        }
        self.allowed_wasm.set(wasm_hash, new_version);
        self.instance_live_until = Some(inv.live_until());
        Ok(UpgradeAllowlisted { wasm_hash, new_contract_version: new_version, approved_by: admin })
    }

    /// Admin only: removes `wasm_hash` from the allowlist.
    pub fn revoke_upgrade(&mut self, inv: &Invocation, wasm_hash: Hash32) -> (r: Result<
        UpgradeRevoked,
        Rejection<ContractError>,
    >)
        requires
            old(self).wf(),
        ensures
            final(self).wf(),
            outcome_matches(spec_revoke_upgrade(old(self)@, *inv, wasm_hash), r, old(self)@, final(self)@),
    {
        let admin = match self.upgrade_gate(inv) {
            Ok(a) => a,
            Err(a) => return Err(Rejection::Aborted(a)),
        };
        self.allowed_wasm.remove(&wasm_hash);
        Ok(UpgradeRevoked { wasm_hash, revoked_by: admin })
    }

    /// Whether `wasm_hash` is on the allowlist.
    pub fn is_upgrade_allowed(&self, wasm_hash: Hash32) -> (r: bool)
        requires
            self.wf(),
        ensures
            r == self@.allowed_wasm.contains_key(wasm_hash@),
    {
        self.allowed_wasm.contains(&wasm_hash)
    }

    /// Admin only: applies the allowlisted upgrade `wasm_hash`, consuming the
    /// allowlist entry, advancing the version and clearing the completed
    /// migration.
    pub fn upgrade_contract(&mut self, inv: &Invocation, wasm_hash: Hash32) -> (r: Result<
        ContractUpgraded,
        Rejection<ContractError>,
    >)
        requires
            old(self).wf(),
        ensures
            final(self).wf(),
            outcome_matches(spec_upgrade_contract(old(self)@, *inv, wasm_hash), r, old(self)@, final(self)@),
    {
        let admin = match self.upgrade_gate(inv) {
            Ok(a) => a,
            Err(a) => return Err(Rejection::Aborted(a)),
        };
        let new_version = match self.allowed_wasm.get(&wasm_hash) {
            Some(v) => *v,
            None => return Err(Rejection::Aborted(Abort::NotAllowlisted)),
        };
        let old_version = self.contract_version;
        if new_version <= old_version {
            return Err(Rejection::Aborted(Abort::VersionNotAdvanced));
        }
        if let Some(s) = self.migration {
            if !s.complete || s.target_contract_version != new_version {
                return Err(Rejection::Aborted(Abort::MigrationIncomplete));
            }
        }
        self.allowed_wasm.remove(&wasm_hash);
        self.contract_version = new_version;
        self.migration = None;
        self.instance_live_until = Some(inv.live_until());
        Ok(
            ContractUpgraded {
                new_wasm_hash: wasm_hash,
                old_contract_version: old_version,
                new_contract_version: new_version,
                upgraded_by: admin,
            },
        )
    }
}

} // verus!
