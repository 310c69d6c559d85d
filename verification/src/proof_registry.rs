//! The proof registry: issuer-signed proof commitments, their revocation and
//! archival, the scoped pauses, and the timelocked upgrade governance.
//!
//! `register_proof` is the one entry point that consults other contracts
//! before it writes. It reads, in this order, whether protocol-config is
//! paused, whether it approves the schema version, and whether the issuer
//! registry reports the issuer's address active. Those replies are arguments
//! here; [`next_registration_read`] says which one is needed next.

use vstd::prelude::*;
use crate::address::{is_valid_principal_address, spec_valid_principal};
use crate::digest::{
    names_address, proof_registry_digest, proof_registry_domain, proof_registry_payload_hash,
    strkey_names_address, CONFIG_DIGEST_VERSION,
};
use crate::context::{spec_authorizes, spec_live_until, Invocation};
use crate::errors::{Abort, ContractError, ProofError, Rejection};
use crate::governance::{
    approval_query, spec_approval_query, spec_scope_paused, spec_with_pause, ApprovalQuery,
    ApprovalStatus, ContractRole, PauseScope, ScopedPauses, UpgradeApproval,
    UpgradeApprovalMetadata, UpgradeApprovalRecord, UpgradeHistoryRecord, UpgradeReceipt,
    UpgradeTiming,
};
use crate::issuer_registry::outcome_matches;
use crate::migration::{
    advance_migration_step, begin_migration_step, spec_advance, spec_begin, MigrationStatus,
};
use crate::records::{ArchivedProofRecord, ProofRecord, ProofStatus};
use crate::table::{spec_zero_hash, Address, Hash32, Table, TableKey};
use crate::ttl::{spec_ttl_status, ttl_status, TtlStatus};

verus! {

/// The highest dependency contract version a proof registry accepts.
pub const MAX_DEPENDENCY_VERSION: u32 = 100;

/// Upper bound on the entries one `get_upgrade_history` page returns.
pub const MAX_HISTORY_PAGE: u32 = 50;

/// Emitted when a scope is paused or unpaused.
#[derive(Clone, Copy, Debug, PartialEq, Eq)]
pub struct ScopedPauseChanged {
    pub scope: PauseScope,
    pub paused: bool,
    pub changed_by: Address,
}

/// Emitted when a proof is archived.
#[derive(Clone, Copy, Debug, PartialEq, Eq)]
pub struct ProofArchived {
    pub proof_id_hash: Hash32,
    pub archived_at: u64,
}

/// Emitted when the admin approves an upgrade.
#[derive(Clone, Copy, Debug, PartialEq, Eq)]
pub struct UpgradeAllowlisted {
    pub wasm_hash: Hash32,
    pub target_contract: Address,
    pub contract_role: ContractRole,
    pub new_contract_version: u32,
    pub approved_by: Address,
}

/// Emitted when the admin withdraws an upgrade approval.
#[derive(Clone, Copy, Debug, PartialEq, Eq)]
pub struct UpgradeRevoked {
    pub wasm_hash: Hash32,
    pub target_contract: Address,
    pub contract_role: ContractRole,
    pub revoked_by: Address,
}

/// Emitted when an upgrade is applied.
#[derive(Clone, Copy, Debug, PartialEq, Eq)]
pub struct ContractUpgraded {
    pub new_wasm_hash: Hash32,
    pub target_contract: Address,
    pub contract_role: ContractRole,
    pub old_contract_version: u32,
    pub new_contract_version: u32,
    pub upgraded_by: Address,
}

/// A dependency's reply to one read: its answer, or a failed invocation or an
/// undecodable return value.
#[derive(Clone, Copy, Debug, PartialEq, Eq, Structural)]
pub enum DependencyReply {
    Answered(bool),
    Failed,
}

/// A read `register_proof` makes of another contract, with its argument.
#[derive(Clone, Copy, Debug, PartialEq, Eq)]
pub enum RegistrationRead {
    /// protocol-config `is_paused()`.
    ProtocolPaused,
    /// protocol-config `is_schema_version_approved(version)`.
    SchemaApproved(u32),
    /// issuer-registry `is_active_address(issuer)`.
    IssuerActive(Address),
}

/// The abstract storage of the proof registry.
pub struct ProofRegistryModel {
    pub contract_address: Address,
    pub timing: UpgradeTiming,
    pub admin: Option<Address>,
    pub issuer_registry: Option<Address>,
    pub protocol_config: Option<Address>,
    pub issuer_registry_version: Option<u32>,
    pub protocol_config_version: Option<u32>,
    pub contract_version: u32,
    pub migration: Option<MigrationStatus>,
    pub instance_live_until: Option<u32>,
    pub current_wasm_hash: Option<Hash32>,
    pub latest_upgrade_receipt: Option<UpgradeReceipt>,
    pub upgrade_approval: Option<UpgradeApproval>,
    pub pauses: ScopedPauses,
    pub proofs: Map<Seq<u8>, ProofRecord>,
    pub proof_ttl: Map<Seq<u8>, u32>,
    pub archived: Map<Seq<u8>, ArchivedProofRecord>,
    pub allowed_wasm: Map<Seq<u8>, UpgradeApprovalRecord>,
    pub approval_metadata: Map<Seq<u8>, UpgradeApprovalMetadata>,
    pub upgrade_history: Seq<UpgradeHistoryRecord>,
}

/// The proof registry's storage, and the address it is deployed at.
pub struct ProofRegistryContract {
    pub contract_address: Address,
    pub timing: UpgradeTiming,
    pub admin: Option<Address>,
    pub issuer_registry: Option<Address>,
    pub protocol_config: Option<Address>,
    pub issuer_registry_version: Option<u32>,
    pub protocol_config_version: Option<u32>,
    pub contract_version: u32,
    pub migration: Option<MigrationStatus>,
    pub instance_live_until: Option<u32>,
    pub current_wasm_hash: Option<Hash32>,
    pub latest_upgrade_receipt: Option<UpgradeReceipt>,
    pub upgrade_approval: Option<UpgradeApproval>,
    pub pauses: ScopedPauses,
    pub proofs: Table<Hash32, ProofRecord>,
    pub proof_ttl: Table<Hash32, u32>,
    pub archived: Table<Hash32, ArchivedProofRecord>,
    pub allowed_wasm: Table<Hash32, UpgradeApprovalRecord>,
    pub approval_metadata: Table<Hash32, UpgradeApprovalMetadata>,
    pub upgrade_history: Vec<UpgradeHistoryRecord>,
}

pub open spec fn spec_proof_operational(m: ProofRegistryModel) -> bool {
    !(m.migration matches Some(s) && !s.complete)
}

pub open spec fn spec_sat_add(a: u32, b: u32) -> u32 {
    if a + b > u32::MAX { u32::MAX } else { (a + b) as u32 }
}

/// The version a dependency reported, or 1 when its query failed; `None`
/// when it reported more than [`MAX_DEPENDENCY_VERSION`].
pub open spec fn spec_dependency_version(reply: Option<u32>) -> Option<u32> {
    match reply {
        Some(v) => if v > MAX_DEPENDENCY_VERSION { None } else { Some(v) },
        None => Some(1),
    }
}

pub open spec fn spec_dependencies_valid(m: ProofRegistryModel, ir: Address, pc: Address) -> bool {
    &&& spec_valid_principal(ir@)
    &&& spec_valid_principal(pc@)
    &&& ir@ != m.contract_address@
    &&& pc@ != m.contract_address@
    &&& ir@ != pc@
}

pub open spec fn spec_initialize(
    m: ProofRegistryModel,
    inv: Invocation,
    admin: Address,
    issuer_registry: Address,
    protocol_config: Address,
    config_version_reply: Option<u32>,
    issuer_version_reply: Option<u32>,
) -> Result<(ProofRegistryModel, ()), Rejection<ContractError>> {
    if m.admin is Some {
        Err(Rejection::Typed(ContractError::AlreadyInitialized))
    } else if !spec_valid_principal(admin@) {
        Err(Rejection::Typed(ContractError::InvalidInput))
    } else if !spec_dependencies_valid(m, issuer_registry, protocol_config) {
        Err(Rejection::Typed(ContractError::InvalidInput))
    } else if spec_dependency_version(config_version_reply) is None {
        Err(Rejection::Typed(ContractError::InvalidInput))
    } else if spec_dependency_version(issuer_version_reply) is None {
        Err(Rejection::Typed(ContractError::InvalidInput))
    } else if !spec_authorizes(inv, admin@) {
        Err(Rejection::Aborted(Abort::Unauthorized))
    } else {
        Ok(
            (
                ProofRegistryModel {
                    admin: Some(admin),
                    issuer_registry: Some(issuer_registry),
                    protocol_config: Some(protocol_config),
                    protocol_config_version: spec_dependency_version(config_version_reply),
                    issuer_registry_version: spec_dependency_version(issuer_version_reply),
                    contract_version: 1,
                    instance_live_until: Some(spec_live_until(inv)),
                    ..m
                },
                (),
            ),
        )
    }
}

pub open spec fn spec_set_pause(
    m: ProofRegistryModel,
    inv: Invocation,
    scope: PauseScope,
    paused: bool,
) -> Result<(ProofRegistryModel, ScopedPauseChanged), Rejection<ProofError>> {
    if m.admin is None {
        Err(Rejection::Typed(ProofError::ProofNotFound))
    } else if !spec_authorizes(inv, m.admin.unwrap()@) {
        Err(Rejection::Aborted(Abort::Unauthorized))
    } else {
        Ok(
            (
                ProofRegistryModel { pauses: spec_with_pause(m.pauses, scope, paused), ..m },
                ScopedPauseChanged { scope, paused, changed_by: m.admin.unwrap() },
            ),
        )
    }
}

/// The checks `register_proof` makes before it reads any other contract.
pub open spec fn spec_registration_precheck(
    m: ProofRegistryModel,
    inv: Invocation,
    issuer_address: Address,
    schema_version: u32,
    expires_at: u64,
) -> Option<Rejection<ProofError>> {
    if !spec_proof_operational(m) {
        Some(Rejection::Aborted(Abort::MigrationInProgress))
    } else if spec_scope_paused(m.pauses, PauseScope::Registration) {
        Some(Rejection::Typed(ProofError::InvalidSchemaVersion))
    } else if !spec_valid_principal(issuer_address@) {
        Some(Rejection::Typed(ProofError::InvalidAddress))
    } else if m.protocol_config is None || m.issuer_registry is None {
        Some(Rejection::Typed(ProofError::ProofNotFound))
    } else if issuer_address@ == m.contract_address@ || issuer_address@
        == m.protocol_config.unwrap()@ || issuer_address@ == m.issuer_registry.unwrap()@ {
        Some(Rejection::Typed(ProofError::InvalidAddress))
    } else if !spec_authorizes(inv, issuer_address@) {
        Some(Rejection::Aborted(Abort::Unauthorized))
    } else if schema_version == 0 {
        Some(Rejection::Typed(ProofError::InvalidSchemaVersion))
    } else if expires_at <= inv.ledger.timestamp {
        Some(Rejection::Typed(ProofError::ProofExpired))
    } else {
        None
    }
}

/// The verdict of the three dependency reads, consulted in order: pause,
/// schema approval, issuer activity. A failed read aborts; a paused protocol
/// and an inactive issuer are reported as an invalid schema version; an
/// unapproved schema as not approved.
pub open spec fn spec_dependency_verdict(
    paused: DependencyReply,
    schema_approved: DependencyReply,
    issuer_active: DependencyReply,
) -> Option<Rejection<ProofError>> {
    match paused {
        DependencyReply::Failed => Some(Rejection::Aborted(Abort::DependencyFailure)),
        DependencyReply::Answered(true) => Some(Rejection::Typed(ProofError::InvalidSchemaVersion)),
        DependencyReply::Answered(false) => match schema_approved {
            DependencyReply::Failed => Some(Rejection::Aborted(Abort::DependencyFailure)),
            DependencyReply::Answered(false) => Some(
                Rejection::Typed(ProofError::SchemaVersionNotApproved),
            ),
            DependencyReply::Answered(true) => match issuer_active {
                DependencyReply::Failed => Some(Rejection::Aborted(Abort::DependencyFailure)),
                DependencyReply::Answered(false) => Some(
                    Rejection::Typed(ProofError::InvalidSchemaVersion),
                ),
                DependencyReply::Answered(true) => None,
            },
        },
    }
}

/// The record a successful registration writes.
pub open spec fn spec_new_proof_record(
    inv: Invocation,
    proof_id_hash: Hash32,
    commitment_hash: Hash32,
    issuer_address: Address,
    schema_version: u32,
    expires_at: u64,
) -> ProofRecord {
    ProofRecord {
        proof_id_hash,
        commitment_hash,
        issuer_address,
        status: ProofStatus::Active,
        schema_version,
        expires_at,
        created_at: inv.ledger.timestamp,
        revoked_at: 0,
        created_ledger: inv.ledger.sequence,
    }
}

pub open spec fn spec_register_proof(
    m: ProofRegistryModel,
    inv: Invocation,
    proof_id_hash: Hash32,
    commitment_hash: Hash32,
    issuer_address: Address,
    schema_version: u32,
    expires_at: u64,
    paused: DependencyReply,
    schema_approved: DependencyReply,
    issuer_active: DependencyReply,
) -> Result<(ProofRegistryModel, ()), Rejection<ProofError>> {
    if let Some(e) = spec_registration_precheck(m, inv, issuer_address, schema_version, expires_at) {
        Err(e)
    } else if let Some(e) = spec_dependency_verdict(paused, schema_approved, issuer_active) {
        Err(e)
    } else if m.proofs.contains_key(proof_id_hash@) {
        Err(Rejection::Typed(ProofError::ProofAlreadyRegistered))
    } else {
        let rec = spec_new_proof_record(
            inv,
            proof_id_hash,
            commitment_hash,
            issuer_address,
            schema_version,
            expires_at,
        );
        Ok(
            (
                ProofRegistryModel {
                    proofs: m.proofs.insert(proof_id_hash@, rec),
                    proof_ttl: m.proof_ttl.insert(proof_id_hash@, spec_live_until(inv)),
                    ..m
                },
                (),
            ),
        )
    }
}

/// Given the replies gathered so far, in read order, the read to make next
/// for a registration of `issuer_address` under `schema_version`, or `None`
/// once the replies decide the registration.
pub open spec fn spec_next_registration_read(
    replies: Seq<DependencyReply>,
    schema_version: u32,
    issuer_address: Address,
) -> Option<RegistrationRead> {
    if replies.len() == 0 {
        Some(RegistrationRead::ProtocolPaused)
    } else if replies[0] != DependencyReply::Answered(false) {
        None
    } else if replies.len() == 1 {
        Some(RegistrationRead::SchemaApproved(schema_version))
    } else if replies[1] != DependencyReply::Answered(true) {
        None
    } else if replies.len() == 2 {
        Some(RegistrationRead::IssuerActive(issuer_address))
    } else {
        None
    }
}

/// Which dependency read `register_proof` needs next, given the replies it
/// has, in the order pause, schema approval, issuer activity; each read
/// carries the argument it is made with.
pub fn next_registration_read(
    replies: &Vec<DependencyReply>,
    schema_version: u32,
    issuer_address: Address,
) -> (r: Option<RegistrationRead>)
    ensures
        r == spec_next_registration_read(replies@, schema_version, issuer_address),
{
    if replies.len() == 0 {
        return Some(RegistrationRead::ProtocolPaused);
    }
    if replies[0] != DependencyReply::Answered(false) {
        return None;
    }
    if replies.len() == 1 {
        return Some(RegistrationRead::SchemaApproved(schema_version));
    }
    if replies[1] != DependencyReply::Answered(true) {
        return None;
    }
    if replies.len() == 2 {
        return Some(RegistrationRead::IssuerActive(issuer_address));
    }
    None
}

/// Revokes a proof, by its issuer or by the admin.
pub open spec fn spec_revoke(
    m: ProofRegistryModel,
    inv: Invocation,
    proof_id_hash: Hash32,
    by_admin: bool,
) -> Result<(ProofRegistryModel, ()), Rejection<ProofError>> {
    if spec_scope_paused(m.pauses, PauseScope::Revocation) {
        Err(Rejection::Typed(ProofError::ProofAlreadyRevoked))
    } else if !spec_proof_operational(m) {
        Err(Rejection::Aborted(Abort::MigrationInProgress))
    } else if !m.proofs.contains_key(proof_id_hash@) {
        Err(Rejection::Typed(ProofError::ProofNotFound))
    } else if by_admin && m.admin is None {
        Err(Rejection::Typed(ProofError::ProofNotFound))
    } else if by_admin && !spec_authorizes(inv, m.admin.unwrap()@) {
        Err(Rejection::Aborted(Abort::Unauthorized))
    } else if !by_admin && !spec_authorizes(inv, m.proofs[proof_id_hash@].issuer_address@) {
        Err(Rejection::Aborted(Abort::Unauthorized))
    } else if m.proofs[proof_id_hash@].status is Revoked {
        Err(Rejection::Typed(ProofError::ProofAlreadyRevoked))
    } else {
        let rec = ProofRecord {
            status: ProofStatus::Revoked,
            revoked_at: inv.ledger.timestamp,
            ..m.proofs[proof_id_hash@]
        };
        Ok(
            (
                ProofRegistryModel {
                    proofs: m.proofs.insert(proof_id_hash@, rec),
                    proof_ttl: m.proof_ttl.insert(proof_id_hash@, spec_live_until(inv)),
                    ..m
                },
                (),
            ),
        )
    }
}

/// Archives an expired or revoked proof. Archiving an archived proof changes
/// nothing and emits nothing.
pub open spec fn spec_archive(m: ProofRegistryModel, inv: Invocation, proof_id_hash: Hash32) -> Result<
    (ProofRegistryModel, Option<ProofArchived>),
    Rejection<ProofError>,
> {
    if m.archived.contains_key(proof_id_hash@) {
        Ok((m, None))
    } else if !m.proofs.contains_key(proof_id_hash@) {
        Err(Rejection::Typed(ProofError::ProofNotFound))
    } else if !spec_authorizes(
        inv,
        match m.admin {
            Some(a) => a@,
            None => m.proofs[proof_id_hash@].issuer_address@,
        },
    ) {
        Err(Rejection::Aborted(Abort::Unauthorized))
    } else if !(inv.ledger.timestamp > m.proofs[proof_id_hash@].expires_at)
        && !(m.proofs[proof_id_hash@].status is Revoked) {
        Err(Rejection::Typed(ProofError::InvalidAddress))
    } else {
        let rec = m.proofs[proof_id_hash@];
        let archived = ArchivedProofRecord {
            proof_id_hash,
            commitment_hash: rec.commitment_hash,
            issuer_address: rec.issuer_address,
            was_revoked: rec.status is Revoked,
            schema_version: rec.schema_version,
            expired_at: rec.expires_at,
            archived_at: inv.ledger.timestamp,
        };
        Ok(
            (
                ProofRegistryModel {
                    archived: m.archived.insert(proof_id_hash@, archived),
                    proofs: m.proofs.remove(proof_id_hash@),
                    ..m
                },
                Some(ProofArchived { proof_id_hash, archived_at: inv.ledger.timestamp }),
            ),
        )
    }
}

/// The state after a read that extends a proof's TTL when the proof exists.
pub open spec fn spec_touch_proof(m: ProofRegistryModel, inv: Invocation, id: Seq<u8>) -> ProofRegistryModel {
    if m.proofs.contains_key(id) {
        ProofRegistryModel { proof_ttl: m.proof_ttl.insert(id, spec_live_until(inv)), ..m }
    } else {
        m
    }
}

pub open spec fn spec_proof_governance_gate(m: ProofRegistryModel, inv: Invocation) -> Option<
    Rejection<ContractError>,
> {
    if m.admin is None {
        Some(Rejection::Typed(ContractError::NotInitialized))
    } else if !spec_authorizes(inv, m.admin.unwrap()@) {
        Some(Rejection::Aborted(Abort::Unauthorized))
    } else {
        None
    }
}

pub open spec fn spec_begin_migration(
    m: ProofRegistryModel,
    inv: Invocation,
    target: u32,
    total: u32,
) -> Result<(ProofRegistryModel, MigrationStatus), Rejection<ContractError>> {
    if let Some(e) = spec_proof_governance_gate(m, inv) {
        Err(e)
    } else {
        match spec_begin(m.migration, m.contract_version, target, total) {
            Err(e) => Err(Rejection::Typed(e)),
            Ok((s, false)) => Ok((m, s)),
            Ok((s, true)) => Ok(
                (
                    ProofRegistryModel {
                        migration: Some(s),
                        instance_live_until: Some(spec_live_until(inv)),
                        ..m
                    },
                    s,
                ),
            ),
        }
    }
}

pub open spec fn spec_advance_migration(
    m: ProofRegistryModel,
    inv: Invocation,
    expected_cursor: u32,
    processed_items: u32,
) -> Result<(ProofRegistryModel, MigrationStatus), Rejection<ContractError>> {
    if let Some(e) = spec_proof_governance_gate(m, inv) {
        Err(e)
    } else {
        match spec_advance(m.migration, expected_cursor, processed_items) {
            Err(e) => Err(Rejection::Typed(e)),
            Ok((s, false)) => Ok((m, s)),
            Ok((s, true)) => Ok(
                (
                    ProofRegistryModel {
                        migration: Some(s),
                        instance_live_until: Some(spec_live_until(inv)),
                        ..m
                    },
                    s,
                ),
            ),
        }
    }
}

pub open spec fn spec_refresh_instance_ttl(m: ProofRegistryModel, inv: Invocation) -> Result<
    (ProofRegistryModel, TtlStatus),
    Rejection<ContractError>,
> {
    if let Some(e) = spec_proof_governance_gate(m, inv) {
        Err(e)
    } else {
        let post = ProofRegistryModel { instance_live_until: Some(spec_live_until(inv)), ..m };
        Ok((post, spec_ttl_status(inv.ledger.sequence, true, post.instance_live_until)))
    }
}

pub open spec fn spec_approve_upgrade(
    m: ProofRegistryModel,
    inv: Invocation,
    wasm_hash: Hash32,
    new_version: u32,
) -> Result<(ProofRegistryModel, UpgradeAllowlisted), Rejection<ContractError>> {
    if let Some(e) = spec_proof_governance_gate(m, inv) {
        Err(e)
    } else if m.pauses.upgrade {
        Err(Rejection::Aborted(Abort::UpgradePaused))
    } else if new_version <= m.contract_version {
        Err(Rejection::Typed(ContractError::InvalidInput))
    } else {
        let admin = m.admin.unwrap();
        let seq = inv.ledger.sequence;
        let earliest = spec_sat_add(seq, m.timing.timelock_ledgers);
        let expires = spec_sat_add(seq, m.timing.expiry_ledgers);
        Ok(
            (
                ProofRegistryModel {
                    allowed_wasm: m.allowed_wasm.insert(
                        wasm_hash@,
                        UpgradeApprovalRecord {
                            new_version,
                            target_contract: m.contract_address,
                            contract_role: ContractRole::ProofRegistry,
                        },
                    ),
                    upgrade_approval: Some(
                        UpgradeApproval {
                            wasm_hash,
                            created_at: seq,
                            earliest_execution: earliest,
                            expires_at: expires,
                            approved_by: admin,
                        },
                    ),
                    approval_metadata: m.approval_metadata.insert(
                        wasm_hash@,
                        UpgradeApprovalMetadata {
                            target_hash: wasm_hash,
                            target_version: new_version,
                            approver: admin,
                            creation_ledger: seq,
                            execution_ledger: None,
                            expiry_ledger: expires,
                            status: ApprovalStatus::Active,
                        },
                    ),
                    instance_live_until: Some(spec_live_until(inv)),
                    ..m
                },
                UpgradeAllowlisted {
                    wasm_hash,
                    target_contract: m.contract_address,
                    contract_role: ContractRole::ProofRegistry,
                    new_contract_version: new_version,
                    approved_by: admin,
                },
            ),
        )
    }
}

/// The audit records with the one for `h`, if present, moved to `status`.
pub open spec fn spec_mark_metadata(
    md: Map<Seq<u8>, UpgradeApprovalMetadata>,
    h: Seq<u8>,
    status: ApprovalStatus,
    execution_ledger: Option<u32>,
) -> Map<Seq<u8>, UpgradeApprovalMetadata> {
    if md.contains_key(h) {
        md.insert(
            h,
            UpgradeApprovalMetadata {
                status,
                execution_ledger: match execution_ledger {
                    Some(l) => Some(l),
                    None => md[h].execution_ledger,
                },
                ..md[h]
            },
        )
    } else {
        md
    }
}

pub open spec fn spec_revoke_upgrade(m: ProofRegistryModel, inv: Invocation, wasm_hash: Hash32) -> Result<
    (ProofRegistryModel, UpgradeRevoked),
    Rejection<ContractError>,
> {
    if let Some(e) = spec_proof_governance_gate(m, inv) {
        Err(e)
    } else if m.pauses.upgrade {
        Err(Rejection::Aborted(Abort::UpgradePaused))
    } else {
        Ok(
            (
                ProofRegistryModel {
                    allowed_wasm: m.allowed_wasm.remove(wasm_hash@),
                    approval_metadata: spec_mark_metadata(
                        m.approval_metadata,
                        wasm_hash@,
                        ApprovalStatus::Revoked,
                        None,
                    ),
                    upgrade_approval: None,
                    ..m
                },
                UpgradeRevoked {
                    wasm_hash,
                    target_contract: m.contract_address,
                    contract_role: ContractRole::ProofRegistry,
                    revoked_by: m.admin.unwrap(),
                },
            ),
        )
    }
}

/// Whether `wasm_hash` may be applied to this contract: its allowlist entry
/// names this contract in its role, or, without an entry, the pending
/// approval is for it.
pub open spec fn spec_is_upgrade_allowed(m: ProofRegistryModel, wasm_hash: Seq<u8>) -> bool {
    if m.allowed_wasm.contains_key(wasm_hash) {
        m.allowed_wasm[wasm_hash].target_contract@ == m.contract_address@
            && m.allowed_wasm[wasm_hash].contract_role == ContractRole::ProofRegistry
    } else {
        match m.upgrade_approval {
            Some(a) => a.wasm_hash@ == wasm_hash,
            None => false,
        }
    }
}

pub open spec fn spec_upgrade_contract(m: ProofRegistryModel, inv: Invocation, wasm_hash: Hash32) -> Result<
    (ProofRegistryModel, ContractUpgraded),
    Rejection<ContractError>,
> {
    let seq = inv.ledger.sequence;
    if m.admin is None {
        Err(Rejection::Aborted(Abort::NotInitialized))
    } else if !spec_authorizes(inv, m.admin.unwrap()@) {
        Err(Rejection::Aborted(Abort::Unauthorized))
    } else if m.pauses.upgrade {
        Err(Rejection::Aborted(Abort::UpgradePaused))
    } else if !m.allowed_wasm.contains_key(wasm_hash@) {
        Err(Rejection::Aborted(Abort::NotAllowlisted))
    } else if m.allowed_wasm[wasm_hash@].target_contract@ != m.contract_address@
        || m.allowed_wasm[wasm_hash@].contract_role != ContractRole::ProofRegistry {
        Err(Rejection::Aborted(Abort::ApprovalMismatch))
    } else if m.allowed_wasm[wasm_hash@].new_version <= m.contract_version {
        Err(Rejection::Aborted(Abort::VersionNotAdvanced))
    } else if m.migration matches Some(s) && (!s.complete || s.target_contract_version
        != m.allowed_wasm[wasm_hash@].new_version) {
        Err(Rejection::Aborted(Abort::MigrationIncomplete))
    } else if m.upgrade_approval matches Some(a) && a.wasm_hash@ == wasm_hash@ && seq
        < a.earliest_execution {
        Err(Rejection::Aborted(Abort::TimelockPending))
    } else if m.upgrade_approval matches Some(a) && a.wasm_hash@ == wasm_hash@ && seq
        >= a.expires_at {
        Err(Rejection::Aborted(Abort::ApprovalExpired))
    } else if m.upgrade_history.len() >= u32::MAX {
        Err(Rejection::Aborted(Abort::CounterOverflow))
    } else {
        let admin = m.admin.unwrap();
        let new_version = m.allowed_wasm[wasm_hash@].new_version;
        let old_wasm = match m.current_wasm_hash {
            Some(h) => h,
            None => spec_zero_hash(),
        };
        Ok(
            (
                ProofRegistryModel {
                    allowed_wasm: m.allowed_wasm.remove(wasm_hash@),
                    upgrade_approval: None,
                    approval_metadata: spec_mark_metadata(
                        m.approval_metadata,
                        wasm_hash@,
                        ApprovalStatus::Executed,
                        Some(seq),
                    ),
                    contract_version: new_version,
                    current_wasm_hash: Some(wasm_hash),
                    latest_upgrade_receipt: Some(
                        UpgradeReceipt {
                            wasm_hash,
                            old_version: m.contract_version,
                            new_version,
                            upgraded_at: inv.ledger.timestamp,
                            upgraded_by: admin,
                        },
                    ),
                    migration: None,
                    instance_live_until: Some(spec_live_until(inv)),
                    upgrade_history: m.upgrade_history.push(
                        UpgradeHistoryRecord {
                            old_wasm_hash: old_wasm,
                            new_wasm_hash: wasm_hash,
                            old_version: m.contract_version,
                            new_version,
                            ledger_sequence: seq,
                            ledger_timestamp: inv.ledger.timestamp,
                            upgraded_by: admin,
                        },
                    ),
                    ..m
                },
                ContractUpgraded {
                    new_wasm_hash: wasm_hash,
                    target_contract: m.contract_address,
                    contract_role: ContractRole::ProofRegistry,
                    old_contract_version: m.contract_version,
                    new_contract_version: new_version,
                    upgraded_by: admin,
                },
            ),
        )
    }
}

pub open spec fn spec_revoke_upgrade_approval(m: ProofRegistryModel, inv: Invocation) -> Result<
    (ProofRegistryModel, ()),
    Rejection<ContractError>,
> {
    if let Some(e) = spec_proof_governance_gate(m, inv) {
        Err(e)
    } else {
        Ok((ProofRegistryModel { upgrade_approval: None, ..m }, ()))
    }
}

/// The page of history starting at `start`: at most `min(limit, 50)`
/// records, none past the end.
pub open spec fn spec_history_page(h: Seq<UpgradeHistoryRecord>, start: u32, limit: u32) -> Seq<UpgradeHistoryRecord> {
    if start >= h.len() {
        Seq::empty()
    } else {
        let max = if limit > MAX_HISTORY_PAGE { MAX_HISTORY_PAGE } else { limit };
        let end = if start + max > h.len() { h.len() as int } else { start + max };
        h.subrange(start as int, end)
    }
}

impl ProofRegistryContract {
    pub open spec fn view(&self) -> ProofRegistryModel {
        ProofRegistryModel {
            contract_address: self.contract_address,
            timing: self.timing,
            admin: self.admin,
            issuer_registry: self.issuer_registry,
            protocol_config: self.protocol_config,
            issuer_registry_version: self.issuer_registry_version,
            protocol_config_version: self.protocol_config_version,
            contract_version: self.contract_version,
            migration: self.migration,
            instance_live_until: self.instance_live_until,
            current_wasm_hash: self.current_wasm_hash,
            latest_upgrade_receipt: self.latest_upgrade_receipt,
            upgrade_approval: self.upgrade_approval,
            pauses: self.pauses,
            proofs: self.proofs.view(),
            proof_ttl: self.proof_ttl.view(),
            archived: self.archived.view(),
            allowed_wasm: self.allowed_wasm.view(),
            approval_metadata: self.approval_metadata.view(),
            upgrade_history: self.upgrade_history@,
        }
    }

    /// Tables have unique keys, the timing's window is not empty, and the
    /// history count fits a `u32`.
    pub open spec fn wf(&self) -> bool {
        &&& self.proofs.wf()
        &&& self.proof_ttl.wf()
        &&& self.archived.wf()
        &&& self.allowed_wasm.wf()
        &&& self.approval_metadata.wf()
        &&& self.timing.wf()
        &&& self.upgrade_history@.len() <= u32::MAX
    }

    /// A registry with empty storage deployed at `contract_address`, with the
    /// given upgrade timing.
    pub fn new(contract_address: Address, timing: UpgradeTiming) -> (r: ProofRegistryContract)
        requires
            timing.wf(),
        ensures
            r.wf(),
            r@.contract_address == contract_address,
            r@.timing == timing,
            r@.admin is None,
            r@.issuer_registry is None,
            r@.protocol_config is None,
            r@.issuer_registry_version is None,
            r@.protocol_config_version is None,
            r@.contract_version == 0,
            r@.migration is None,
            r@.instance_live_until is None,
            r@.current_wasm_hash is None,
            r@.latest_upgrade_receipt is None,
            r@.upgrade_approval is None,
            !r@.pauses.global && !r@.pauses.registration && !r@.pauses.revocation
                && !r@.pauses.upgrade,
            r@.proofs == Map::<Seq<u8>, ProofRecord>::empty(),
            r@.proof_ttl == Map::<Seq<u8>, u32>::empty(),
            r@.archived == Map::<Seq<u8>, ArchivedProofRecord>::empty(),
            r@.allowed_wasm == Map::<Seq<u8>, UpgradeApprovalRecord>::empty(),
            r@.approval_metadata == Map::<Seq<u8>, UpgradeApprovalMetadata>::empty(),
            r@.upgrade_history == Seq::<UpgradeHistoryRecord>::empty(),
    {
        ProofRegistryContract {
            contract_address,
            timing,
            admin: None,
            issuer_registry: None,
            protocol_config: None,
            issuer_registry_version: None,
            protocol_config_version: None,
            contract_version: 0,
            migration: None,
            instance_live_until: None,
            current_wasm_hash: None,
            latest_upgrade_receipt: None,
            upgrade_approval: None,
            pauses: ScopedPauses::none(),
            proofs: Table::new(),
            proof_ttl: Table::new(),
            archived: Table::new(),
            allowed_wasm: Table::new(),
            approval_metadata: Table::new(),
            upgrade_history: Vec::new(),
        }
    }

    fn is_operational(&self) -> (r: bool)
        ensures
            r == spec_proof_operational(self@),
    {
        match self.migration {
            Some(s) => s.complete,
            None => true,
        }
    }

    /// Checks the dependency addresses given at initialization: both name
    /// usable principals, neither is this contract, and they differ.
    pub fn validate_dependency_addresses(&self, issuer_registry: &Address, protocol_config: &Address) -> (r:
        Result<(), ContractError>)
        ensures
            r is Ok <==> spec_dependencies_valid(self@, *issuer_registry, *protocol_config),
            r is Err ==> r == Err::<(), ContractError>(ContractError::InvalidInput),
    {
        if !is_valid_principal_address(issuer_registry) || !is_valid_principal_address(protocol_config) {
            return Err(ContractError::InvalidInput);
        }
        if issuer_registry.same_key(&self.contract_address) || protocol_config.same_key(
            &self.contract_address,
        ) || issuer_registry.same_key(protocol_config) {
            return Err(ContractError::InvalidInput);
        }
        Ok(())
    }

    /// Sets the admin and the two dependency references. The dependency
    /// versions are the replies of their `get_contract_version` queries
    /// (`None` when a query failed).
    pub fn initialize(
        &mut self,
        inv: &Invocation,
        admin: Address,
        issuer_registry: Address,
        protocol_config: Address,
        config_version_reply: Option<u32>,
        issuer_version_reply: Option<u32>,
    ) -> (r: Result<(), Rejection<ContractError>>)
        requires
            old(self).wf(),
        ensures
            final(self).wf(),
            outcome_matches(
                spec_initialize(
                    old(self)@,
                    *inv,
                    admin,
                    issuer_registry,
                    protocol_config,
                    config_version_reply,
                    issuer_version_reply,
                ),
                r,
                old(self)@,
                final(self)@,
            ),
    {
        if self.admin.is_some() {
            return Err(Rejection::Typed(ContractError::AlreadyInitialized));
        }
        if !is_valid_principal_address(&admin) {
            return Err(Rejection::Typed(ContractError::InvalidInput));
        }
        if let Err(e) = self.validate_dependency_addresses(&issuer_registry, &protocol_config) {
            return Err(Rejection::Typed(e));
        }
        let config_version = match config_version_reply {
            Some(v) => if v > MAX_DEPENDENCY_VERSION {
                return Err(Rejection::Typed(ContractError::InvalidInput));
            } else {
                v
            },
            None => 1,
        };
        let issuer_version = match issuer_version_reply {
            Some(v) => if v > MAX_DEPENDENCY_VERSION {
                return Err(Rejection::Typed(ContractError::InvalidInput));
            } else {
                v
            },
            None => 1,
        };
        if !inv.authorizes(&admin) {
            return Err(Rejection::Aborted(Abort::Unauthorized));
        }
        self.admin = Some(admin);
        self.issuer_registry = Some(issuer_registry);
        self.protocol_config = Some(protocol_config);
        self.protocol_config_version = Some(config_version);
        self.issuer_registry_version = Some(issuer_version);
        self.contract_version = 1;
        self.instance_live_until = Some(inv.live_until());
        Ok(())
    }

    /// Whether `scope` is paused; `Global` never is.
    pub fn is_scope_paused(&self, scope: PauseScope) -> (r: bool)
        ensures
            r == spec_scope_paused(self@.pauses, scope),
    {
        self.pauses.is_paused(scope)
    }

    fn set_pause(&mut self, inv: &Invocation, scope: PauseScope, paused: bool) -> (r: Result<
        ScopedPauseChanged,
        Rejection<ProofError>,
    >)
        requires
            old(self).wf(),
        ensures
            final(self).wf(),
            outcome_matches(spec_set_pause(old(self)@, *inv, scope, paused), r, old(self)@, final(self)@),
    {
        let admin = match self.admin {
            Some(a) => a,
            None => return Err(Rejection::Typed(ProofError::ProofNotFound)),
        };
        if !inv.authorizes(&admin) {
            return Err(Rejection::Aborted(Abort::Unauthorized));
        }
        self.pauses.set(scope, paused);
        Ok(ScopedPauseChanged { scope, paused, changed_by: admin })
    }

    /// Admin only: pauses `scope`.
    pub fn pause_scope(&mut self, inv: &Invocation, scope: PauseScope) -> (r: Result<
        ScopedPauseChanged,
        Rejection<ProofError>,
    >)
        requires
            old(self).wf(),
        ensures
            final(self).wf(),
            outcome_matches(spec_set_pause(old(self)@, *inv, scope, true), r, old(self)@, final(self)@),
    {
        self.set_pause(inv, scope, true)
    }

    /// Admin only: unpauses `scope`.
    pub fn unpause_scope(&mut self, inv: &Invocation, scope: PauseScope) -> (r: Result<
        ScopedPauseChanged,
        Rejection<ProofError>,
    >)
        requires
            old(self).wf(),
        ensures
            final(self).wf(),
            outcome_matches(spec_set_pause(old(self)@, *inv, scope, false), r, old(self)@, final(self)@),
    {
        self.set_pause(inv, scope, false)
    }

    /// The checks of `register_proof` that precede its dependency reads.
    pub fn registration_precheck(
        &self,
        inv: &Invocation,
        issuer_address: &Address,
        schema_version: u32,
        expires_at: u64,
    ) -> (r: Option<Rejection<ProofError>>)
        ensures
            r == spec_registration_precheck(self@, *inv, *issuer_address, schema_version, expires_at),
    {
        if !self.is_operational() {
            return Some(Rejection::Aborted(Abort::MigrationInProgress));
        }
        if self.pauses.is_paused(PauseScope::Registration) {
            return Some(Rejection::Typed(ProofError::InvalidSchemaVersion));
        }
        if !is_valid_principal_address(issuer_address) {
            return Some(Rejection::Typed(ProofError::InvalidAddress));
        }
        let protocol_config = match self.protocol_config {
            Some(a) => a,
            None => return Some(Rejection::Typed(ProofError::ProofNotFound)),
        };
        let issuer_registry = match self.issuer_registry {
            Some(a) => a,
            None => return Some(Rejection::Typed(ProofError::ProofNotFound)),
        };
        if issuer_address.same_key(&self.contract_address) || issuer_address.same_key(&protocol_config)
            || issuer_address.same_key(&issuer_registry) {
            return Some(Rejection::Typed(ProofError::InvalidAddress));
        }
        if !inv.authorizes(issuer_address) {
            return Some(Rejection::Aborted(Abort::Unauthorized));
        }
        if schema_version == 0 {
            return Some(Rejection::Typed(ProofError::InvalidSchemaVersion));
        }
        if expires_at <= inv.ledger.timestamp {
            return Some(Rejection::Typed(ProofError::ProofExpired));
        }
        None
    }

    /// Registers a proof commitment signed by `issuer_address`, given the
    /// replies of the dependency reads (only those consulted matter).
    pub fn register_proof(
        &mut self,
        inv: &Invocation,
        proof_id_hash: Hash32,
        commitment_hash: Hash32,
        issuer_address: Address,
        schema_version: u32,
        expires_at: u64,
        paused: DependencyReply,
        schema_approved: DependencyReply,
        issuer_active: DependencyReply,
    ) -> (r: Result<(), Rejection<ProofError>>)
        requires
            old(self).wf(),
        ensures
            final(self).wf(),
            outcome_matches(
                spec_register_proof(
                    old(self)@,
                    *inv,
                    proof_id_hash,
                    commitment_hash,
                    issuer_address,
                    schema_version,
                    expires_at,
                    paused,
                    schema_approved,
                    issuer_active,
                ),
                r,
                old(self)@,
                final(self)@,
            ),
    {
        if let Some(e) = self.registration_precheck(inv, &issuer_address, schema_version, expires_at) {
            return Err(e);
        }
        match paused {
            DependencyReply::Failed => return Err(Rejection::Aborted(Abort::DependencyFailure)),
            DependencyReply::Answered(true) => return Err(
                Rejection::Typed(ProofError::InvalidSchemaVersion),
            ),
            DependencyReply::Answered(false) => {},
        }
        match schema_approved {
            DependencyReply::Failed => return Err(Rejection::Aborted(Abort::DependencyFailure)),
            DependencyReply::Answered(false) => return Err(
                Rejection::Typed(ProofError::SchemaVersionNotApproved),
            ),
            DependencyReply::Answered(true) => {},
        }
        match issuer_active {
            DependencyReply::Failed => return Err(Rejection::Aborted(Abort::DependencyFailure)),
            DependencyReply::Answered(false) => return Err(
                Rejection::Typed(ProofError::InvalidSchemaVersion),
            ),
            DependencyReply::Answered(true) => {},
        }
        if self.proofs.contains(&proof_id_hash) {
            return Err(Rejection::Typed(ProofError::ProofAlreadyRegistered));
        }
        let record = ProofRecord {
            proof_id_hash,
            commitment_hash,
            issuer_address,
            status: ProofStatus::Active,
            schema_version,
            expires_at,
            created_at: inv.ledger.timestamp,
            revoked_at: 0,
            created_ledger: inv.ledger.sequence,
        };
        self.proofs.set(proof_id_hash, record);
        let live = inv.live_until();
        self.proof_ttl.set(proof_id_hash, live);
        Ok(())
    }

    fn set_revoked(&mut self, inv: &Invocation, proof_id_hash: Hash32, by_admin: bool) -> (r: Result<
        (),
        Rejection<ProofError>,
    >)
        requires
            old(self).wf(),
        ensures
            final(self).wf(),
            outcome_matches(spec_revoke(old(self)@, *inv, proof_id_hash, by_admin), r, old(self)@, final(self)@),
    {
        if self.pauses.is_paused(PauseScope::Revocation) {
            return Err(Rejection::Typed(ProofError::ProofAlreadyRevoked));
        }
        if !self.is_operational() {
            return Err(Rejection::Aborted(Abort::MigrationInProgress));
        }
        let old = match self.proofs.get(&proof_id_hash) {
            Some(rec) => *rec,
            None => return Err(Rejection::Typed(ProofError::ProofNotFound)),
        };
        if by_admin {
            let admin = match self.admin {
                Some(a) => a,
                None => return Err(Rejection::Typed(ProofError::ProofNotFound)),
            };
            if !inv.authorizes(&admin) {
                return Err(Rejection::Aborted(Abort::Unauthorized));
            }
        } else if !inv.authorizes(&old.issuer_address) {
            return Err(Rejection::Aborted(Abort::Unauthorized));
        }
        if old.status == ProofStatus::Revoked {
            return Err(Rejection::Typed(ProofError::ProofAlreadyRevoked));
        }
        let rec = ProofRecord { status: ProofStatus::Revoked, revoked_at: inv.ledger.timestamp, ..old };
        self.proofs.set(proof_id_hash, rec);
        let live = inv.live_until();
        self.proof_ttl.set(proof_id_hash, live);
        Ok(())
    }

    /// The issuer revokes its own proof.
    pub fn revoke_proof(&mut self, inv: &Invocation, proof_id_hash: Hash32) -> (r: Result<(), Rejection<ProofError>>)
        requires
            old(self).wf(),
        ensures
            final(self).wf(),
            outcome_matches(spec_revoke(old(self)@, *inv, proof_id_hash, false), r, old(self)@, final(self)@),
    {
        self.set_revoked(inv, proof_id_hash, false)
    }

    /// The admin revokes any proof.
    pub fn admin_revoke_proof(&mut self, inv: &Invocation, proof_id_hash: Hash32) -> (r: Result<
        (),
        Rejection<ProofError>,
    >)
        requires
            old(self).wf(),
        ensures
            final(self).wf(),
            outcome_matches(spec_revoke(old(self)@, *inv, proof_id_hash, true), r, old(self)@, final(self)@),
    {
        self.set_revoked(inv, proof_id_hash, true)
    }

    /// Moves an expired or revoked proof to the archive. Returns the event, or
    /// `None` when the proof was already archived.
    pub fn archive_proof(&mut self, inv: &Invocation, proof_id_hash: Hash32) -> (r: Result<
        Option<ProofArchived>,
        Rejection<ProofError>,
    >)
        requires
            old(self).wf(),
        ensures
            final(self).wf(),
            outcome_matches(spec_archive(old(self)@, *inv, proof_id_hash), r, old(self)@, final(self)@),
    {
        if self.archived.contains(&proof_id_hash) {
            return Ok(None);
        }
        let rec = match self.proofs.get(&proof_id_hash) {
            Some(rec) => *rec,
            None => return Err(Rejection::Typed(ProofError::ProofNotFound)),
        };
        let signer = match self.admin {
            Some(a) => a,
            None => rec.issuer_address,
        };
        if !inv.authorizes(&signer) {
            return Err(Rejection::Aborted(Abort::Unauthorized));
        }
        let now = inv.ledger.timestamp;
        let is_expired = now > rec.expires_at;
        let is_revoked = rec.status == ProofStatus::Revoked;
        if !is_expired && !is_revoked {
            return Err(Rejection::Typed(ProofError::InvalidAddress));
        }
        let archived = ArchivedProofRecord {
            proof_id_hash,
            commitment_hash: rec.commitment_hash,
            issuer_address: rec.issuer_address,
            was_revoked: is_revoked,
            schema_version: rec.schema_version,
            expired_at: rec.expires_at,
            archived_at: now,
        };
        self.archived.set(proof_id_hash, archived);
        self.proofs.remove(&proof_id_hash);
        Ok(Some(ProofArchived { proof_id_hash, archived_at: now }))
    }

    /// The archived record of a proof.
    pub fn get_archived_proof(&self, proof_id_hash: Hash32) -> (r: Result<ArchivedProofRecord, ProofError>)
        requires
            self.wf(),
        ensures
            if self@.archived.contains_key(proof_id_hash@) {
                r == Ok::<ArchivedProofRecord, ProofError>(self@.archived[proof_id_hash@])
            } else {
                r == Err::<ArchivedProofRecord, ProofError>(ProofError::ProofNotFound)
            },
    {
        match self.archived.get(&proof_id_hash) {
            Some(rec) => Ok(*rec),
            None => Err(ProofError::ProofNotFound),
        }
    }

    /// Whether the proof has been archived.
    pub fn is_archived(&self, proof_id_hash: Hash32) -> (r: bool)
        requires
            self.wf(),
        ensures
            r == self@.archived.contains_key(proof_id_hash@),
    {
        self.archived.contains(&proof_id_hash)
    }

    /// Reads a proof, extending its TTL.
    pub fn get_proof(&mut self, inv: &Invocation, proof_id_hash: Hash32) -> (r: Result<ProofRecord, ProofError>)
        requires
            old(self).wf(),
        ensures
            final(self).wf(),
            final(self)@ == spec_touch_proof(old(self)@, *inv, proof_id_hash@),
            if old(self)@.proofs.contains_key(proof_id_hash@) {
                r == Ok::<ProofRecord, ProofError>(old(self)@.proofs[proof_id_hash@])
            } else {
                r == Err::<ProofRecord, ProofError>(ProofError::ProofNotFound)
            },
    {
        let rec = match self.proofs.get(&proof_id_hash) {
            Some(rec) => *rec,
            None => return Err(ProofError::ProofNotFound),
        };
        let live = inv.live_until();
        self.proof_ttl.set(proof_id_hash, live);
        Ok(rec)
    }

    /// Whether the proof exists, is active, and has not expired (a proof is
    /// still valid at exactly its expiry time).
    pub fn is_valid_proof(&mut self, inv: &Invocation, proof_id_hash: Hash32) -> (r: bool)
        requires
            old(self).wf(),
        ensures
            final(self).wf(),
            final(self)@ == spec_touch_proof(old(self)@, *inv, proof_id_hash@),
            r == (old(self)@.proofs.contains_key(proof_id_hash@) && old(self)@.proofs[proof_id_hash@].status is Active
                && inv.ledger.timestamp <= old(self)@.proofs[proof_id_hash@].expires_at),
    {
        match self.get_proof(inv, proof_id_hash) {
            Ok(rec) => rec.status == ProofStatus::Active && inv.ledger.timestamp <= rec.expires_at,
            Err(_) => false,
        }
    }

    /// Whether the proof was revoked, whether archived or not.
    pub fn is_revoked(&mut self, inv: &Invocation, proof_id_hash: Hash32) -> (r: bool)
        requires
            old(self).wf(),
        ensures
            final(self).wf(),
            if old(self)@.archived.contains_key(proof_id_hash@) {
                r == old(self)@.archived[proof_id_hash@].was_revoked && final(self)@ == old(self)@
            } else {
                final(self)@ == spec_touch_proof(old(self)@, *inv, proof_id_hash@) && r == (old(
                    self,
                )@.proofs.contains_key(proof_id_hash@) && old(self)@.proofs[proof_id_hash@].status is Revoked)
            },
    {
        if let Ok(archived) = self.get_archived_proof(proof_id_hash) {
            return archived.was_revoked;
        }
        match self.get_proof(inv, proof_id_hash) {
            Ok(rec) => rec.status == ProofStatus::Revoked,
            Err(_) => false,
        }
    }

    /// The admin, once initialized.
    pub fn get_admin(&self) -> (r: Result<Address, ContractError>)
        ensures
            match self@.admin {
                Some(a) => r == Ok::<Address, ContractError>(a),
                None => r == Err::<Address, ContractError>(ContractError::NotInitialized),
            },
    {
        match self.admin {
            Some(a) => Ok(a),
            None => Err(ContractError::NotInitialized),
        }
    }

    /// The issuer registry this registry consults.
    pub fn get_issuer_registry(&self) -> (r: Result<Address, ContractError>)
        ensures
            match self@.issuer_registry {
                Some(a) => r == Ok::<Address, ContractError>(a),
                None => r == Err::<Address, ContractError>(ContractError::NotInitialized),
            },
    {
        match self.issuer_registry {
            Some(a) => Ok(a),
            None => Err(ContractError::NotInitialized),
        }
    }

    /// The protocol config this registry consults.
    pub fn get_protocol_config(&self) -> (r: Result<Address, ContractError>)
        ensures
            match self@.protocol_config {
                Some(a) => r == Ok::<Address, ContractError>(a),
                None => r == Err::<Address, ContractError>(ContractError::NotInitialized),
            },
    {
        match self.protocol_config {
            Some(a) => Ok(a),
            None => Err(ContractError::NotInitialized),
        }
    }

    /// The (protocol-config, issuer-registry) versions recorded at
    /// initialization.
    pub fn get_dependency_versions(&self) -> (r: Result<(u32, u32), ContractError>)
        ensures
            match (self@.protocol_config_version, self@.issuer_registry_version) {
                (Some(c), Some(i)) => r == Ok::<(u32, u32), ContractError>((c, i)),
                _ => r == Err::<(u32, u32), ContractError>(ContractError::NotInitialized),
            },
    {
        let c = match self.protocol_config_version {
            Some(c) => c,
            None => return Err(ContractError::NotInitialized),
        };
        let i = match self.issuer_registry_version {
            Some(i) => i,
            None => return Err(ContractError::NotInitialized),
        };
        Ok((c, i))
    }

    /// The stored contract version; 0 before initialization.
    pub fn get_contract_version(&self) -> (r: u32)
        ensures
            r == self@.contract_version,
    {
        self.contract_version
    }

    /// Version of the configuration digest payload.
    pub fn get_config_digest_version() -> (r: u32)
        ensures
            r == CONFIG_DIGEST_VERSION,
    {
        CONFIG_DIGEST_VERSION
    }

    /// Digest of the registry's configuration (admin, dependency addresses
    /// and contract version). `Err(NotInitialized)` before initialization;
    /// `Ok(None)` when a recorded address text names no address.
    pub fn get_config_digest(&self) -> (r: Result<Option<Hash32>, ContractError>)
        ensures
            match (self@.admin, self@.issuer_registry, self@.protocol_config) {
                (Some(a), Some(ir), Some(pc)) => if strkey_names_address(a@)
                    && strkey_names_address(ir@) && strkey_names_address(pc@) {
                    r matches Ok(Some(d)) && d@ == proof_registry_payload_hash(
                        CONFIG_DIGEST_VERSION,
                        proof_registry_domain(),
                        a@,
                        ir@,
                        pc@,
                        self@.contract_version,
                    )
                } else {
                    r == Ok::<Option<Hash32>, ContractError>(None)
                },
                _ => r == Err::<Option<Hash32>, ContractError>(ContractError::NotInitialized),
            },
    {
        match (self.admin, self.issuer_registry, self.protocol_config) {
            (Some(a), Some(ir), Some(pc)) => {
                if names_address(&a) && names_address(&ir) && names_address(&pc) {
                    Ok(Some(proof_registry_digest(&a, &ir, &pc, self.contract_version)))
                } else {
                    Ok(None)
                }
            },
            _ => Err(ContractError::NotInitialized),
        }
    }

    /// The migration checkpoint, if a migration has begun.
    pub fn get_migration_status(&self) -> (r: Option<MigrationStatus>)
        ensures
            r == self@.migration,
    {
        self.migration
    }

    fn governance_gate(&self, inv: &Invocation) -> (r: Result<Address, Rejection<ContractError>>)
        ensures
            match spec_proof_governance_gate(self@, *inv) {
                Some(e) => r == Err::<Address, Rejection<ContractError>>(e),
                None => r == Ok::<Address, Rejection<ContractError>>(self@.admin.unwrap()),
            },
    {
        match self.admin {
            None => Err(Rejection::Typed(ContractError::NotInitialized)),
            Some(admin) => if inv.authorizes(&admin) {
                Ok(admin)
            } else {
                Err(Rejection::Aborted(Abort::Unauthorized))
            },
        }
    }

    /// Begins a storage migration towards `target_contract_version`.
    pub fn begin_migration(&mut self, inv: &Invocation, target_contract_version: u32, total_items: u32) -> (r:
        Result<MigrationStatus, Rejection<ContractError>>)
        requires
            old(self).wf(),
        ensures
            final(self).wf(),
            outcome_matches(
                spec_begin_migration(old(self)@, *inv, target_contract_version, total_items),
                r,
                old(self)@,
                final(self)@,
            ),
    {
        self.governance_gate(inv)?;
        match begin_migration_step(self.migration, self.contract_version, target_contract_version, total_items) {
            Err(e) => Err(Rejection::Typed(e)),
            Ok((s, written)) => {
                if written {
                    self.migration = Some(s);
                    self.instance_live_until = Some(inv.live_until());
                }
                Ok(s)
            },
        }
    }

    /// Commits a migration batch.
    pub fn advance_migration(&mut self, inv: &Invocation, expected_cursor: u32, processed_items: u32) -> (r:
        Result<MigrationStatus, Rejection<ContractError>>)
        requires
            old(self).wf(),
        ensures
            final(self).wf(),
            outcome_matches(
                spec_advance_migration(old(self)@, *inv, expected_cursor, processed_items),
                r,
                old(self)@,
                final(self)@,
            ),
    {
        self.governance_gate(inv)?;
        match advance_migration_step(self.migration, expected_cursor, processed_items) {
            Err(e) => Err(Rejection::Typed(e)),
            Ok((s, written)) => {
                if written {
                    self.migration = Some(s);
                    self.instance_live_until = Some(inv.live_until());
                }
                Ok(s)
            },
        }
    }

    /// TTL report of the contract instance.
    pub fn get_instance_ttl_status(&self, inv: &Invocation) -> (r: TtlStatus)
        ensures
            r == spec_ttl_status(inv.ledger.sequence, self@.admin is Some, self@.instance_live_until),
    {
        ttl_status(inv.ledger.sequence, self.admin.is_some(), self.instance_live_until)
    }

    /// TTL report of a proof record.
    pub fn get_proof_ttl_status(&self, inv: &Invocation, proof_id_hash: Hash32) -> (r: TtlStatus)
        requires
            self.wf(),
        ensures
            r == spec_ttl_status(
                inv.ledger.sequence,
                self@.proofs.contains_key(proof_id_hash@),
                if self@.proof_ttl.contains_key(proof_id_hash@) {
                    Some(self@.proof_ttl[proof_id_hash@])
                } else {
                    None
                },
            ),
    {
        let live = match self.proof_ttl.get(&proof_id_hash) {
            Some(l) => Some(*l),
            None => None,
        };
        ttl_status(inv.ledger.sequence, self.proofs.contains(&proof_id_hash), live)
    }

    /// Extends the instance TTL (admin only) and reports it.
    pub fn refresh_instance_ttl(&mut self, inv: &Invocation) -> (r: Result<TtlStatus, Rejection<ContractError>>)
        requires
            old(self).wf(),
        ensures
            final(self).wf(),
            outcome_matches(spec_refresh_instance_ttl(old(self)@, *inv), r, old(self)@, final(self)@),
    {
        self.governance_gate(inv)?;
        self.instance_live_until = Some(inv.live_until());
        Ok(self.get_instance_ttl_status(inv))
    }

    /// Admin only: approves `wasm_hash` as the upgrade to `new_version`,
    /// opening a timelocked execution window.
    pub fn approve_upgrade(&mut self, inv: &Invocation, wasm_hash: Hash32, new_version: u32) -> (r: Result<
        UpgradeAllowlisted,
        Rejection<ContractError>,
    >)
        requires
            old(self).wf(),
        ensures
            final(self).wf(),
            outcome_matches(
                spec_approve_upgrade(old(self)@, *inv, wasm_hash, new_version),
                r,
                old(self)@,
                final(self)@,
            ),
    {
        let admin = self.governance_gate(inv)?;
        if self.pauses.upgrade {
            return Err(Rejection::Aborted(Abort::UpgradePaused));
        }
        if new_version <= self.contract_version {
            return Err(Rejection::Typed(ContractError::InvalidInput));
        }
        let seq = inv.ledger.sequence;
        let earliest = seq.saturating_add(self.timing.timelock_ledgers);
        let expires = seq.saturating_add(self.timing.expiry_ledgers);
        self.allowed_wasm.set(
            wasm_hash,
            UpgradeApprovalRecord {
                new_version,
                target_contract: self.contract_address,
                contract_role: ContractRole::ProofRegistry,
            },
        );
        self.upgrade_approval = Some(
            UpgradeApproval {
                wasm_hash,
                created_at: seq,
                earliest_execution: earliest,
                expires_at: expires,
                approved_by: admin,
            },
        );
        self.approval_metadata.set(
            wasm_hash,
            UpgradeApprovalMetadata {
                target_hash: wasm_hash,
                target_version: new_version,
                approver: admin,
                creation_ledger: seq,
                execution_ledger: None,
                expiry_ledger: expires,
                status: ApprovalStatus::Active,
            },
        );
        self.instance_live_until = Some(inv.live_until());
        Ok(
            UpgradeAllowlisted {
                wasm_hash,
                target_contract: self.contract_address,
                contract_role: ContractRole::ProofRegistry,
                new_contract_version: new_version,
                approved_by: admin,
            },
        )
    }

    fn mark_metadata(&mut self, wasm_hash: Hash32, status: ApprovalStatus, execution_ledger: Option<u32>)
        requires
            old(self).wf(),
        ensures
            final(self).wf(),
            final(self)@ == (ProofRegistryModel {
                approval_metadata: spec_mark_metadata(
                    old(self)@.approval_metadata,
                    wasm_hash@,
                    status,
                    execution_ledger,
                ),
                ..old(self)@
            }),
    {
        let md = match self.approval_metadata.get(&wasm_hash) {
            Some(md) => *md,
            None => return,
        };
        let execution = match execution_ledger {
            Some(l) => Some(l),
            None => md.execution_ledger,
        };
        self.approval_metadata.set(
            wasm_hash,
            UpgradeApprovalMetadata { status, execution_ledger: execution, ..md },
        );
    }

    /// Admin only: withdraws the approval of `wasm_hash` and the pending
    /// timelocked approval.
    pub fn revoke_upgrade(&mut self, inv: &Invocation, wasm_hash: Hash32) -> (r: Result<
        UpgradeRevoked,
        Rejection<ContractError>,
    >)
        requires
            old(self).wf(),
        ensures
            final(self).wf(),
            outcome_matches(spec_revoke_upgrade(old(self)@, *inv, wasm_hash), r, old(self)@, final(self)@),
    {
        let admin = self.governance_gate(inv)?;
        if self.pauses.upgrade {
            return Err(Rejection::Aborted(Abort::UpgradePaused));
        }
        self.allowed_wasm.remove(&wasm_hash);
        self.mark_metadata(wasm_hash, ApprovalStatus::Revoked, None);
        self.upgrade_approval = None;
        Ok(
            UpgradeRevoked {
                wasm_hash,
                target_contract: self.contract_address,
                contract_role: ContractRole::ProofRegistry,
                revoked_by: admin,
            },
        )
    }

    /// Whether `wasm_hash` may be applied to this contract.
    pub fn is_upgrade_allowed(&self, wasm_hash: Hash32) -> (r: bool)
        requires
            self.wf(),
        ensures
            r == spec_is_upgrade_allowed(self@, wasm_hash@),
    {
        if let Some(rec) = self.allowed_wasm.get(&wasm_hash) {
            return rec.target_contract.same_key(&self.contract_address) && rec.contract_role
                == ContractRole::ProofRegistry;
        }
        match self.upgrade_approval {
            Some(a) => a.wasm_hash.same_key(&wasm_hash),
            None => false,
        }
    }

    /// The audit record of the approval of `target_hash`, as seen at the
    /// invocation's ledger.
    pub fn get_upgrade_approval_metadata(&self, inv: &Invocation, target_hash: Hash32) -> (r: ApprovalQuery)
        requires
            self.wf(),
        ensures
            r == spec_approval_query(
                if self@.approval_metadata.contains_key(target_hash@) {
                    Some(self@.approval_metadata[target_hash@])
                } else {
                    None
                },
                inv.ledger.sequence,
            ),
    {
        let md = match self.approval_metadata.get(&target_hash) {
            Some(md) => Some(*md),
            None => None,
        };
        approval_query(md, inv.ledger.sequence)
    }

    /// Admin only: applies the approved upgrade `wasm_hash` within its
    /// execution window, recording a receipt and a history entry.
    pub fn upgrade_contract(&mut self, inv: &Invocation, wasm_hash: Hash32) -> (r: Result<
        ContractUpgraded,
        Rejection<ContractError>,
    >)
        requires
            old(self).wf(),
        ensures
            final(self).wf(),
            outcome_matches(spec_upgrade_contract(old(self)@, *inv, wasm_hash), r, old(self)@, final(self)@),
    {
        let admin = match self.admin {
            Some(a) => a,
            None => return Err(Rejection::Aborted(Abort::NotInitialized)),
        };
        if !inv.authorizes(&admin) {
            return Err(Rejection::Aborted(Abort::Unauthorized));
        }
        if self.pauses.upgrade {
            return Err(Rejection::Aborted(Abort::UpgradePaused));
        }
        let approval = match self.allowed_wasm.get(&wasm_hash) {
            Some(a) => *a,
            None => return Err(Rejection::Aborted(Abort::NotAllowlisted)),
        };
        if !approval.target_contract.same_key(&self.contract_address) || approval.contract_role
            != ContractRole::ProofRegistry {
            return Err(Rejection::Aborted(Abort::ApprovalMismatch));
        }
        let old_version = self.contract_version;
        if approval.new_version <= old_version {
            return Err(Rejection::Aborted(Abort::VersionNotAdvanced));
        }
        if let Some(s) = self.migration {
            if !s.complete || s.target_contract_version != approval.new_version {
                return Err(Rejection::Aborted(Abort::MigrationIncomplete));
            }
        }
        let seq = inv.ledger.sequence;
        if let Some(a) = self.upgrade_approval {
            if a.wasm_hash.same_key(&wasm_hash) {
                if seq < a.earliest_execution {
                    return Err(Rejection::Aborted(Abort::TimelockPending));
                }
                if seq >= a.expires_at {
                    return Err(Rejection::Aborted(Abort::ApprovalExpired));
                }
            }
        }
        if self.upgrade_history.len() >= 0xffff_ffffusize {
            return Err(Rejection::Aborted(Abort::CounterOverflow));
        }
        self.allowed_wasm.remove(&wasm_hash);
        self.upgrade_approval = None;
        self.mark_metadata(wasm_hash, ApprovalStatus::Executed, Some(seq));
        let old_wasm_hash = match self.current_wasm_hash {
            Some(h) => h,
            None => Hash32::zero(),
        };
        let now = inv.ledger.timestamp;
        self.contract_version = approval.new_version;
        self.current_wasm_hash = Some(wasm_hash);
        self.latest_upgrade_receipt = Some(
            UpgradeReceipt {
                wasm_hash,
                old_version,
                new_version: approval.new_version,
                upgraded_at: now,
                upgraded_by: admin,
            },
        );
        self.migration = None;
        self.instance_live_until = Some(inv.live_until());
        self.upgrade_history.push(
            UpgradeHistoryRecord {
                old_wasm_hash,
                new_wasm_hash: wasm_hash,
                old_version,
                new_version: approval.new_version,
                ledger_sequence: seq,
                ledger_timestamp: now,
                upgraded_by: admin,
            },
        );
        Ok(
            ContractUpgraded {
                new_wasm_hash: wasm_hash,
                target_contract: self.contract_address,
                contract_role: ContractRole::ProofRegistry,
                old_contract_version: old_version,
                new_contract_version: approval.new_version,
                upgraded_by: admin,
            },
        )
    }

    /// Admin only: drops the pending timelocked approval, whether or not one
    /// exists.
    pub fn revoke_upgrade_approval(&mut self, inv: &Invocation) -> (r: Result<(), Rejection<ContractError>>)
        requires
            old(self).wf(),
        ensures
            final(self).wf(),
            outcome_matches(spec_revoke_upgrade_approval(old(self)@, *inv), r, old(self)@, final(self)@),
    {
        self.governance_gate(inv)?;
        self.upgrade_approval = None;
        Ok(())
    }

    /// The receipt of the most recent upgrade.
    pub fn get_latest_upgrade_receipt(&self) -> (r: Option<UpgradeReceipt>)
        ensures
            r == self@.latest_upgrade_receipt,
    {
        self.latest_upgrade_receipt
    }

    /// How many upgrades have been applied.
    pub fn get_upgrade_history_count(&self) -> (r: u32)
        requires
            self.wf(),
        ensures
            r == self@.upgrade_history.len(),
    {
        self.upgrade_history.len() as u32
    }

    /// A page of the upgrade history.
    pub fn get_upgrade_history(&self, start: u32, limit: u32) -> (r: Vec<UpgradeHistoryRecord>)
        requires
            self.wf(),
        ensures
            r@ == spec_history_page(self@.upgrade_history, start, limit),
    {
        let total = self.upgrade_history.len();
        let mut result: Vec<UpgradeHistoryRecord> = Vec::new();
        if start as usize >= total {
            assert(result@ =~= spec_history_page(self@.upgrade_history, start, limit));
            return result;
        }
        let max: u32 = if limit > MAX_HISTORY_PAGE { MAX_HISTORY_PAGE } else { limit };
        let end: usize = if (max as usize) > total - (start as usize) {
            total
        } else {
            (start as usize) + (max as usize)
        };
        let mut i: usize = start as usize;
        while i < end
            invariant
                start <= i <= end,
                end <= total,
                total == self.upgrade_history@.len(),
                result@ =~= self.upgrade_history@.subrange(start as int, i as int),
            decreases end - i,
        {
            result.push(self.upgrade_history[i]);
            i = i + 1;
        }
        result
    }
}

} // verus!
