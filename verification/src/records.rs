//! The records the registries store, and their lifecycle states.

use vstd::prelude::*;
use crate::table::{Address, Hash32};

verus! {

/// Sentinel for ledger-sequence metadata of records that predate the field.
pub const LEDGER_SEQUENCE_UNSET: u32 = 0;

/// Sentinel for ledger-timestamp metadata of records that predate the field.
pub const LEDGER_TIMESTAMP_UNSET: u64 = 0;

/// Initial metadata revision assigned to an issuer at registration.
pub const METADATA_REVISION_INITIAL: u32 = 1;

/// Lifecycle state of an issuer. `Revoked` is terminal.
#[derive(Clone, Copy, Debug, PartialEq, Eq, Structural)]
pub enum IssuerStatus {
    Active,
    Suspended,
    Revoked,
}

/// Lifecycle state of a proof. `Revoked` is terminal.
#[derive(Clone, Copy, Debug, PartialEq, Eq, Structural)]
pub enum ProofStatus {
    Active,
    Revoked,
}

/// Structured proof validity outcome: every invalid state maps to exactly one
/// primary reason, in the precedence of the declaration order after `Valid`.
#[derive(Clone, Copy, Debug, PartialEq, Eq, Structural)]
pub enum ProofValidity {
    Valid,
    Unknown,
    Revoked,
    Expired,
    IssuerInactive,
    SchemaDeprecated,
}

/// An issuer as the issuer registry stores it.
#[derive(Clone, Copy, Debug, PartialEq, Eq)]
pub struct IssuerRecord {
    pub issuer_id_hash: Hash32,
    pub issuer_address: Address,
    /// Commitment over the canonical issuer metadata document.
    pub metadata_hash: Hash32,
    /// Commitment over the canonical metadata URI; all zero bytes when none
    /// has been recorded.
    pub metadata_uri_hash: Hash32,
    /// Starts at [`METADATA_REVISION_INITIAL`]; each accepted metadata update
    /// increments it by one.
    pub metadata_revision: u32,
    pub status: IssuerStatus,
    pub created_at: u64,
    pub updated_at: u64,
    /// Ledger sequence at which the current `status` became effective.
    pub status_effective_ledger: u32,
    /// Ledger timestamp at which the current `status` became effective.
    pub status_effective_timestamp: u64,
}

/// A proof as the proof registry stores it.
#[derive(Clone, Copy, Debug, PartialEq, Eq)]
pub struct ProofRecord {
    pub proof_id_hash: Hash32,
    pub commitment_hash: Hash32,
    pub issuer_address: Address,
    pub status: ProofStatus,
    pub schema_version: u32,
    pub expires_at: u64,
    pub created_at: u64,
    pub revoked_at: u64,
    /// Ledger sequence at which the proof was registered.
    pub created_ledger: u32,
}

/// What remains of a proof after it has been archived.
#[derive(Clone, Copy, Debug, PartialEq, Eq)]
pub struct ArchivedProofRecord {
    pub proof_id_hash: Hash32,
    pub commitment_hash: Hash32,
    pub issuer_address: Address,
    pub was_revoked: bool,
    pub schema_version: u32,
    pub expired_at: u64,
    pub archived_at: u64,
}

/// The documented precedence of proof validity: unknown, revoked, expired
/// (at or before now), issuer inactive, schema deprecated, else valid.
pub open spec fn spec_proof_validity(
    record: Option<ProofRecord>,
    now: u64,
    issuer_active: bool,
    schema_approved: bool,
) -> ProofValidity {
    match record {
        None => ProofValidity::Unknown,
        Some(r) => if r.status is Revoked {
            ProofValidity::Revoked
        } else if r.expires_at <= now {
            ProofValidity::Expired
        } else if !issuer_active {
            ProofValidity::IssuerInactive
        } else if !schema_approved {
            ProofValidity::SchemaDeprecated
        } else {
            ProofValidity::Valid
        },
    }
}

/// Classifies a proof by the first reason, in the documented order, that makes
/// it invalid.
pub fn proof_validity(
    record: Option<&ProofRecord>,
    now: u64,
    issuer_active: bool,
    schema_approved: bool,
) -> (r: ProofValidity)
    ensures
        r == spec_proof_validity(
            match record {
                Some(p) => Some(*p),
                None => None,
            },
            now,
            issuer_active,
            schema_approved,
        ),
{
    match record {
        None => ProofValidity::Unknown,
        Some(p) => {
            if p.status == ProofStatus::Revoked {
                ProofValidity::Revoked
            } else if p.expires_at <= now {
                ProofValidity::Expired
            } else if !issuer_active {
                ProofValidity::IssuerInactive
            } else if !schema_approved {
                ProofValidity::SchemaDeprecated
            } else {
                ProofValidity::Valid
            }
        },
    }
}

/// A proof is valid exactly when none of the invalidity reasons holds.
pub proof fn lemma_validity_is_valid_iff_no_reason(
    record: Option<ProofRecord>,
    now: u64,
    issuer_active: bool,
    schema_approved: bool,
)
    ensures
        (spec_proof_validity(record, now, issuer_active, schema_approved) == ProofValidity::Valid)
            <==> (record matches Some(r) && r.status is Active && now < r.expires_at
            && issuer_active && schema_approved),
{
}

} // verus!
