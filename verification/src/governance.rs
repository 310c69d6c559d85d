//! Records of the timelocked upgrade governance and the scoped pauses.

use vstd::prelude::*;
use crate::table::{Address, Hash32};

verus! {

/// An operation family that can be paused on its own.
#[derive(Clone, Copy, Debug, PartialEq, Eq, Structural)]
pub enum PauseScope {
    Global,
    Registration,
    Revocation,
    Upgrade,
}

/// The role a contract plays in the protocol.
#[derive(Clone, Copy, Debug, PartialEq, Eq, Structural)]
pub enum ContractRole {
    ProtocolConfig,
    IssuerRegistry,
    ProofRegistry,
}

/// An allowlist entry: which version the WASM installs, on which contract,
/// in which role.
#[derive(Clone, Copy, Debug, PartialEq, Eq)]
pub struct UpgradeApprovalRecord {
    pub new_version: u32,
    pub target_contract: Address,
    pub contract_role: ContractRole,
}

/// The pending timelocked approval: executable from `earliest_execution`
/// (inclusive) until `expires_at` (exclusive).
#[derive(Clone, Copy, Debug, PartialEq, Eq)]
pub struct UpgradeApproval {
    pub wasm_hash: Hash32,
    pub created_at: u32,
    pub earliest_execution: u32,
    pub expires_at: u32,
    pub approved_by: Address,
}

/// Lifecycle of an approval's audit record.
#[derive(Clone, Copy, Debug, PartialEq, Eq, Structural)]
pub enum ApprovalStatus {
    Active,
    Revoked,
    Executed,
    Expired,
}

/// The audit record kept for every approval.
#[derive(Clone, Copy, Debug, PartialEq, Eq)]
pub struct UpgradeApprovalMetadata {
    pub target_hash: Hash32,
    pub target_version: u32,
    pub approver: Address,
    pub creation_ledger: u32,
    pub execution_ledger: Option<u32>,
    pub expiry_ledger: u32,
    pub status: ApprovalStatus,
}

/// The answer to an approval-metadata query.
#[derive(Clone, Copy, Debug, PartialEq, Eq)]
pub enum ApprovalQuery {
    NotFound,
    Found(UpgradeApprovalMetadata),
    Revoked(UpgradeApprovalMetadata),
}

/// The receipt of the most recent applied upgrade.
#[derive(Clone, Copy, Debug, PartialEq, Eq)]
pub struct UpgradeReceipt {
    pub wasm_hash: Hash32,
    pub old_version: u32,
    pub new_version: u32,
    pub upgraded_at: u64,
    pub upgraded_by: Address,
}

/// One entry of the append-only upgrade history.
#[derive(Clone, Copy, Debug, PartialEq, Eq)]
pub struct UpgradeHistoryRecord {
    pub old_wasm_hash: Hash32,
    pub new_wasm_hash: Hash32,
    pub old_version: u32,
    pub new_version: u32,
    pub ledger_sequence: u32,
    pub ledger_timestamp: u64,
    pub upgraded_by: Address,
}

/// How long an approval waits before it may be executed, and how long after
/// its creation it stays executable, both in ledgers.
#[derive(Clone, Copy, Debug, PartialEq, Eq, Structural)]
pub struct UpgradeTiming {
    pub timelock_ledgers: u32,
    pub expiry_ledgers: u32,
}

impl UpgradeTiming {
    /// A timing whose execution window is not empty: the timelock does not
    /// outlast the expiry.
    pub open spec fn wf(&self) -> bool {
        self.timelock_ledgers <= self.expiry_ledgers
    }

    /// The timing with the given windows, when the timelock does not outlast
    /// the expiry.
    pub fn new(timelock_ledgers: u32, expiry_ledgers: u32) -> (r: Option<UpgradeTiming>)
        ensures
            match r {
                Some(t) => t.wf() && t.timelock_ledgers == timelock_ledgers && t.expiry_ledgers
                    == expiry_ledgers,
                None => timelock_ledgers > expiry_ledgers,
            },
    {
        if timelock_ledgers <= expiry_ledgers {
            Some(UpgradeTiming { timelock_ledgers, expiry_ledgers })
        } else {
            None
        }
    }
}

/// Which scopes are paused. `Global` is recorded but never reported paused.
#[derive(Clone, Copy, Debug, PartialEq, Eq, Structural)]
pub struct ScopedPauses {
    pub global: bool,
    pub registration: bool,
    pub revocation: bool,
    pub upgrade: bool,
}

/// Whether `scope` is paused: `Global` never is; the others follow their flag.
pub open spec fn spec_scope_paused(p: ScopedPauses, scope: PauseScope) -> bool {
    match scope {
        PauseScope::Global => false,
        PauseScope::Registration => p.registration,
        PauseScope::Revocation => p.revocation,
        PauseScope::Upgrade => p.upgrade,
    }
}

/// The flags with the one for `scope` set to `paused`.
pub open spec fn spec_with_pause(p: ScopedPauses, scope: PauseScope, paused: bool) -> ScopedPauses {
    match scope {
        PauseScope::Global => ScopedPauses { global: paused, ..p },
        PauseScope::Registration => ScopedPauses { registration: paused, ..p },
        PauseScope::Revocation => ScopedPauses { revocation: paused, ..p },
        PauseScope::Upgrade => ScopedPauses { upgrade: paused, ..p },
    }
}

impl ScopedPauses {
    /// No scope paused.
    pub fn none() -> (r: ScopedPauses)
        ensures
            !r.global && !r.registration && !r.revocation && !r.upgrade,
    {
        ScopedPauses { global: false, registration: false, revocation: false, upgrade: false }
    }

    /// Whether `scope` is paused.
    pub fn is_paused(&self, scope: PauseScope) -> (r: bool)
        ensures
            r == spec_scope_paused(*self, scope),
    {
        match scope {
            PauseScope::Global => false,
            PauseScope::Registration => self.registration,
            PauseScope::Revocation => self.revocation,
            PauseScope::Upgrade => self.upgrade,
        }
    }

    /// Sets the flag of `scope`.
    pub fn set(&mut self, scope: PauseScope, paused: bool)
        ensures
            *final(self) == spec_with_pause(*old(self), scope, paused),
    {
        match scope {
            PauseScope::Global => self.global = paused,
            PauseScope::Registration => self.registration = paused,
            PauseScope::Revocation => self.revocation = paused,
            PauseScope::Upgrade => self.upgrade = paused,
        }
    }
}

/// What an approval-metadata query reports at ledger `sequence`: a revoked
/// record as revoked, an active record past its expiry ledger as expired.
pub open spec fn spec_approval_query(m: Option<UpgradeApprovalMetadata>, sequence: u32) -> ApprovalQuery {
    match m {
        None => ApprovalQuery::NotFound,
        Some(md) => if md.status is Revoked {
            ApprovalQuery::Revoked(md)
        } else if sequence > md.expiry_ledger && md.status is Active {
            ApprovalQuery::Found(UpgradeApprovalMetadata { status: ApprovalStatus::Expired, ..md })
        } else {
            ApprovalQuery::Found(md)
        },
    }
}

/// Classifies an approval's audit record at ledger `sequence`.
pub fn approval_query(m: Option<UpgradeApprovalMetadata>, sequence: u32) -> (r: ApprovalQuery)
    ensures
        r == spec_approval_query(m, sequence),
{
    match m {
        None => ApprovalQuery::NotFound,
        Some(md) => {
            if md.status == ApprovalStatus::Revoked {
                ApprovalQuery::Revoked(md)
            } else if sequence > md.expiry_ledger && md.status == ApprovalStatus::Active {
                ApprovalQuery::Found(UpgradeApprovalMetadata { status: ApprovalStatus::Expired, ..md })
            } else {
                ApprovalQuery::Found(md)
            }
        },
    }
}

} // verus!
