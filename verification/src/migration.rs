//! The resumable storage-migration checkpoint shared by every upgrade path.

use vstd::prelude::*;
use crate::errors::ContractError;

verus! {

/// Storage layout version for the migration checkpoint record.
pub const MIGRATION_STATUS_VERSION: u32 = 1;

/// Maximum number of records a single migration invocation may commit.
pub const MAX_MIGRATION_BATCH: u32 = 100;

/// Resumable progress marker shared by every contract upgrade path.
#[derive(Clone, Copy, Debug, PartialEq, Eq, Structural)]
pub struct MigrationStatus {
    pub status_version: u32,
    pub target_contract_version: u32,
    pub cursor: u32,
    pub total_items: u32,
    pub complete: bool,
}

/// A checkpoint the migration entry points can produce: a positive total, a
/// cursor within it, and `complete` exactly when the cursor reached the total.
pub open spec fn migration_wf(s: MigrationStatus) -> bool {
    &&& s.status_version == MIGRATION_STATUS_VERSION
    &&& s.total_items > 0
    &&& s.cursor <= s.total_items
    &&& s.complete == (s.cursor == s.total_items)
}

/// What `begin_migration` decides: the checkpoint to report and whether it is
/// newly written, or the error.
pub open spec fn spec_begin(
    current: Option<MigrationStatus>,
    contract_version: u32,
    target_contract_version: u32,
    total_items: u32,
) -> Result<(MigrationStatus, bool), ContractError> {
    if target_contract_version <= contract_version || total_items == 0 {
        Err(ContractError::InvalidInput)
    } else {
        match current {
            Some(s) => if s.target_contract_version == target_contract_version && s.total_items
                == total_items {
                Ok((s, false))
            } else {
                Err(ContractError::InvalidState)
            },
            None => Ok(
                (
                    MigrationStatus {
                        status_version: MIGRATION_STATUS_VERSION,
                        target_contract_version,
                        cursor: 0,
                        total_items,
                        complete: false,
                    },
                    true,
                ),
            ),
        }
    }
}

/// `a + b`, or `u32::MAX` when the sum does not fit.
pub open spec fn spec_saturating_add(a: u32, b: u32) -> u32 {
    if a + b > u32::MAX { u32::MAX } else { (a + b) as u32 }
}

/// What `advance_migration` decides: the checkpoint to report and whether it
/// changed, or the error. A replay of a batch already committed reports the
/// checkpoint unchanged.
pub open spec fn spec_advance(
    current: Option<MigrationStatus>,
    expected_cursor: u32,
    processed_items: u32,
) -> Result<(MigrationStatus, bool), ContractError> {
    if processed_items == 0 || processed_items > MAX_MIGRATION_BATCH {
        Err(ContractError::InvalidInput)
    } else {
        match current {
            None => Err(ContractError::InvalidState),
            Some(s) => if expected_cursor < s.cursor {
                if spec_saturating_add(expected_cursor, processed_items) <= s.cursor {
                    Ok((s, false))
                } else {
                    Err(ContractError::InvalidState)
                }
            } else if expected_cursor != s.cursor || s.complete {
                Err(ContractError::InvalidState)
            } else if s.cursor + processed_items > u32::MAX {
                Err(ContractError::InvalidInput)
            } else if s.cursor + processed_items > s.total_items {
                Err(ContractError::InvalidInput)
            } else {
                let next = (s.cursor + processed_items) as u32;
                Ok((MigrationStatus { cursor: next, complete: next == s.total_items, ..s }, true))
            },
        }
    }
}

/// Starts a migration towards `target_contract_version` over `total_items`
/// records, or reports the matching one already under way.
pub fn begin_migration_step(
    current: Option<MigrationStatus>,
    contract_version: u32,
    target_contract_version: u32,
    total_items: u32,
) -> (r: Result<(MigrationStatus, bool), ContractError>)
    ensures
        r == spec_begin(current, contract_version, target_contract_version, total_items),
{
    if target_contract_version <= contract_version || total_items == 0 {
        return Err(ContractError::InvalidInput);
    }
    match current {
        Some(s) => {
            if s.target_contract_version == target_contract_version && s.total_items
                == total_items {
                Ok((s, false))
            } else {
                Err(ContractError::InvalidState)
            }
        },
        None => Ok(
            (
                MigrationStatus {
                    status_version: MIGRATION_STATUS_VERSION,
                    target_contract_version,
                    cursor: 0,
                    total_items,
                    complete: false,
                },
                true,
            ),
        ),
    }
}

/// Commits a batch of `processed_items` records starting at `expected_cursor`.
pub fn advance_migration_step(
    current: Option<MigrationStatus>,
    expected_cursor: u32,
    processed_items: u32,
) -> (r: Result<(MigrationStatus, bool), ContractError>)
    ensures
        r == spec_advance(current, expected_cursor, processed_items),
{
    if processed_items == 0 || processed_items > MAX_MIGRATION_BATCH {
        return Err(ContractError::InvalidInput);
    }
    let mut status = match current {
        Some(s) => s,
        None => return Err(ContractError::InvalidState),
    };
    if expected_cursor < status.cursor {
        return if expected_cursor.saturating_add(processed_items) <= status.cursor {
            Ok((status, false))
        } else {
            Err(ContractError::InvalidState)
        };
    }
    if expected_cursor != status.cursor || status.complete {
        return Err(ContractError::InvalidState);
    }
    let next = match status.cursor.checked_add(processed_items) {
        Some(n) => n,
        None => return Err(ContractError::InvalidInput),
    };
    if next > status.total_items {
        return Err(ContractError::InvalidInput);
    }
    status.cursor = next;
    status.complete = next == status.total_items;
    Ok((status, true))
}

/// Every checkpoint that `begin_migration` reports and every checkpoint that
/// `advance_migration` reports from a well-formed one is well-formed: the
/// cursor never passes the total, and the migration is complete exactly when
/// the cursor reaches it.
pub proof fn lemma_migration_checkpoints_stay_well_formed(
    current: Option<MigrationStatus>,
    contract_version: u32,
    target: u32,
    total: u32,
    expected_cursor: u32,
    processed: u32,
)
    requires
        current matches Some(s) ==> migration_wf(s),
    ensures
        spec_begin(current, contract_version, target, total) matches Ok((s, _)) ==> migration_wf(s),
        spec_advance(current, expected_cursor, processed) matches Ok((s, _)) ==> migration_wf(s),
{
}

/// The cursor never moves backwards, the target and total never change, and a
/// completed migration is never advanced.
pub proof fn lemma_migration_cursor_is_monotone(
    s: MigrationStatus,
    expected_cursor: u32,
    processed: u32,
)
    ensures
        spec_advance(Some(s), expected_cursor, processed) matches Ok((t, _)) ==> {
            &&& s.cursor <= t.cursor
            &&& t.target_contract_version == s.target_contract_version
            &&& t.total_items == s.total_items
            &&& (s.complete ==> t == s)
        },
{
}

/// Replaying a committed batch is harmless: advancing again with the same
/// cursor and batch size reports the new checkpoint unchanged.
pub proof fn lemma_migration_replay_is_idempotent(
    s: MigrationStatus,
    expected_cursor: u32,
    processed: u32,
)
    requires
        spec_advance(Some(s), expected_cursor, processed) matches Ok((_, true)),
    ensures
        spec_advance(Some(s), expected_cursor, processed) matches Ok((t, _)) && spec_advance(
            Some(t),
            expected_cursor,
            processed,
        ) == Ok::<(MigrationStatus, bool), ContractError>((t, false)),
{
}

/// Beginning the same migration again reports the checkpoint unchanged.
pub proof fn lemma_begin_migration_is_idempotent(
    current: Option<MigrationStatus>,
    contract_version: u32,
    target: u32,
    total: u32,
)
    requires
        spec_begin(current, contract_version, target, total) is Ok,
    ensures
        spec_begin(current, contract_version, target, total) matches Ok((s, _)) && spec_begin(
            Some(s),
            contract_version,
            target,
            total,
        ) == Ok::<(MigrationStatus, bool), ContractError>((s, false)),
{
}

} // verus!
