//! TTL health reporting shared by every registry.

use vstd::prelude::*;

verus! {

/// Remaining-ledger threshold below which an entry is reported as near expiry.
pub const TTL_THRESHOLD_LEDGERS: u32 = 50_000;

/// Target ledgers for extended TTL after triggering a preemptive extension.
pub const TTL_EXTEND_TO_LEDGERS: u32 = 500_000;

/// Health classification of a storage entry's time-to-live.
#[derive(Clone, Copy, Debug, PartialEq, Eq, Structural)]
pub enum TtlHealth {
    Missing,
    NearExpiry,
    Healthy,
}

/// The TTL report returned by the `*_ttl_status` queries.
#[derive(Clone, Copy, Debug, PartialEq, Eq, Structural)]
pub struct TtlStatus {
    pub health: TtlHealth,
    pub remaining_ledgers: u32,
    pub threshold_ledgers: u32,
}

/// Ledgers left before `live_until`, or 0 when the entry is absent or untracked.
pub open spec fn spec_remaining(current_ledger: u32, entry_exists: bool, live_until: Option<u32>) -> u32 {
    match live_until {
        Some(ledger) if entry_exists => if ledger >= current_ledger { (ledger - current_ledger) as u32 } else { 0 },
        _ => 0,
    }
}

/// The report for an entry: `Missing` when the entry or its tracker is absent
/// or has no ledgers left, `NearExpiry` at or below the threshold, else `Healthy`.
pub open spec fn spec_ttl_status(current_ledger: u32, entry_exists: bool, live_until: Option<u32>) -> TtlStatus {
    let remaining = spec_remaining(current_ledger, entry_exists, live_until);
    TtlStatus {
        health: if !entry_exists || live_until is None || remaining == 0 {
            TtlHealth::Missing
        } else if remaining <= TTL_THRESHOLD_LEDGERS {
            TtlHealth::NearExpiry
        } else {
            TtlHealth::Healthy
        },
        remaining_ledgers: remaining,
        threshold_ledgers: TTL_THRESHOLD_LEDGERS,
    }
}

/// Classifies an entry's TTL from the current ledger, whether the entry exists,
/// and the ledger its tracker says it lives until.
pub fn ttl_status(current_ledger: u32, entry_exists: bool, live_until: Option<u32>) -> (r: TtlStatus)
    ensures
        r == spec_ttl_status(current_ledger, entry_exists, live_until),
        r.health is Healthy ==> r.remaining_ledgers > TTL_THRESHOLD_LEDGERS,
        r.health is NearExpiry ==> 0 < r.remaining_ledgers <= TTL_THRESHOLD_LEDGERS,
{
    let remaining: u32 = match live_until {
        Some(ledger) => if entry_exists { ledger.saturating_sub(current_ledger) } else { 0 },
        None => 0,
    };
    let health = if !entry_exists || live_until.is_none() || remaining == 0 {
        TtlHealth::Missing
    } else if remaining <= TTL_THRESHOLD_LEDGERS {
        TtlHealth::NearExpiry
    } else {
        TtlHealth::Healthy
    };
    TtlStatus { health, remaining_ledgers: remaining, threshold_ledgers: TTL_THRESHOLD_LEDGERS }
}

/// The ledger a freshly extended entry is tracked as living until: the current
/// sequence plus the extension target, capped by the network's maximum TTL.
pub open spec fn spec_tracked_live_until(sequence: u32, max_ttl: u32) -> u32 {
    let ext = if TTL_EXTEND_TO_LEDGERS <= max_ttl { TTL_EXTEND_TO_LEDGERS } else { max_ttl };
    if sequence + ext > u32::MAX { u32::MAX } else { (sequence + ext) as u32 }
}

/// Computes [`spec_tracked_live_until`].
pub fn tracked_live_until(sequence: u32, max_ttl: u32) -> (r: u32)
    ensures
        r == spec_tracked_live_until(sequence, max_ttl),
{
    let ext = if TTL_EXTEND_TO_LEDGERS <= max_ttl { TTL_EXTEND_TO_LEDGERS } else { max_ttl };
    sequence.saturating_add(ext)
}

} // verus!
