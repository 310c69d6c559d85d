//! Laws of the proof registry: what every entry point keeps, and what one call
//! guarantees about the next.

use vstd::prelude::*;
use crate::context::Invocation;
use crate::errors::Rejection;
use crate::governance::PauseScope;
use crate::proof_registry::{
    spec_advance_migration, spec_approve_upgrade, spec_archive, spec_begin_migration,
    spec_dependency_verdict, spec_initialize, spec_new_proof_record, spec_next_registration_read,
    spec_refresh_instance_ttl, spec_register_proof, spec_revoke, spec_revoke_upgrade,
    spec_revoke_upgrade_approval, spec_set_pause, spec_touch_proof, spec_upgrade_contract,
    DependencyReply, ProofRegistryModel, RegistrationRead,
};
use crate::records::ProofRecord;
use crate::table::{Address, Hash32};

verus! {

/// An entry point of the proof registry that can change its storage, with its
/// arguments. Reads that extend TTLs are included.
pub enum ProofRegistryOp {
    Initialize(Address, Address, Address, Option<u32>, Option<u32>),
    SetPause(PauseScope, bool),
    RegisterProof(Hash32, Hash32, Address, u32, u64, DependencyReply, DependencyReply, DependencyReply),
    Revoke(Hash32, bool),
    Archive(Hash32),
    TouchProof(Hash32),
    BeginMigration(u32, u32),
    AdvanceMigration(u32, u32),
    RefreshInstanceTtl,
    ApproveUpgrade(Hash32, u32),
    RevokeUpgrade(Hash32),
    UpgradeContract(Hash32),
    RevokeUpgradeApproval,
}

/// The state an outcome leaves: the new one on success, the old on rejection.
pub open spec fn proof_post_of<T, E>(pre: ProofRegistryModel, r: Result<(ProofRegistryModel, T), Rejection<E>>) -> ProofRegistryModel {
    match r {
        Ok((m, _)) => m,
        Err(_) => pre,
    }
}

/// The storage after running `op` in `inv` on `m`.
pub open spec fn spec_proof_after(m: ProofRegistryModel, inv: Invocation, op: ProofRegistryOp) -> ProofRegistryModel {
    match op {
        ProofRegistryOp::Initialize(a, ir, pc, cv, iv) => proof_post_of(m, spec_initialize(m, inv, a, ir, pc, cv, iv)),
        ProofRegistryOp::SetPause(s, p) => proof_post_of(m, spec_set_pause(m, inv, s, p)),
        ProofRegistryOp::RegisterProof(id, c, a, sv, e, p, s, i) => proof_post_of(
            m,
            spec_register_proof(m, inv, id, c, a, sv, e, p, s, i),
        ),
        ProofRegistryOp::Revoke(id, by_admin) => proof_post_of(m, spec_revoke(m, inv, id, by_admin)),
        ProofRegistryOp::Archive(id) => proof_post_of(m, spec_archive(m, inv, id)),
        ProofRegistryOp::TouchProof(id) => spec_touch_proof(m, inv, id@),
        ProofRegistryOp::BeginMigration(t, n) => proof_post_of(m, spec_begin_migration(m, inv, t, n)),
        ProofRegistryOp::AdvanceMigration(c, n) => proof_post_of(m, spec_advance_migration(m, inv, c, n)),
        ProofRegistryOp::RefreshInstanceTtl => proof_post_of(m, spec_refresh_instance_ttl(m, inv)),
        ProofRegistryOp::ApproveUpgrade(h, v) => proof_post_of(m, spec_approve_upgrade(m, inv, h, v)),
        ProofRegistryOp::RevokeUpgrade(h) => proof_post_of(m, spec_revoke_upgrade(m, inv, h)),
        ProofRegistryOp::UpgradeContract(h) => proof_post_of(m, spec_upgrade_contract(m, inv, h)),
        ProofRegistryOp::RevokeUpgradeApproval => proof_post_of(m, spec_revoke_upgrade_approval(m, inv)),
    }
}

/// A proof's content is immutable: while its record exists, no entry point
/// changes its identifier, commitment, issuer, schema version, expiry or
/// creation time; a record leaves only into the archive, which keeps the same
/// commitment.
pub proof fn lemma_proof_content_is_immutable(
    m: ProofRegistryModel,
    inv: Invocation,
    op: ProofRegistryOp,
    id: Seq<u8>,
)
    requires
        m.proofs.contains_key(id),
        !m.archived.contains_key(id),
    ensures
        ({
            let post = spec_proof_after(m, inv, op);
            let r = m.proofs[id];
            if post.proofs.contains_key(id) {
                let q = post.proofs[id];
                &&& q.proof_id_hash == r.proof_id_hash
                &&& q.commitment_hash == r.commitment_hash
                &&& q.issuer_address == r.issuer_address
                &&& q.schema_version == r.schema_version
                &&& q.expires_at == r.expires_at
                &&& q.created_at == r.created_at
                &&& q.created_ledger == r.created_ledger
            } else {
                &&& post.archived.contains_key(id)
                &&& post.archived[id].commitment_hash == r.commitment_hash
                &&& post.archived[id].issuer_address == r.issuer_address
                &&& post.archived[id].was_revoked == (r.status is Revoked)
            }
        }),
{
}

/// Revocation is terminal: a revoked proof stays revoked, and when it is
/// archived the archive records that it was revoked.
pub proof fn lemma_proof_revocation_is_terminal(
    m: ProofRegistryModel,
    inv: Invocation,
    op: ProofRegistryOp,
    id: Seq<u8>,
)
    requires
        m.proofs.contains_key(id),
        m.proofs[id].status is Revoked,
        !m.archived.contains_key(id),
    ensures
        ({
            let post = spec_proof_after(m, inv, op);
            ||| post.proofs.contains_key(id) && post.proofs[id].status is Revoked
            ||| post.archived.contains_key(id) && post.archived[id].was_revoked
        }),
{
}

/// The archive is permanent: no entry point removes or alters an archived
/// record.
pub proof fn lemma_archive_is_permanent(m: ProofRegistryModel, inv: Invocation, op: ProofRegistryOp, id: Seq<u8>)
    requires
        m.archived.contains_key(id),
    ensures
        spec_proof_after(m, inv, op).archived.contains_key(id),
        spec_proof_after(m, inv, op).archived[id] == m.archived[id],
{
}

/// The contract version never decreases once initialized, and the upgrade
/// history only grows, by one entry per applied upgrade.
pub proof fn lemma_versions_and_history_only_advance(m: ProofRegistryModel, inv: Invocation, op: ProofRegistryOp)
    ensures
        m.admin is Some ==> m.contract_version <= spec_proof_after(m, inv, op).contract_version,
        m.upgrade_history.is_prefix_of(spec_proof_after(m, inv, op).upgrade_history),
        spec_proof_after(m, inv, op).upgrade_history.len() <= m.upgrade_history.len() + 1,
        spec_proof_after(m, inv, op).upgrade_history.len() == m.upgrade_history.len() + 1 ==> op is UpgradeContract,
{
    let post = spec_proof_after(m, inv, op);
    assert(m.upgrade_history =~= post.upgrade_history.subrange(0, m.upgrade_history.len() as int)) by {
        if post.upgrade_history.len() > m.upgrade_history.len() {
            assert(op is UpgradeContract);
        }
    }
}

/// What a registration writes is what a read returns, and the proof is valid
/// until its expiry.
pub proof fn lemma_register_then_read(
    m: ProofRegistryModel,
    inv: Invocation,
    id: Hash32,
    c: Hash32,
    a: Address,
    sv: u32,
    e: u64,
    p: DependencyReply,
    s: DependencyReply,
    i: DependencyReply,
)
    requires
        spec_register_proof(m, inv, id, c, a, sv, e, p, s, i) is Ok,
    ensures
        ({
            let post = proof_post_of(m, spec_register_proof(m, inv, id, c, a, sv, e, p, s, i));
            &&& post.proofs.contains_key(id@)
            &&& post.proofs[id@] == spec_new_proof_record(inv, id, c, a, sv, e)
            &&& post.proofs[id@].status is Active
            &&& inv.ledger.timestamp < post.proofs[id@].expires_at
            &&& spec_register_proof(post, inv, id, c, a, sv, e, p, s, i) == Err::<
                (ProofRegistryModel, ()),
                Rejection<crate::errors::ProofError>,
            >(Rejection::Typed(crate::errors::ProofError::ProofAlreadyRegistered))
        }),
{
}

/// A registration succeeds only when every dependency answered in its favour:
/// the protocol was not paused, the schema was approved and the issuer was
/// active.
pub proof fn lemma_registration_requires_every_dependency(
    m: ProofRegistryModel,
    inv: Invocation,
    id: Hash32,
    c: Hash32,
    a: Address,
    sv: u32,
    e: u64,
    p: DependencyReply,
    s: DependencyReply,
    i: DependencyReply,
)
    requires
        spec_register_proof(m, inv, id, c, a, sv, e, p, s, i) is Ok,
    ensures
        p == DependencyReply::Answered(false),
        s == DependencyReply::Answered(true),
        i == DependencyReply::Answered(true),
        sv != 0,
        inv.ledger.timestamp < e,
        !m.pauses.registration,
{
}

/// The read plan and the verdict agree: the reads `next_registration_read`
/// asks for are exactly the ones the verdict consults, so replies it never
/// asked for cannot change the outcome; the schema read is made for the
/// registration's schema version and the issuer read for its issuer.
pub proof fn lemma_read_plan_decides_the_verdict(
    p: DependencyReply,
    s: DependencyReply,
    i: DependencyReply,
    s2: DependencyReply,
    i2: DependencyReply,
    sv: u32,
    a: Address,
)
    ensures
        spec_next_registration_read(Seq::empty(), sv, a) == Some(RegistrationRead::ProtocolPaused),
        spec_next_registration_read(seq![p], sv, a) is None ==> spec_dependency_verdict(p, s, i)
            == spec_dependency_verdict(p, s2, i2),
        spec_next_registration_read(seq![p], sv, a) is Some ==> p == DependencyReply::Answered(false)
            && spec_next_registration_read(seq![p], sv, a) == Some(RegistrationRead::SchemaApproved(sv)),
        spec_next_registration_read(seq![p, s], sv, a) is None && spec_next_registration_read(seq![p], sv, a) is Some
            ==> spec_dependency_verdict(p, s, i) == spec_dependency_verdict(p, s, i2),
        spec_next_registration_read(seq![p, s], sv, a) is Some ==> p == DependencyReply::Answered(false)
            && s == DependencyReply::Answered(true)
            && spec_next_registration_read(seq![p, s], sv, a) == Some(RegistrationRead::IssuerActive(a)),
        spec_next_registration_read(seq![p, s, i], sv, a) is None,
        (spec_dependency_verdict(p, s, i) is None) <==> (p == DependencyReply::Answered(false) && s
            == DependencyReply::Answered(true) && i == DependencyReply::Answered(true)),
{
}

/// A failed dependency read always aborts the registration, never turns into
/// one of the registry's typed errors, and never writes.
pub proof fn lemma_failed_read_aborts(
    m: ProofRegistryModel,
    inv: Invocation,
    id: Hash32,
    c: Hash32,
    a: Address,
    sv: u32,
    e: u64,
    s: DependencyReply,
    i: DependencyReply,
)
    requires
        crate::proof_registry::spec_registration_precheck(m, inv, a, sv, e) is None,
    ensures
        spec_register_proof(m, inv, id, c, a, sv, e, DependencyReply::Failed, s, i) == Err::<
            (ProofRegistryModel, ()),
            Rejection<crate::errors::ProofError>,
        >(Rejection::Aborted(crate::errors::Abort::DependencyFailure)),
{
}

/// The timelock is enforced: an upgrade whose pending approval names it is
/// applied only inside the approval's execution window.
pub proof fn lemma_upgrade_respects_the_timelock(m: ProofRegistryModel, inv: Invocation, h: Hash32)
    requires
        spec_upgrade_contract(m, inv, h) is Ok,
        m.upgrade_approval matches Some(a) && a.wasm_hash@ == h@,
    ensures
        m.upgrade_approval.unwrap().earliest_execution <= inv.ledger.sequence < m.upgrade_approval.unwrap().expires_at,
{
}

/// An applied upgrade consumes its approval: the same WASM hash cannot be
/// applied again, the version becomes the approved one, and the receipt and
/// the newest history entry describe that upgrade.
pub proof fn lemma_upgrade_consumes_approval(m: ProofRegistryModel, inv: Invocation, inv2: Invocation, h: Hash32)
    requires
        spec_upgrade_contract(m, inv, h) is Ok,
    ensures
        ({
            let post = proof_post_of(m, spec_upgrade_contract(m, inv, h));
            &&& post.contract_version == m.allowed_wasm[h@].new_version
            &&& m.contract_version < post.contract_version
            &&& spec_upgrade_contract(post, inv2, h) is Err
            &&& post.upgrade_approval is None
            &&& post.latest_upgrade_receipt matches Some(rc) && rc.new_version == post.contract_version
                && rc.old_version == m.contract_version
            &&& post.upgrade_history.last().new_version == post.contract_version
            &&& post.current_wasm_hash == Some(h)
        }),
{
}

/// Approving an upgrade opens a window that is never empty: the earliest
/// execution ledger is at or before the expiry ledger.
pub proof fn lemma_approval_window_is_well_formed(m: ProofRegistryModel, inv: Invocation, h: Hash32, v: u32)
    requires
        m.timing.wf(),
        spec_approve_upgrade(m, inv, h, v) is Ok,
    ensures
        ({
            let post = proof_post_of(m, spec_approve_upgrade(m, inv, h, v));
            &&& post.upgrade_approval matches Some(a) && a.created_at == inv.ledger.sequence
                && a.created_at <= a.earliest_execution <= a.expires_at && a.wasm_hash == h
            &&& crate::proof_registry::spec_is_upgrade_allowed(post, h@)
        }),
{
}

/// An applied upgrade appends exactly one history entry and keeps the earlier
/// ones. The new entry's old hash is the WASM hash that was installed before
/// the upgrade (all zero bytes only when none was recorded) and its new hash
/// is the one applied, which becomes the installed hash.
pub proof fn lemma_upgrade_history_records_both_hashes(m: ProofRegistryModel, inv: Invocation, h: Hash32)
    requires
        spec_upgrade_contract(m, inv, h) is Ok,
    ensures
        ({
            let post = proof_post_of(m, spec_upgrade_contract(m, inv, h));
            let entry = post.upgrade_history.last();
            &&& post.upgrade_history.len() == m.upgrade_history.len() + 1
            &&& post.upgrade_history.subrange(0, m.upgrade_history.len() as int) == m.upgrade_history
            &&& entry.new_wasm_hash == h
            &&& (m.current_wasm_hash matches Some(prev) ==> entry.old_wasm_hash == prev)
            &&& (m.current_wasm_hash is None ==> entry.old_wasm_hash@ == crate::table::spec_zero_digest())
            &&& post.current_wasm_hash == Some(h)
            &&& entry.old_version == m.contract_version
            &&& entry.new_version == post.contract_version
            &&& entry.ledger_sequence == inv.ledger.sequence
            &&& entry.ledger_timestamp == inv.ledger.timestamp
            &&& m.admin matches Some(admin) && entry.upgraded_by == admin
            &&& post.latest_upgrade_receipt matches Some(rc) && rc.wasm_hash == h
                && rc.old_version == m.contract_version && rc.new_version == post.contract_version
                && rc.upgraded_at == inv.ledger.timestamp && rc.upgraded_by == m.admin.unwrap()
        }),
{
    let post = proof_post_of(m, spec_upgrade_contract(m, inv, h));
    assert(post.upgrade_history.subrange(0, m.upgrade_history.len() as int) =~= m.upgrade_history);
}

/// Two upgrades in a row form a chain: the second history entry starts from
/// the hash the first one applied.
pub proof fn lemma_consecutive_upgrades_chain(
    m: ProofRegistryModel,
    inv1: Invocation,
    h1: Hash32,
    inv2: Invocation,
    h2: Hash32,
)
    requires
        spec_upgrade_contract(m, inv1, h1) is Ok,
        spec_upgrade_contract(proof_post_of(m, spec_upgrade_contract(m, inv1, h1)), inv2, h2) is Ok,
    ensures
        ({
            let mid = proof_post_of(m, spec_upgrade_contract(m, inv1, h1));
            let post = proof_post_of(mid, spec_upgrade_contract(mid, inv2, h2));
            let n = post.upgrade_history.len();
            &&& n == m.upgrade_history.len() + 2
            &&& post.upgrade_history[n - 2].new_wasm_hash == h1
            &&& post.upgrade_history[n - 1].old_wasm_hash == h1
            &&& post.upgrade_history[n - 1].new_wasm_hash == h2
        }),
{
    let mid = proof_post_of(m, spec_upgrade_contract(m, inv1, h1));
    lemma_upgrade_history_records_both_hashes(m, inv1, h1);
    lemma_upgrade_history_records_both_hashes(mid, inv2, h2);
    let post = proof_post_of(mid, spec_upgrade_contract(mid, inv2, h2));
    assert(post.upgrade_history[post.upgrade_history.len() - 2] == post.upgrade_history.subrange(
        0,
        mid.upgrade_history.len() as int,
    )[mid.upgrade_history.len() - 1]);
}

/// A revocation, by the proof's issuer or by the admin, marks the proof
/// revoked at the invocation's ledger time and changes nothing else in its
/// record; every other proof and every archived record are left as they were.
pub proof fn lemma_revocation_stamps_the_ledger_time(m: ProofRegistryModel, inv: Invocation, id: Hash32, by_admin: bool)
    requires
        spec_revoke(m, inv, id, by_admin) is Ok,
    ensures
        ({
            let post = proof_post_of(m, spec_revoke(m, inv, id, by_admin));
            let before = m.proofs[id@];
            let after = post.proofs[id@];
            &&& post.proofs.contains_key(id@)
            &&& before.status is Active
            &&& after.status is Revoked
            &&& after.revoked_at == inv.ledger.timestamp
            &&& after.proof_id_hash == before.proof_id_hash
            &&& after.commitment_hash == before.commitment_hash
            &&& after.issuer_address == before.issuer_address
            &&& after.schema_version == before.schema_version
            &&& after.expires_at == before.expires_at
            &&& after.created_at == before.created_at
            &&& after.created_ledger == before.created_ledger
            &&& post.proofs.dom() == m.proofs.dom()
            &&& forall|k: Seq<u8>| k != id@ && #[trigger] m.proofs.contains_key(k) ==> post.proofs[k] == m.proofs[k]
            &&& post.archived == m.archived
        }),
{
    let post = proof_post_of(m, spec_revoke(m, inv, id, by_admin));
    assert(post.proofs.dom() =~= m.proofs.dom());
}

/// Archiving a live proof moves it out of the live records and keeps what it
/// was: its expiry time, schema version, commitment, issuer and whether it
/// had been revoked. The archive time is the invocation's ledger time, and
/// only an expired or revoked proof is archived.
pub proof fn lemma_archive_keeps_the_proof_facts(m: ProofRegistryModel, inv: Invocation, id: Hash32)
    requires
        spec_archive(m, inv, id) is Ok,
        !m.archived.contains_key(id@),
    ensures
        ({
            let post = proof_post_of(m, spec_archive(m, inv, id));
            let rec = m.proofs[id@];
            let arch = post.archived[id@];
            &&& m.proofs.contains_key(id@)
            &&& !post.proofs.contains_key(id@)
            &&& post.archived.contains_key(id@)
            &&& arch.proof_id_hash == id
            &&& arch.expired_at == rec.expires_at
            &&& arch.schema_version == rec.schema_version
            &&& arch.commitment_hash == rec.commitment_hash
            &&& arch.issuer_address == rec.issuer_address
            &&& arch.was_revoked == (rec.status is Revoked)
            &&& arch.archived_at == inv.ledger.timestamp
            &&& (arch.was_revoked || arch.expired_at < arch.archived_at)
            &&& spec_archive(m, inv, id) matches Ok((_, Some(ev))) && ev.proof_id_hash == id
                && ev.archived_at == inv.ledger.timestamp
            &&& forall|k: Seq<u8>| k != id@ && #[trigger] m.proofs.contains_key(k) ==> post.proofs.contains_key(k)
                && post.proofs[k] == m.proofs[k]
        }),
{
}

/// A registered proof that is later archived keeps the expiry time and
/// schema version it was registered with, whenever it is archived.
pub proof fn lemma_register_then_archive(
    m: ProofRegistryModel,
    inv: Invocation,
    id: Hash32,
    c: Hash32,
    a: Address,
    sv: u32,
    e: u64,
    p: DependencyReply,
    s: DependencyReply,
    i: DependencyReply,
    inv2: Invocation,
)
    requires
        spec_register_proof(m, inv, id, c, a, sv, e, p, s, i) is Ok,
        spec_archive(proof_post_of(m, spec_register_proof(m, inv, id, c, a, sv, e, p, s, i)), inv2, id) is Ok,
        !m.archived.contains_key(id@),
    ensures
        ({
            let mid = proof_post_of(m, spec_register_proof(m, inv, id, c, a, sv, e, p, s, i));
            let post = proof_post_of(mid, spec_archive(mid, inv2, id));
            &&& post.archived.contains_key(id@)
            &&& post.archived[id@].expired_at == e
            &&& post.archived[id@].schema_version == sv
            &&& post.archived[id@].commitment_hash == c
            &&& post.archived[id@].archived_at == inv2.ledger.timestamp
        }),
{
    let mid = proof_post_of(m, spec_register_proof(m, inv, id, c, a, sv, e, p, s, i));
    lemma_register_then_read(m, inv, id, c, a, sv, e, p, s, i);
    lemma_archive_keeps_the_proof_facts(mid, inv2, id);
}

/// A registration stores exactly what was asked for: the id, commitment,
/// issuer, schema version and expiry given, the active status, never revoked
/// (a zero revocation time), and the invocation's ledger time and sequence
/// as its creation stamps. Every other proof is untouched.
pub proof fn lemma_registration_records_the_request(
    m: ProofRegistryModel,
    inv: Invocation,
    id: Hash32,
    c: Hash32,
    a: Address,
    sv: u32,
    e: u64,
    p: DependencyReply,
    s: DependencyReply,
    i: DependencyReply,
)
    requires
        spec_register_proof(m, inv, id, c, a, sv, e, p, s, i) is Ok,
    ensures
        ({
            let post = proof_post_of(m, spec_register_proof(m, inv, id, c, a, sv, e, p, s, i));
            let rec = post.proofs[id@];
            &&& !m.proofs.contains_key(id@)
            &&& post.proofs.contains_key(id@)
            &&& rec.proof_id_hash == id
            &&& rec.commitment_hash == c
            &&& rec.issuer_address == a
            &&& rec.schema_version == sv
            &&& rec.expires_at == e
            &&& rec.status is Active
            &&& rec.revoked_at == 0
            &&& rec.created_at == inv.ledger.timestamp
            &&& rec.created_ledger == inv.ledger.sequence
            &&& forall|k: Seq<u8>| k != id@ && #[trigger] m.proofs.contains_key(k) ==> post.proofs[k] == m.proofs[k]
            &&& post.archived == m.archived
        }),
{
}

} // verus!
