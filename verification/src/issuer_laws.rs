//! Laws of the issuer registry: what every entry point keeps, and what one
//! call guarantees about the next.

use vstd::prelude::*;
use crate::context::Invocation;
use crate::errors::Rejection;
use crate::issuer_registry::{
    index_consistent, spec_advance_migration, spec_approve_upgrade, spec_begin_migration,
    spec_get_issuer, spec_get_issuer_by_address, spec_initialize, spec_is_active, spec_is_active_address,
    spec_new_issuer_record, spec_next_revision, spec_refresh_instance_ttl, spec_register_issuer,
    spec_revoke_upgrade, spec_rotate_issuer_address, spec_set_metadata_commitment, spec_set_status,
    spec_touch_address, spec_update_issuer, spec_upgrade_contract, IssuerRegistryModel,
};
use crate::records::IssuerStatus;
use crate::table::{Address, Hash32};

verus! {

/// An entry point of the issuer registry that can change its storage, with
/// its arguments. Reads that extend TTLs are included.
pub enum IssuerRegistryOp {
    Initialize(Address),
    RegisterIssuer(Hash32, Address, Hash32),
    UpdateIssuer(Hash32, Hash32),
    SetMetadataCommitment(Hash32, Hash32, Hash32),
    SetStatus(Hash32, IssuerStatus),
    RotateIssuerAddress(Hash32, Address),
    GetIssuer(Hash32),
    IsActiveAddress(Address),
    GetIssuerByAddress(Address),
    BeginMigration(u32, u32),
    AdvanceMigration(u32, u32),
    RefreshInstanceTtl,
    ApproveUpgrade(Hash32, u32),
    RevokeUpgrade(Hash32),
    UpgradeContract(Hash32),
}

/// The state an outcome leaves: the new one on success, the old on rejection.
pub open spec fn post_of<T, E>(pre: IssuerRegistryModel, r: Result<(IssuerRegistryModel, T), Rejection<E>>) -> IssuerRegistryModel {
    match r {
        Ok((m, _)) => m,
        Err(_) => pre,
    }
}

/// The storage after running `op` in `inv` on `m`.
pub open spec fn spec_after(m: IssuerRegistryModel, inv: Invocation, op: IssuerRegistryOp) -> IssuerRegistryModel {
    match op {
        IssuerRegistryOp::Initialize(a) => post_of(m, spec_initialize(m, inv, a)),
        IssuerRegistryOp::RegisterIssuer(id, a, h) => post_of(m, spec_register_issuer(m, inv, id, a, h)),
        IssuerRegistryOp::UpdateIssuer(id, h) => post_of(m, spec_update_issuer(m, inv, id, h)),
        IssuerRegistryOp::SetMetadataCommitment(id, h, u) => post_of(
            m,
            spec_set_metadata_commitment(m, inv, id, h, u),
        ),
        IssuerRegistryOp::SetStatus(id, s) => post_of(m, spec_set_status(m, inv, id, s)),
        IssuerRegistryOp::RotateIssuerAddress(id, a) => post_of(m, spec_rotate_issuer_address(m, inv, id, a)),
        IssuerRegistryOp::GetIssuer(id) => post_of(m, spec_get_issuer(m, inv, id)),
        IssuerRegistryOp::IsActiveAddress(a) => spec_touch_address(m, inv, a@),
        IssuerRegistryOp::GetIssuerByAddress(a) => post_of(m, spec_get_issuer_by_address(m, inv, a)),
        IssuerRegistryOp::BeginMigration(t, n) => post_of(m, spec_begin_migration(m, inv, t, n)),
        IssuerRegistryOp::AdvanceMigration(c, n) => post_of(m, spec_advance_migration(m, inv, c, n)),
        IssuerRegistryOp::RefreshInstanceTtl => post_of(m, spec_refresh_instance_ttl(m, inv)),
        IssuerRegistryOp::ApproveUpgrade(h, v) => post_of(m, spec_approve_upgrade(m, inv, h, v)),
        IssuerRegistryOp::RevokeUpgrade(h) => post_of(m, spec_revoke_upgrade(m, inv, h)),
        IssuerRegistryOp::UpgradeContract(h) => post_of(m, spec_upgrade_contract(m, inv, h)),
    }
}

/// An address names at most one issuer and every issuer is reachable from its
/// address: every entry point keeps the issuer records and the reverse index
/// in exact correspondence.
pub proof fn lemma_every_operation_keeps_the_index_consistent(
    m: IssuerRegistryModel,
    inv: Invocation,
    op: IssuerRegistryOp,
)
    requires
        index_consistent(m),
    ensures
        index_consistent(spec_after(m, inv, op)),
{
    let post = spec_after(m, inv, op);
    match op {
        IssuerRegistryOp::RegisterIssuer(id, a, h) => {
            if spec_register_issuer(m, inv, id, a, h) is Ok {
                assert forall|i: Seq<u8>| #[trigger] post.issuers.contains_key(i) implies {
                    &&& post.address_index.contains_key(post.issuers[i].issuer_address@)
                    &&& post.address_index[post.issuers[i].issuer_address@]@ == i
                    &&& post.issuers[i].issuer_id_hash@ == i
                } by {
                    if i != id@ {
                        assert(m.issuers.contains_key(i));
                        assert(m.address_index.contains_key(m.issuers[i].issuer_address@));
                    }
                }
                assert forall|x: Seq<u8>| #[trigger] post.address_index.contains_key(x) implies {
                    &&& post.issuers.contains_key(post.address_index[x]@)
                    &&& post.issuers[post.address_index[x]@].issuer_address@ == x
                } by {
                    if x != a@ {
                        assert(m.address_index.contains_key(x));
                        assert(m.issuers.contains_key(m.address_index[x]@));
                    }
                }
            }
        },
        IssuerRegistryOp::RotateIssuerAddress(id, a) => {
            if spec_rotate_issuer_address(m, inv, id, a) is Ok {
                let old_a = m.issuers[id@].issuer_address;
                assert(m.address_index.contains_key(old_a@));
                assert(m.address_index[old_a@]@ == id@);
                assert forall|i: Seq<u8>| #[trigger] post.issuers.contains_key(i) implies {
                    &&& post.address_index.contains_key(post.issuers[i].issuer_address@)
                    &&& post.address_index[post.issuers[i].issuer_address@]@ == i
                    &&& post.issuers[i].issuer_id_hash@ == i
                } by {
                    if i != id@ {
                        assert(m.issuers.contains_key(i));
                        let ai = m.issuers[i].issuer_address@;
                        assert(m.address_index.contains_key(ai));
                        assert(m.address_index[ai]@ == i);
                        assert(ai != old_a@);
                        assert(ai != a@);
                    }
                }
                assert forall|x: Seq<u8>| #[trigger] post.address_index.contains_key(x) implies {
                    &&& post.issuers.contains_key(post.address_index[x]@)
                    &&& post.issuers[post.address_index[x]@].issuer_address@ == x
                } by {
                    if x != a@ {
                        assert(x != old_a@);
                        assert(m.address_index.contains_key(x));
                        let j = m.address_index[x]@;
                        assert(m.issuers.contains_key(j));
                        assert(m.issuers[j].issuer_address@ == x);
                        assert(j != id@);
                    }
                }
            }
        },
        IssuerRegistryOp::UpdateIssuer(id, h) => {
            if spec_update_issuer(m, inv, id, h) is Ok {
                assert forall|i: Seq<u8>| #[trigger] post.issuers.contains_key(i) implies {
                    &&& post.address_index.contains_key(post.issuers[i].issuer_address@)
                    &&& post.address_index[post.issuers[i].issuer_address@]@ == i
                    &&& post.issuers[i].issuer_id_hash@ == i
                } by {
                    assert(m.issuers.contains_key(i));
                }
                assert forall|x: Seq<u8>| #[trigger] post.address_index.contains_key(x) implies {
                    &&& post.issuers.contains_key(post.address_index[x]@)
                    &&& post.issuers[post.address_index[x]@].issuer_address@ == x
                } by {
                    assert(m.address_index.contains_key(x));
                }
            }
        },
        IssuerRegistryOp::SetMetadataCommitment(id, h, u) => {
            if spec_set_metadata_commitment(m, inv, id, h, u) is Ok {
                assert forall|i: Seq<u8>| #[trigger] post.issuers.contains_key(i) implies {
                    &&& post.address_index.contains_key(post.issuers[i].issuer_address@)
                    &&& post.address_index[post.issuers[i].issuer_address@]@ == i
                    &&& post.issuers[i].issuer_id_hash@ == i
                } by {
                    assert(m.issuers.contains_key(i));
                }
                assert forall|x: Seq<u8>| #[trigger] post.address_index.contains_key(x) implies {
                    &&& post.issuers.contains_key(post.address_index[x]@)
                    &&& post.issuers[post.address_index[x]@].issuer_address@ == x
                } by {
                    assert(m.address_index.contains_key(x));
                }
            }
        },
        IssuerRegistryOp::SetStatus(id, s) => {
            if spec_set_status(m, inv, id, s) is Ok {
                assert forall|i: Seq<u8>| #[trigger] post.issuers.contains_key(i) implies {
                    &&& post.address_index.contains_key(post.issuers[i].issuer_address@)
                    &&& post.address_index[post.issuers[i].issuer_address@]@ == i
                    &&& post.issuers[i].issuer_id_hash@ == i
                } by {
                    assert(m.issuers.contains_key(i));
                }
                assert forall|x: Seq<u8>| #[trigger] post.address_index.contains_key(x) implies {
                    &&& post.issuers.contains_key(post.address_index[x]@)
                    &&& post.issuers[post.address_index[x]@].issuer_address@ == x
                } by {
                    assert(m.address_index.contains_key(x));
                }
            }
        },
        IssuerRegistryOp::IsActiveAddress(a) => {
            let p = spec_touch_address(m, inv, a@);
            assert(p.issuers == m.issuers && p.address_index == m.address_index);
        },
        _ => {},
    }
}

/// Revocation is terminal: no entry point removes a revoked issuer or gives it
/// another status.
pub proof fn lemma_revocation_is_terminal(
    m: IssuerRegistryModel,
    inv: Invocation,
    op: IssuerRegistryOp,
    id: Seq<u8>,
)
    requires
        m.issuers.contains_key(id),
        m.issuers[id].status is Revoked,
    ensures
        spec_after(m, inv, op).issuers.contains_key(id),
        spec_after(m, inv, op).issuers[id].status is Revoked,
{
    match op {
        IssuerRegistryOp::IsActiveAddress(a) => {
            assert(spec_touch_address(m, inv, a@).issuers == m.issuers);
        },
        _ => {},
    }
}

/// Issuer records are never deleted, and an issuer's identifier and creation
/// time never change.
pub proof fn lemma_issuers_persist(
    m: IssuerRegistryModel,
    inv: Invocation,
    op: IssuerRegistryOp,
    id: Seq<u8>,
)
    requires
        m.issuers.contains_key(id),
    ensures
        spec_after(m, inv, op).issuers.contains_key(id),
        spec_after(m, inv, op).issuers[id].issuer_id_hash == m.issuers[id].issuer_id_hash,
        spec_after(m, inv, op).issuers[id].created_at == m.issuers[id].created_at,
{
    match op {
        IssuerRegistryOp::IsActiveAddress(a) => {
            assert(spec_touch_address(m, inv, a@).issuers == m.issuers);
        },
        _ => {},
    }
}

/// The contract version never decreases, and it changes only through an
/// applied upgrade or the first initialization.
pub proof fn lemma_contract_version_is_monotone(m: IssuerRegistryModel, inv: Invocation, op: IssuerRegistryOp)
    ensures
        m.admin is Some ==> m.contract_version <= spec_after(m, inv, op).contract_version,
        spec_after(m, inv, op).contract_version != m.contract_version ==> (op is UpgradeContract
            || op is Initialize),
{
    match op {
        IssuerRegistryOp::IsActiveAddress(a) => {
            assert(spec_touch_address(m, inv, a@).contract_version == m.contract_version);
        },
        _ => {},
    }
}

/// What a registration writes is what a read returns: after a successful
/// `register_issuer`, `get_issuer` and `get_issuer_by_address` return the new
/// active record, and the address is active.
pub proof fn lemma_register_then_read(
    m: IssuerRegistryModel,
    inv: Invocation,
    inv2: Invocation,
    id: Hash32,
    address: Address,
    metadata_hash: Hash32,
)
    requires
        spec_register_issuer(m, inv, id, address, metadata_hash) is Ok,
    ensures
        ({
            let post = post_of(m, spec_register_issuer(m, inv, id, address, metadata_hash));
            let rec = spec_new_issuer_record(inv, id, address, metadata_hash);
            &&& spec_get_issuer(post, inv2, id) matches Ok((_, r)) && r == rec
            &&& spec_get_issuer_by_address(post, inv2, address) matches Ok((_, r)) && r == rec
            &&& spec_is_active_address(post, address@)
            &&& rec.status is Active
            &&& rec.metadata_revision == 1
        }),
{
}

/// Every accepted metadata update raises the revision by exactly one (it
/// saturates at `u32::MAX`) and leaves the status alone.
pub proof fn lemma_metadata_update_bumps_revision(
    m: IssuerRegistryModel,
    inv: Invocation,
    id: Hash32,
    h: Hash32,
    u: Hash32,
)
    ensures
        spec_update_issuer(m, inv, id, h) is Ok ==> {
            let post = post_of(m, spec_update_issuer(m, inv, id, h));
            &&& post.issuers[id@].metadata_revision == spec_next_revision(m.issuers[id@].metadata_revision)
            &&& post.issuers[id@].status == m.issuers[id@].status
            &&& post.issuers[id@].metadata_hash == h
        },
        spec_set_metadata_commitment(m, inv, id, h, u) is Ok ==> {
            let post = post_of(m, spec_set_metadata_commitment(m, inv, id, h, u));
            &&& post.issuers[id@].metadata_revision == spec_next_revision(m.issuers[id@].metadata_revision)
            &&& post.issuers[id@].status == m.issuers[id@].status
            &&& post.issuers[id@].metadata_uri_hash == u
        },
{
}

/// A status change is recorded with the ledger and time at which it became
/// effective, and only a suspended or active issuer can become active.
pub proof fn lemma_status_change_records_effective_time(
    m: IssuerRegistryModel,
    inv: Invocation,
    id: Hash32,
    s: IssuerStatus,
)
    requires
        spec_set_status(m, inv, id, s) is Ok,
    ensures
        ({
            let post = post_of(m, spec_set_status(m, inv, id, s));
            &&& post.issuers[id@].status == s
            &&& post.issuers[id@].status_effective_ledger == inv.ledger.sequence
            &&& post.issuers[id@].status_effective_timestamp == inv.ledger.timestamp
            &&& post.issuers[id@].updated_at == inv.ledger.timestamp
            &&& (s is Active ==> !(m.issuers[id@].status is Revoked))
        }),
{
}

/// An applied upgrade consumes its approval: the same WASM hash cannot be
/// applied twice, and after it the version equals the approved target.
pub proof fn lemma_upgrade_consumes_approval(m: IssuerRegistryModel, inv: Invocation, inv2: Invocation, h: Hash32)
    requires
        spec_upgrade_contract(m, inv, h) is Ok,
    ensures
        ({
            let post = post_of(m, spec_upgrade_contract(m, inv, h));
            &&& post.contract_version == m.allowed_wasm[h@]
            &&& m.contract_version < post.contract_version
            &&& !post.allowed_wasm.contains_key(h@)
            &&& spec_upgrade_contract(post, inv2, h) is Err
            &&& post.migration is None
        }),
{
}

/// A rotated-away address no longer resolves, and the new one resolves to the
/// same issuer.
pub proof fn lemma_rotation_moves_the_lookup(
    m: IssuerRegistryModel,
    inv: Invocation,
    inv2: Invocation,
    id: Hash32,
    a: Address,
)
    requires
        index_consistent(m),
        spec_rotate_issuer_address(m, inv, id, a) is Ok,
    ensures
        ({
            let post = post_of(m, spec_rotate_issuer_address(m, inv, id, a));
            let old_a = m.issuers[id@].issuer_address;
            &&& spec_get_issuer_by_address(post, inv2, old_a) == Err::<
                (IssuerRegistryModel, crate::records::IssuerRecord),
                Rejection<crate::errors::IssuerError>,
            >(Rejection::Typed(crate::errors::IssuerError::IssuerAddressNotFound))
            &&& spec_get_issuer_by_address(post, inv2, a) matches Ok((_, r)) && r.issuer_id_hash@ == id@
                && r.issuer_address == a
        }),
{
    let old_a = m.issuers[id@].issuer_address;
    assert(old_a@ != a@);
}

/// Rotating an issuer's address changes only its address and its update
/// time: its status, when that status took effect, its metadata and its
/// creation time stay as they were, so rotation never activates or suspends
/// an issuer. Every other issuer is untouched.
pub proof fn lemma_rotation_changes_only_the_address(
    m: IssuerRegistryModel,
    inv: Invocation,
    id: Hash32,
    a: Address,
)
    requires
        spec_rotate_issuer_address(m, inv, id, a) is Ok,
    ensures
        ({
            let post = post_of(m, spec_rotate_issuer_address(m, inv, id, a));
            let before = m.issuers[id@];
            let after = post.issuers[id@];
            &&& post.issuers.contains_key(id@)
            &&& after.issuer_address == a
            &&& after.updated_at == inv.ledger.timestamp
            &&& after.issuer_id_hash == before.issuer_id_hash
            &&& after.status == before.status
            &&& after.status_effective_ledger == before.status_effective_ledger
            &&& after.status_effective_timestamp == before.status_effective_timestamp
            &&& after.metadata_hash == before.metadata_hash
            &&& after.metadata_uri_hash == before.metadata_uri_hash
            &&& after.metadata_revision == before.metadata_revision
            &&& after.created_at == before.created_at
            &&& spec_is_active(post, id@) == spec_is_active(m, id@)
            &&& post.issuers.dom() == m.issuers.dom()
            &&& forall|k: Seq<u8>| k != id@ && #[trigger] m.issuers.contains_key(k) ==> post.issuers[k] == m.issuers[k]
        }),
{
    let post = post_of(m, spec_rotate_issuer_address(m, inv, id, a));
    assert(post.issuers.dom() =~= m.issuers.dom());
}

/// A content-hash update replaces the content hash, bumps the revision and
/// stamps the update time, and changes nothing else: the URI commitment, the
/// address, the status and when it took effect are kept. Every other issuer
/// is untouched.
pub proof fn lemma_update_issuer_keeps_the_uri_commitment(
    m: IssuerRegistryModel,
    inv: Invocation,
    id: Hash32,
    h: Hash32,
)
    requires
        spec_update_issuer(m, inv, id, h) is Ok,
    ensures
        ({
            let post = post_of(m, spec_update_issuer(m, inv, id, h));
            let before = m.issuers[id@];
            let after = post.issuers[id@];
            &&& post.issuers.contains_key(id@)
            &&& after.metadata_hash == h
            &&& after.metadata_revision == spec_next_revision(before.metadata_revision)
            &&& after.updated_at == inv.ledger.timestamp
            &&& after.metadata_uri_hash == before.metadata_uri_hash
            &&& after.issuer_id_hash == before.issuer_id_hash
            &&& after.issuer_address == before.issuer_address
            &&& after.status == before.status
            &&& after.status_effective_ledger == before.status_effective_ledger
            &&& after.status_effective_timestamp == before.status_effective_timestamp
            &&& after.created_at == before.created_at
            &&& post.issuers.dom() == m.issuers.dom()
            &&& forall|k: Seq<u8>| k != id@ && #[trigger] m.issuers.contains_key(k) ==> post.issuers[k] == m.issuers[k]
            &&& post.address_index == m.address_index
        }),
{
    let post = post_of(m, spec_update_issuer(m, inv, id, h));
    assert(post.issuers.dom() =~= m.issuers.dom());
}

/// A URI commitment recorded with `set_issuer_metadata_commitment` survives a
/// later content-hash update: the issuer keeps the recorded URI commitment and
/// takes the new content hash.
pub proof fn lemma_commitment_then_update(
    m: IssuerRegistryModel,
    inv: Invocation,
    id: Hash32,
    h: Hash32,
    u: Hash32,
    inv2: Invocation,
    h2: Hash32,
)
    requires
        spec_set_metadata_commitment(m, inv, id, h, u) is Ok,
        spec_update_issuer(post_of(m, spec_set_metadata_commitment(m, inv, id, h, u)), inv2, id, h2) is Ok,
    ensures
        ({
            let mid = post_of(m, spec_set_metadata_commitment(m, inv, id, h, u));
            let post = post_of(mid, spec_update_issuer(mid, inv2, id, h2));
            &&& post.issuers[id@].metadata_uri_hash == u
            &&& post.issuers[id@].metadata_hash == h2
        }),
{
    let mid = post_of(m, spec_set_metadata_commitment(m, inv, id, h, u));
    lemma_update_issuer_keeps_the_uri_commitment(mid, inv2, id, h2);
}

/// Rotating the address of a suspended issuer leaves it suspended: the issuer
/// is inactive before and after, under its id and under its new address.
pub proof fn lemma_rotation_does_not_reactivate(m: IssuerRegistryModel, inv: Invocation, id: Hash32, a: Address)
    requires
        spec_rotate_issuer_address(m, inv, id, a) is Ok,
        m.issuers[id@].status is Suspended,
    ensures
        ({
            let post = post_of(m, spec_rotate_issuer_address(m, inv, id, a));
            &&& post.issuers[id@].status is Suspended
            &&& !spec_is_active(post, id@)
            &&& !spec_is_active_address(post, a@)
        }),
{
    lemma_rotation_changes_only_the_address(m, inv, id, a);
}

/// A registration stores exactly what was asked for: the id, address and
/// content hash given, no URI commitment yet (all zero bytes), the first
/// revision, the active status, and the invocation's ledger time and
/// sequence as its creation, update and status-effective stamps.
pub proof fn lemma_registration_records_the_request(
    m: IssuerRegistryModel,
    inv: Invocation,
    id: Hash32,
    address: Address,
    metadata_hash: Hash32,
)
    requires
        spec_register_issuer(m, inv, id, address, metadata_hash) is Ok,
    ensures
        ({
            let post = post_of(m, spec_register_issuer(m, inv, id, address, metadata_hash));
            let rec = post.issuers[id@];
            &&& !m.issuers.contains_key(id@)
            &&& post.issuers.contains_key(id@)
            &&& rec.issuer_id_hash == id
            &&& rec.issuer_address == address
            &&& rec.metadata_hash == metadata_hash
            &&& rec.metadata_uri_hash@ == crate::table::spec_zero_digest()
            &&& rec.metadata_revision == 1
            &&& rec.status is Active
            &&& rec.created_at == inv.ledger.timestamp
            &&& rec.updated_at == inv.ledger.timestamp
            &&& rec.status_effective_ledger == inv.ledger.sequence
            &&& rec.status_effective_timestamp == inv.ledger.timestamp
            &&& post.address_index.contains_key(address@)
            &&& post.address_index[address@] == id
            &&& forall|k: Seq<u8>| k != id@ && #[trigger] m.issuers.contains_key(k) ==> post.issuers[k] == m.issuers[k]
        }),
{
}

/// A status change touches only the status, its effective stamps and the
/// update time: the address and every metadata field are kept.
pub proof fn lemma_status_change_keeps_identity_and_metadata(
    m: IssuerRegistryModel,
    inv: Invocation,
    id: Hash32,
    st: IssuerStatus,
)
    requires
        spec_set_status(m, inv, id, st) is Ok,
    ensures
        ({
            let post = post_of(m, spec_set_status(m, inv, id, st));
            let before = m.issuers[id@];
            let after = post.issuers[id@];
            &&& after.issuer_id_hash == before.issuer_id_hash
            &&& after.issuer_address == before.issuer_address
            &&& after.metadata_hash == before.metadata_hash
            &&& after.metadata_uri_hash == before.metadata_uri_hash
            &&& after.metadata_revision == before.metadata_revision
            &&& after.created_at == before.created_at
            &&& post.address_index == m.address_index
            &&& forall|k: Seq<u8>| k != id@ && #[trigger] m.issuers.contains_key(k) ==> post.issuers[k] == m.issuers[k]
        }),
{
}

/// Recording metadata commitments replaces both hashes, bumps the revision
/// and stamps the update time, and keeps the address, the status and when it
/// took effect. Both commitments must be non-zero.
pub proof fn lemma_commitment_keeps_identity_and_status(
    m: IssuerRegistryModel,
    inv: Invocation,
    id: Hash32,
    h: Hash32,
    u: Hash32,
)
    requires
        spec_set_metadata_commitment(m, inv, id, h, u) is Ok,
    ensures
        ({
            let post = post_of(m, spec_set_metadata_commitment(m, inv, id, h, u));
            let before = m.issuers[id@];
            let after = post.issuers[id@];
            &&& h@ != crate::table::spec_zero_digest()
            &&& u@ != crate::table::spec_zero_digest()
            &&& after.metadata_hash == h
            &&& after.metadata_uri_hash == u
            &&& after.metadata_revision == spec_next_revision(before.metadata_revision)
            &&& after.updated_at == inv.ledger.timestamp
            &&& after.issuer_id_hash == before.issuer_id_hash
            &&& after.issuer_address == before.issuer_address
            &&& after.status == before.status
            &&& after.status_effective_ledger == before.status_effective_ledger
            &&& after.status_effective_timestamp == before.status_effective_timestamp
            &&& after.created_at == before.created_at
            &&& post.address_index == m.address_index
            &&& forall|k: Seq<u8>| k != id@ && #[trigger] m.issuers.contains_key(k) ==> post.issuers[k] == m.issuers[k]
        }),
{
}

} // verus!
