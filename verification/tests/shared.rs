use earnproof::address::{
    is_valid_principal_address, is_valid_principal_strkey, is_zero_or_sentinel_address,
    is_zero_payload_strkey,
};
use earnproof::digest::{
    checked_protocol_config_digest, names_address, proof_registry_digest,
    protocol_config_digest,
};
use earnproof::error_catalog::{domain_for, error_catalog, retry_for, spec, Domain, Retry, Status, ERROR_CATALOG_LEN};
use earnproof::errors::{ContractError, IssuerError, ProofError};
use earnproof::migration::{advance_migration_step, begin_migration_step, MigrationStatus, MAX_MIGRATION_BATCH, MIGRATION_STATUS_VERSION};
use earnproof::records::{proof_validity, ProofRecord, ProofStatus, ProofValidity};
use earnproof::storage_namespaces::{
    contracts, namespace, namespaces_for, storage_namespaces, str_equal, StorageClass,
    STORAGE_NAMESPACES_LEN,
};
use earnproof::table::{Address, Hash32};
use earnproof::ttl::{tracked_live_until, ttl_status, TtlHealth, TTL_EXTEND_TO_LEDGERS, TTL_THRESHOLD_LEDGERS};

const ZERO_ADDR: &str = "GAAAAAAAAAAAAAAAAAAAAAAAAAAAAAAAAAAAAAAAAAAAAAAAAAAAAWHF";
const ADMIN: &str = "GCFIRY65OQE7DFP5KLNS2PF2LVZMUZYJX4OZIEQ36N2IQANUB5XVYOJR";
const ISSUER_ONE: &str = "GCATS5YOVB6ROX2WUNKGNQ2MP3GMXDMKSG2O4N5CLX3A6W4PZGZZI55U";
const ISSUER_TWO: &str = "GDWUSKGGFDI4FRXK5EBTRECZSVQSSWJHHJOGH6JWG3AUMFFMQ435DIAG";

fn address(strkey: &str) -> Address {
    let mut bytes = [0u8; 56];
    bytes.copy_from_slice(strkey.as_bytes());
    Address { strkey: bytes }
}

// ── TTL ───────────────────────────────────────────────────────────

#[test]
fn ttl_status_classifies_each_band() {
    let missing = ttl_status(100, false, Some(1_000_000));
    assert_eq!(missing.health, TtlHealth::Missing);
    assert_eq!(missing.remaining_ledgers, 0);
    assert_eq!(missing.threshold_ledgers, TTL_THRESHOLD_LEDGERS);
    assert_eq!(ttl_status(100, true, None).health, TtlHealth::Missing);
    assert_eq!(ttl_status(100, true, Some(100)).health, TtlHealth::Missing);
    assert_eq!(ttl_status(200, true, Some(100)).remaining_ledgers, 0);
    let near = ttl_status(100, true, Some(100 + TTL_THRESHOLD_LEDGERS));
    assert_eq!(near.health, TtlHealth::NearExpiry);
    assert_eq!(near.remaining_ledgers, TTL_THRESHOLD_LEDGERS);
    let healthy = ttl_status(100, true, Some(101 + TTL_THRESHOLD_LEDGERS));
    assert_eq!(healthy.health, TtlHealth::Healthy);
    assert_eq!(healthy.remaining_ledgers, TTL_THRESHOLD_LEDGERS + 1);
}

#[test]
fn tracked_live_until_extends_to_the_target_within_the_network_cap() {
    assert_eq!(tracked_live_until(10, 6_312_000), 10 + TTL_EXTEND_TO_LEDGERS);
    assert_eq!(tracked_live_until(10, 1_000), 1_010);
    assert_eq!(tracked_live_until(u32::MAX - 5, 6_312_000), u32::MAX);
    assert_eq!(TTL_THRESHOLD_LEDGERS, 50_000);
    assert_eq!(TTL_EXTEND_TO_LEDGERS, 500_000);
}

// ── Error codes and catalog ───────────────────────────────────────

#[test]
fn error_codes_round_trip() {
    for e in [
        ContractError::AlreadyInitialized,
        ContractError::NotInitialized,
        ContractError::Unauthorized,
        ContractError::AlreadyExists,
        ContractError::NotFound,
        ContractError::InvalidState,
        ContractError::InvalidInput,
        ContractError::InvalidAddress,
        ContractError::ProtocolPaused,
    ] {
        assert_eq!(ContractError::from_code(e.code()), Some(e));
    }
    assert_eq!(ContractError::InvalidInput.code(), 60);
    assert_eq!(ContractError::ProtocolPaused.code(), 80);
    assert_eq!(ContractError::from_code(3), None);
    for e in [
        IssuerError::IssuerAlreadyRegistered,
        IssuerError::IssuerNotFound,
        IssuerError::IssuerAddressAlreadyRegistered,
        IssuerError::IssuerAddressNotFound,
        IssuerError::IssuerRevoked,
        IssuerError::IssuerInactive,
        IssuerError::InvalidTransition,
        IssuerError::InvalidAddress,
        IssuerError::InvalidMetadataCommitment,
    ] {
        assert_eq!(IssuerError::from_code(e.code()), Some(e));
        assert!((200..300).contains(&e.code()));
    }
    assert_eq!(IssuerError::InvalidTransition.code(), 206);
    assert_eq!(ProofError::InvalidAddress.code(), 306);
}

#[test]
fn the_catalog_is_ordered_by_code_and_looks_up_each_entry() {
    let catalog = error_catalog();
    assert_eq!(catalog.len(), ERROR_CATALOG_LEN);
    for pair in catalog.windows(2) {
        assert!(pair[0].code < pair[1].code);
    }
    for entry in &catalog {
        assert_eq!(spec(entry.code), Some(*entry));
        assert_eq!(domain_for(entry.code), entry.domain);
        let (lo, hi) = entry.domain.range().unwrap();
        assert!(lo <= entry.code && entry.code <= hi);
        assert_eq!(retry_for(entry.code), entry.retry);
    }
}

#[test]
fn catalog_entries_carry_their_documented_fields() {
    let already = spec(1).unwrap();
    assert_eq!(already.name, "AlreadyInitialized");
    assert_eq!(already.enum_name, "ContractError");
    assert_eq!(already.domain, Domain::Common);
    assert_eq!(already.status, Status::Returned);
    assert_eq!(already.http_status, 409);
    assert_eq!(already.retry, Retry::Never);
    assert_eq!(spec(2).unwrap().retry, Retry::AfterOperatorAction);
    assert_eq!(spec(60).unwrap().retry, Retry::AfterCallerChange);
    assert_eq!(spec(80).unwrap().http_status, 503);
    assert_eq!(spec(200).unwrap().name, "IssuerAlreadyRegistered");
    assert_eq!(spec(300).unwrap().name, "ProofAlreadyRegistered");
}

#[test]
fn every_error_variant_has_a_catalog_entry_with_its_name() {
    let common = [
        (ContractError::AlreadyInitialized, "AlreadyInitialized"),
        (ContractError::NotInitialized, "NotInitialized"),
        (ContractError::Unauthorized, "Unauthorized"),
        (ContractError::AlreadyExists, "AlreadyExists"),
        (ContractError::NotFound, "NotFound"),
        (ContractError::InvalidState, "InvalidState"),
        (ContractError::InvalidInput, "InvalidInput"),
        (ContractError::InvalidAddress, "InvalidAddress"),
        (ContractError::ProtocolPaused, "ProtocolPaused"),
    ];
    for (e, name) in common {
        let entry = spec(e.code()).unwrap();
        assert_eq!((entry.name, entry.enum_name), (name, "ContractError"));
    }
    let issuer = [
        (IssuerError::IssuerAlreadyRegistered, "IssuerAlreadyRegistered"),
        (IssuerError::IssuerNotFound, "IssuerNotFound"),
        (IssuerError::IssuerAddressAlreadyRegistered, "IssuerAddressAlreadyRegistered"),
        (IssuerError::IssuerAddressNotFound, "IssuerAddressNotFound"),
        (IssuerError::IssuerRevoked, "IssuerRevoked"),
        (IssuerError::IssuerInactive, "IssuerInactive"),
        (IssuerError::InvalidTransition, "InvalidTransition"),
        (IssuerError::InvalidAddress, "InvalidAddress"),
        (IssuerError::InvalidMetadataCommitment, "InvalidMetadataCommitment"),
    ];
    for (e, name) in issuer {
        let entry = spec(e.code()).unwrap();
        assert_eq!((entry.name, entry.enum_name), (name, "IssuerError"));
    }
    let proof = [
        (ProofError::ProofAlreadyRegistered, "ProofAlreadyRegistered"),
        (ProofError::ProofNotFound, "ProofNotFound"),
        (ProofError::ProofAlreadyRevoked, "ProofAlreadyRevoked"),
        (ProofError::ProofExpired, "ProofExpired"),
        (ProofError::InvalidSchemaVersion, "InvalidSchemaVersion"),
        (ProofError::SchemaVersionNotApproved, "SchemaVersionNotApproved"),
        (ProofError::InvalidAddress, "InvalidAddress"),
    ];
    for (e, name) in proof {
        let entry = spec(e.code()).unwrap();
        assert_eq!((entry.name, entry.enum_name), (name, "ProofError"));
    }
    assert_eq!(spec(61).unwrap().status, Status::Reserved);
    assert_eq!(spec(208).unwrap().retry, Retry::AfterCallerChange);
    assert_eq!(spec(306).unwrap().domain, Domain::ProofRegistry);
}

#[test]
fn unknown_codes_are_never_retried() {
    for code in [0u32, 3, 59, 99, 150, 209, 299, 307, 399, 400, 1_000, u32::MAX] {
        assert_eq!(spec(code), None, "code {code} should be unpublished");
        assert_eq!(retry_for(code), Retry::Never);
    }
}

#[test]
fn domains_partition_the_code_space() {
    assert_eq!(domain_for(0), Domain::Unallocated);
    assert_eq!(domain_for(1), Domain::Common);
    assert_eq!(domain_for(99), Domain::Common);
    assert_eq!(domain_for(100), Domain::ProtocolConfig);
    assert_eq!(domain_for(250), Domain::IssuerRegistry);
    assert_eq!(domain_for(399), Domain::ProofRegistry);
    assert_eq!(domain_for(400), Domain::Unallocated);
    assert_eq!(Domain::Unallocated.range(), None);
    assert_eq!(Domain::IssuerRegistry.range(), Some((200, 299)));
    assert_eq!(Domain::ProofRegistry.as_str(), "proof-registry");
    assert_eq!(Retry::AfterCallerChange.as_str(), "after-caller-change");
    assert_eq!(Status::Reserved.as_str(), "reserved");
}

// ── Storage namespaces ────────────────────────────────────────────

#[test]
fn namespaces_are_sorted_and_collision_free() {
    let all = storage_namespaces();
    assert_eq!(all.len(), STORAGE_NAMESPACES_LEN);
    for pair in all.windows(2) {
        let a = (pair[0].contract, pair[0].namespace);
        let b = (pair[1].contract, pair[1].namespace);
        assert!(a < b, "{:?} must sort strictly before {:?}", a, b);
    }
    for entry in &all {
        assert!(contracts().contains(&entry.contract));
        assert_eq!(namespace(entry.contract, entry.namespace), Some(*entry));
    }
}

#[test]
fn namespace_lookup_finds_documented_entries() {
    let admin = namespace("issuer-registry", "Admin").unwrap();
    assert_eq!(admin.arity, 0);
    assert_eq!(admin.class, StorageClass::Instance);
    let index = namespace("issuer-registry", "AddressIssuer").unwrap();
    assert_eq!(index.arity, 1);
    assert_eq!(index.class, StorageClass::Persistent);
    assert!(namespace("issuer-registry", "Nope").is_none());
    assert!(namespace("nobody", "Admin").is_none());
    assert_eq!(StorageClass::Temporary.as_str(), "temporary");
}

#[test]
fn namespaces_for_lists_a_contracts_tier_in_order() {
    let persistent = namespaces_for("issuer-registry", StorageClass::Persistent);
    assert!(persistent.contains(&"AddressIssuer"));
    assert!(persistent.contains(&"Issuer"));
    assert!(!persistent.contains(&"Admin"));
    let instance = namespaces_for("issuer-registry", StorageClass::Instance);
    assert!(instance.contains(&"Admin"));
    let mut sorted = persistent.clone();
    sorted.sort();
    assert_eq!(sorted, persistent);
    assert!(namespaces_for("nobody", StorageClass::Instance).is_empty());
}

#[test]
fn str_equal_compares_text() {
    assert!(str_equal("Admin", "Admin"));
    assert!(!str_equal("Admin", "Admins"));
    assert!(!str_equal("", "A"));
    assert!(str_equal("", ""));
}

// ── Migration checkpoint ──────────────────────────────────────────

#[test]
fn a_migration_begins_once_and_advances_by_batches() {
    let (status, wrote) = begin_migration_step(None, 1, 2, 150).unwrap();
    assert!(wrote);
    assert_eq!(
        status,
        MigrationStatus {
            status_version: MIGRATION_STATUS_VERSION,
            target_contract_version: 2,
            cursor: 0,
            total_items: 150,
            complete: false
        }
    );
    assert_eq!(begin_migration_step(Some(status), 1, 2, 150), Ok((status, false)));
    assert_eq!(begin_migration_step(Some(status), 1, 3, 150), Err(ContractError::InvalidState));
    assert_eq!(begin_migration_step(None, 2, 2, 150), Err(ContractError::InvalidInput));
    assert_eq!(begin_migration_step(None, 1, 2, 0), Err(ContractError::InvalidInput));

    let (mid, wrote) = advance_migration_step(Some(status), 0, MAX_MIGRATION_BATCH).unwrap();
    assert!(wrote);
    assert_eq!(mid.cursor, 100);
    assert!(!mid.complete);
    assert_eq!(advance_migration_step(Some(mid), 0, 100), Ok((mid, false)));
    assert_eq!(advance_migration_step(Some(mid), 50, 100), Err(ContractError::InvalidState));
    assert_eq!(advance_migration_step(Some(mid), 100, 0), Err(ContractError::InvalidInput));
    assert_eq!(advance_migration_step(Some(mid), 100, 101), Err(ContractError::InvalidInput));
    assert_eq!(advance_migration_step(Some(mid), 100, 100), Err(ContractError::InvalidInput));
    let (done, _) = advance_migration_step(Some(mid), 100, 50).unwrap();
    assert_eq!(done.cursor, 150);
    assert!(done.complete);
    assert_eq!(advance_migration_step(None, 0, 1), Err(ContractError::InvalidState));
}

// ── Proof validity ────────────────────────────────────────────────

#[test]
fn proof_validity_follows_the_documented_precedence() {
    let record = ProofRecord {
        proof_id_hash: Hash32 { bytes: [1; 32] },
        commitment_hash: Hash32 { bytes: [2; 32] },
        issuer_address: address(ISSUER_ONE),
        status: ProofStatus::Active,
        schema_version: 1,
        expires_at: 1_000,
        created_at: 0,
        revoked_at: 0,
        created_ledger: 0,
    };
    assert_eq!(proof_validity(None, 0, true, true), ProofValidity::Unknown);
    assert_eq!(proof_validity(Some(&record), 999, true, true), ProofValidity::Valid);
    assert_eq!(proof_validity(Some(&record), 1_000, true, true), ProofValidity::Expired);
    assert_eq!(proof_validity(Some(&record), 999, false, false), ProofValidity::IssuerInactive);
    assert_eq!(proof_validity(Some(&record), 999, true, false), ProofValidity::SchemaDeprecated);
    let revoked = ProofRecord { status: ProofStatus::Revoked, ..record };
    assert_eq!(proof_validity(Some(&revoked), 5_000, false, false), ProofValidity::Revoked);
}

// ── Addresses ─────────────────────────────────────────────────────

#[test]
fn principal_validation_rejects_the_zero_key_and_malformed_text() {
    assert!(is_zero_payload_strkey(ZERO_ADDR.as_bytes()));
    assert!(!is_zero_payload_strkey(ADMIN.as_bytes()));
    assert!(!is_valid_principal_strkey(ZERO_ADDR.as_bytes()));
    assert!(is_valid_principal_strkey(ADMIN.as_bytes()));
    assert!(!is_valid_principal_strkey(b"BADADDRESS"));
    assert!(!is_valid_principal_strkey(&ADMIN.as_bytes()[..55]));
    let mut lower = ADMIN.as_bytes().to_vec();
    lower[3] = b'a';
    assert!(!is_valid_principal_strkey(&lower));
    let mut digit = ADMIN.as_bytes().to_vec();
    digit[3] = b'1';
    assert!(!is_valid_principal_strkey(&digit));
    assert!(is_zero_or_sentinel_address(&address(ZERO_ADDR)));
    assert!(!is_zero_or_sentinel_address(&address(ISSUER_TWO)));
    assert!(is_valid_principal_address(&address(ISSUER_TWO)));
    assert!(!is_valid_principal_address(&address(ZERO_ADDR)));
}

// ── Configuration digests ─────────────────────────────────────────

#[test]
fn strkeys_name_addresses_only_when_they_decode() {
    assert!(names_address(&address(ADMIN)));
    assert!(names_address(&address(ZERO_ADDR)));
    let mut broken = address(ADMIN);
    broken.strkey[55] = if broken.strkey[55] == b'A' { b'B' } else { b'A' };
    assert!(!names_address(&broken));
}

#[test]
fn protocol_config_digest_depends_on_every_field() {
    let admin = address(ADMIN);
    let base = protocol_config_digest(&admin, false, 1, 1);
    assert_eq!(base, protocol_config_digest(&admin, false, 1, 1));
    assert_ne!(base, protocol_config_digest(&admin, true, 1, 1));
    assert_ne!(base, protocol_config_digest(&admin, false, 2, 1));
    assert_ne!(base, protocol_config_digest(&admin, false, 1, 2));
    assert_ne!(base, protocol_config_digest(&address(ISSUER_ONE), false, 1, 1));
    assert_ne!(base, Hash32::zero());
    assert_eq!(checked_protocol_config_digest(&admin, false, 1, 1), Some(base));
    let mut broken = admin;
    broken.strkey[55] = if broken.strkey[55] == b'A' { b'B' } else { b'A' };
    assert_eq!(checked_protocol_config_digest(&broken, false, 1, 1), None);
}

#[test]
fn proof_registry_digest_is_domain_separated_and_ordered() {
    let a = address(ADMIN);
    let b = address(ISSUER_ONE);
    let c = address(ISSUER_TWO);
    assert_ne!(proof_registry_digest(&a, &b, &c, 1), proof_registry_digest(&a, &c, &b, 1));
    assert_ne!(proof_registry_digest(&a, &b, &c, 1), proof_registry_digest(&a, &b, &c, 2));
}
