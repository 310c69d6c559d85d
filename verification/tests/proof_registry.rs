use earnproof::context::{Invocation, LedgerInfo};
use earnproof::digest::{proof_registry_digest, CONFIG_DIGEST_VERSION};
use earnproof::errors::{Abort, ContractError, ProofError, Rejection};
use earnproof::governance::{ApprovalQuery, ApprovalStatus, PauseScope, UpgradeTiming};
use earnproof::issuer_registry::IssuerRegistryContract;
use earnproof::proof_registry::{
    next_registration_read, DependencyReply, ProofRegistryContract, RegistrationRead,
};
use earnproof::records::ProofStatus;
use earnproof::table::{Address, Hash32};
use earnproof::ttl::{TtlHealth, TTL_THRESHOLD_LEDGERS};

const ADMIN: &str = "GCFIRY65OQE7DFP5KLNS2PF2LVZMUZYJX4OZIEQ36N2IQANUB5XVYOJR";
const ISSUER: &str = "GCATS5YOVB6ROX2WUNKGNQ2MP3GMXDMKSG2O4N5CLX3A6W4PZGZZI55U";
const OTHER: &str = "GBXHUHG5FGYLPD6RHL2MKWMP572O6KUXCZXDZJXS4T57ZTMAKBN7DWXN";
const ISSUER_REGISTRY_ID: &str = "CAAQCAIBAEAQCAIBAEAQCAIBAEAQCAIBAEAQCAIBAEAQCAIBAEAQC526";
const PROTOCOL_CONFIG_ID: &str = "CABAEAQCAIBAEAQCAIBAEAQCAIBAEAQCAIBAEAQCAIBAEAQCAIBAFNSZ";
const CONTRACT_ID: &str = "CABQGAYDAMBQGAYDAMBQGAYDAMBQGAYDAMBQGAYDAMBQGAYDAMBQGCK3";
const UPGRADE_TIMELOCK_LEDGERS: u32 = 17_280;
const UPGRADE_APPROVAL_EXPIRY_LEDGERS: u32 = 120_960;
const MAX_TTL: u32 = 6_312_000;

fn address(strkey: &str) -> Address {
    let mut bytes = [0u8; 56];
    bytes.copy_from_slice(strkey.as_bytes());
    Address { strkey: bytes }
}

fn bytes(value: u8) -> Hash32 {
    Hash32 { bytes: [value; 32] }
}

fn make_wasm_hash() -> Hash32 {
    bytes(1)
}

/// A stand-in for the protocol config: its pause flag and approved schemas.
struct Config {
    paused: bool,
    approved: Vec<u32>,
}

struct Env {
    ledger: LedgerInfo,
    signers: Option<Vec<Address>>,
    config: Config,
    issuers: IssuerRegistryContract,
}

impl Env {
    fn inv(&self) -> Invocation {
        match &self.signers {
            None => Invocation::authorized_by_all(self.ledger),
            Some(v) => Invocation::authorized_by(self.ledger, v.clone()),
        }
    }

    fn set_sequence_number(&mut self, sequence: u32) {
        self.ledger.sequence = sequence;
    }

    fn sequence(&self) -> u32 {
        self.ledger.sequence
    }

    fn timestamp(&self) -> u64 {
        self.ledger.timestamp
    }

    fn reply(&mut self, read: RegistrationRead) -> DependencyReply {
        let inv = self.inv();
        match read {
            RegistrationRead::ProtocolPaused => DependencyReply::Answered(self.config.paused),
            RegistrationRead::SchemaApproved(version) => DependencyReply::Answered(self.config.approved.contains(&version)),
            RegistrationRead::IssuerActive(who) => DependencyReply::Answered(self.issuers.is_active_address(&inv, who)),
        }
    }

    fn register_issuer(&mut self, id: Hash32, issuer: Address) {
        let inv = Invocation::authorized_by_all(self.ledger);
        self.issuers.register_issuer(&inv, id, issuer, bytes(8)).unwrap();
    }

    fn suspend_issuer(&mut self, id: Hash32) {
        let inv = Invocation::authorized_by_all(self.ledger);
        self.issuers.suspend_issuer(&inv, id).unwrap();
    }
}

fn try_register_proof(
    env: &mut Env,
    client: &mut ProofRegistryContract,
    proof_id: Hash32,
    commitment: Hash32,
    issuer: Address,
    schema: u32,
    expires_at: u64,
) -> Result<(), Rejection<ProofError>> {
    let inv = env.inv();
    let mut replies: Vec<DependencyReply> = Vec::new();
    if client.registration_precheck(&inv, &issuer, schema, expires_at).is_none() {
        while let Some(read) = next_registration_read(&replies, schema, issuer) {
            let r = env.reply(read);
            replies.push(r);
        }
    }
    let reply = |k: usize| replies.get(k).copied().unwrap_or(DependencyReply::Failed);
    client.register_proof(&inv, proof_id, commitment, issuer, schema, expires_at, reply(0), reply(1), reply(2))
}

fn fresh_env(configured: bool) -> Env {
    let ledger = LedgerInfo { timestamp: 0, sequence: 0, max_ttl: MAX_TTL };
    let mut issuers = IssuerRegistryContract::new();
    let mut config = Config { paused: false, approved: vec![] };
    if configured {
        let inv = Invocation::authorized_by_all(ledger);
        issuers.initialize(&inv, address(ADMIN)).unwrap();
        issuers.register_issuer(&inv, bytes(9), address(ISSUER), bytes(8)).unwrap();
        config.approved.push(1);
    }
    Env { ledger, signers: None, config, issuers }
}

fn new_registry() -> ProofRegistryContract {
    let timing = UpgradeTiming::new(UPGRADE_TIMELOCK_LEDGERS, UPGRADE_APPROVAL_EXPIRY_LEDGERS).unwrap();
    ProofRegistryContract::new(address(CONTRACT_ID), timing)
}

fn initialize(env: &Env, client: &mut ProofRegistryContract, admin: Address, ir: Address, pc: Address) -> Result<(), Rejection<ContractError>> {
    client.initialize(&env.inv(), admin, ir, pc, Some(1), Some(1))
}

fn setup() -> (Env, ProofRegistryContract, Address) {
    let env = fresh_env(true);
    let mut client = new_registry();
    initialize(&env, &mut client, address(ADMIN), address(ISSUER_REGISTRY_ID), address(PROTOCOL_CONFIG_ID)).unwrap();
    (env, client, address(ADMIN))
}

fn register(env: &mut Env, client: &mut ProofRegistryContract, id: Hash32, commitment: Hash32, schema: u32, expires_at: u64) {
    try_register_proof(env, client, id, commitment, address(ISSUER), schema, expires_at).unwrap();
}

// ── Registration ──────────────────────────────────────────────────

#[test]
fn registers_and_validates_proof() {
    let (mut env, mut client, _admin) = setup();
    let proof_id = bytes(1);
    let commitment = bytes(2);
    register(&mut env, &mut client, proof_id, commitment, 1, 2_000);
    let record = client.get_proof(&env.inv(), proof_id).unwrap();
    assert_eq!(record.proof_id_hash, proof_id);
    assert_eq!(record.commitment_hash, commitment);
    assert_eq!(record.issuer_address, address(ISSUER));
    assert_eq!(record.status, ProofStatus::Active);
    assert_eq!(client.get_issuer_registry(), Ok(address(ISSUER_REGISTRY_ID)));
    assert!(client.is_valid_proof(&env.inv(), proof_id));
    assert!(!client.is_revoked(&env.inv(), proof_id));
}

#[test]
fn issuer_can_revoke_proof() {
    let (mut env, mut client, _admin) = setup();
    let proof_id = bytes(1);
    register(&mut env, &mut client, proof_id, bytes(2), 1, 2_000);
    client.revoke_proof(&env.inv(), proof_id).unwrap();
    let record = client.get_proof(&env.inv(), proof_id).unwrap();
    assert_eq!(record.status, ProofStatus::Revoked);
    assert!(client.is_revoked(&env.inv(), proof_id));
    assert!(!client.is_valid_proof(&env.inv(), proof_id));
}

#[test]
fn rejects_expired_proof() {
    let (mut env, mut client, _admin) = setup();
    let result = try_register_proof(&mut env, &mut client, bytes(1), bytes(2), address(ISSUER), 1, 0);
    assert_eq!(result, Err(Rejection::Typed(ProofError::ProofExpired)));
}

#[test]
fn rejects_duplicate_proof_id() {
    let (mut env, mut client, _admin) = setup();
    register(&mut env, &mut client, bytes(1), bytes(2), 1, 2_000);
    let result = try_register_proof(&mut env, &mut client, bytes(1), bytes(3), address(ISSUER), 1, 2_000);
    assert_eq!(result, Err(Rejection::Typed(ProofError::ProofAlreadyRegistered)));
}

#[test]
fn rejects_unapproved_schema_version() {
    let (mut env, mut client, _admin) = setup();
    let result = try_register_proof(&mut env, &mut client, bytes(1), bytes(2), address(ISSUER), 2, 2_000);
    assert_eq!(result, Err(Rejection::Typed(ProofError::SchemaVersionNotApproved)));
}

#[test]
fn rejects_registration_when_protocol_is_paused() {
    let (mut env, mut client, _admin) = setup();
    env.config.paused = true;
    let result = try_register_proof(&mut env, &mut client, bytes(1), bytes(2), address(ISSUER), 1, 2_000);
    assert_eq!(result, Err(Rejection::Typed(ProofError::InvalidSchemaVersion)));
}

#[test]
fn rejects_inactive_issuer_address() {
    let (mut env, mut client, _admin) = setup();
    let inactive_issuer = address(OTHER);
    env.register_issuer(bytes(10), inactive_issuer);
    env.suspend_issuer(bytes(10));
    let result = try_register_proof(&mut env, &mut client, bytes(1), bytes(2), inactive_issuer, 1, 2_000);
    assert_eq!(result, Err(Rejection::Typed(ProofError::InvalidSchemaVersion)));
}

#[test]
fn extends_proof_storage_ttl() {
    let (mut env, mut client, _admin) = setup();
    let proof_id = bytes(1);
    register(&mut env, &mut client, proof_id, bytes(2), 1, 2_000);
    let live = *client.proof_ttl.get(&proof_id).unwrap();
    assert!(live - env.sequence() > TTL_THRESHOLD_LEDGERS);
}

// ── Upgrade governance ────────────────────────────────────────────

#[test]
fn lib_contract_version_initialized_to_one() {
    let (_env, client, _admin) = setup();
    assert_eq!(client.get_contract_version(), 1);
}

#[test]
fn lib_approve_and_check_allowlist() {
    let (env, mut client, _admin) = setup();
    let hash = bytes(0xab);
    assert!(!client.is_upgrade_allowed(hash));
    client.approve_upgrade(&env.inv(), hash, 2).unwrap();
    assert!(client.is_upgrade_allowed(hash));
}

#[test]
fn lib_revoke_removes_from_allowlist() {
    let (env, mut client, _admin) = setup();
    let hash = bytes(0xcd);
    client.approve_upgrade(&env.inv(), hash, 2).unwrap();
    client.revoke_upgrade(&env.inv(), hash).unwrap();
    assert!(!client.is_upgrade_allowed(hash));
}

#[test]
fn lib_approve_upgrade_rejects_downgrade_version() {
    let (env, mut client, _admin) = setup();
    let result = client.approve_upgrade(&env.inv(), bytes(1), 1);
    assert_eq!(result, Err(Rejection::Typed(ContractError::InvalidInput)));
}

#[test]
fn lib_upgrade_contract_rejects_non_allowlisted_hash() {
    let (env, mut client, _admin) = setup();
    let result = client.upgrade_contract(&env.inv(), bytes(0xff));
    assert_eq!(result, Err(Rejection::Aborted(Abort::NotAllowlisted)));
}

#[test]
fn lib_upgrade_contract_requires_admin_auth() {
    let (mut env, mut client, _admin) = setup();
    let hash = bytes(0xde);
    client.approve_upgrade(&env.inv(), hash, 2).unwrap();
    let next = env.sequence() + UPGRADE_TIMELOCK_LEDGERS;
    env.set_sequence_number(next);
    env.signers = Some(vec![]);
    let result = client.upgrade_contract(&env.inv(), hash);
    assert_eq!(result, Err(Rejection::Aborted(Abort::Unauthorized)));
}

#[test]
fn lib_upgrade_advances_version_and_consumes_allowlist() {
    let (mut env, mut client, _admin) = setup();
    let hash = bytes(0x42);
    client.approve_upgrade(&env.inv(), hash, 2).unwrap();
    let next = env.sequence() + UPGRADE_TIMELOCK_LEDGERS;
    env.set_sequence_number(next);
    client.upgrade_contract(&env.inv(), hash).unwrap();
    assert_eq!(client.get_contract_version(), 2);
    assert!(!client.is_upgrade_allowed(hash));
}

#[test]
fn lib_upgrade_hash_cannot_be_replayed() {
    let (mut env, mut client, _admin) = setup();
    let hash = bytes(0x42);
    client.approve_upgrade(&env.inv(), hash, 2).unwrap();
    let next = env.sequence() + UPGRADE_TIMELOCK_LEDGERS;
    env.set_sequence_number(next);
    client.upgrade_contract(&env.inv(), hash).unwrap();
    let result = client.upgrade_contract(&env.inv(), hash);
    assert_eq!(result, Err(Rejection::Aborted(Abort::NotAllowlisted)));
}

#[test]
fn lib_state_preserved_across_upgrade() {
    let (mut env, mut client, _admin) = setup();
    let proof_id = bytes(1);
    register(&mut env, &mut client, proof_id, bytes(2), 1, 2_000);
    assert!(client.is_valid_proof(&env.inv(), proof_id));
    let hash = bytes(0x77);
    client.approve_upgrade(&env.inv(), hash, 2).unwrap();
    let next = env.sequence() + UPGRADE_TIMELOCK_LEDGERS;
    env.set_sequence_number(next);
    client.upgrade_contract(&env.inv(), hash).unwrap();
    assert!(client.is_valid_proof(&env.inv(), proof_id));
    assert_eq!(client.get_contract_version(), 2);
}

#[test]
fn lib_cannot_re_approve_old_version_after_upgrade() {
    let (mut env, mut client, _admin) = setup();
    client.approve_upgrade(&env.inv(), bytes(0x01), 2).unwrap();
    let next = env.sequence() + UPGRADE_TIMELOCK_LEDGERS;
    env.set_sequence_number(next);
    client.upgrade_contract(&env.inv(), bytes(0x01)).unwrap();
    let result = client.approve_upgrade(&env.inv(), bytes(0x02), 1);
    assert_eq!(result, Err(Rejection::Typed(ContractError::InvalidInput)));
}

// ── Numeric boundaries ────────────────────────────────────────────

#[test]
fn register_proof_schema_version_boundaries() {
    let (mut env, mut client, _admin) = setup();
    register(&mut env, &mut client, bytes(1), bytes(2), 1, 2_000);
    assert!(client.is_valid_proof(&env.inv(), bytes(1)));
    env.config.approved.push(99);
    register(&mut env, &mut client, bytes(10), bytes(11), 99, 2_000);
    assert!(client.is_valid_proof(&env.inv(), bytes(10)));
    env.config.approved.push(u32::MAX);
    register(&mut env, &mut client, bytes(20), bytes(21), u32::MAX, 2_000);
    assert!(client.is_valid_proof(&env.inv(), bytes(20)));
}

#[test]
fn register_proof_schema_version_zero_rejected() {
    let (mut env, mut client, _admin) = setup();
    let result = try_register_proof(&mut env, &mut client, bytes(1), bytes(2), address(ISSUER), 0, 2_000);
    assert_eq!(result, Err(Rejection::Typed(ProofError::InvalidSchemaVersion)));
}

#[test]
fn register_proof_expiration_boundaries() {
    let (mut env, mut client, _admin) = setup();
    let current_time = env.timestamp();
    register(&mut env, &mut client, bytes(1), bytes(2), 1, current_time + 1);
    assert!(client.is_valid_proof(&env.inv(), bytes(1)));
    register(&mut env, &mut client, bytes(10), bytes(11), 1, current_time + 365 * 24 * 3600);
    assert!(client.is_valid_proof(&env.inv(), bytes(10)));
    register(&mut env, &mut client, bytes(20), bytes(21), 1, u64::MAX);
    assert!(client.is_valid_proof(&env.inv(), bytes(20)));
}

#[test]
fn register_proof_expiration_at_current_time_rejected() {
    let (mut env, mut client, _admin) = setup();
    let current_time = env.timestamp();
    let result = try_register_proof(&mut env, &mut client, bytes(1), bytes(2), address(ISSUER), 1, current_time);
    assert_eq!(result, Err(Rejection::Typed(ProofError::ProofExpired)));
}

#[test]
fn register_proof_expiration_in_past_rejected() {
    let (mut env, mut client, _admin) = setup();
    env.ledger.timestamp = 5_000;
    let current_time = env.timestamp();
    let result = try_register_proof(&mut env, &mut client, bytes(1), bytes(2), address(ISSUER), 1, current_time - 1);
    assert_eq!(result, Err(Rejection::Typed(ProofError::ProofExpired)));
}

#[test]
fn failed_register_proof_schema_zero_leaves_state_unchanged() {
    let (mut env, mut client, _admin) = setup();
    let proof_id = bytes(99);
    assert!(client.proofs.get(&proof_id).is_none());
    assert!(try_register_proof(&mut env, &mut client, proof_id, bytes(88), address(ISSUER), 0, 2_000).is_err());
    assert!(client.proofs.get(&proof_id).is_none());
    assert!(client.proof_ttl.get(&proof_id).is_none());
}

#[test]
fn failed_register_proof_expired_leaves_state_unchanged() {
    let (mut env, mut client, _admin) = setup();
    let current_time = env.timestamp();
    let proof_id = bytes(77);
    assert!(try_register_proof(&mut env, &mut client, proof_id, bytes(66), address(ISSUER), 1, current_time).is_err());
    assert!(client.proofs.get(&proof_id).is_none());
}

#[test]
fn lib_contract_version_upgrade_boundaries() {
    let (mut env, mut client, _admin) = setup();
    assert_eq!(client.get_contract_version(), 1);
    client.approve_upgrade(&env.inv(), bytes(1), 2).unwrap();
    let next = env.sequence() + UPGRADE_TIMELOCK_LEDGERS;
    env.set_sequence_number(next);
    client.upgrade_contract(&env.inv(), bytes(1)).unwrap();
    assert_eq!(client.get_contract_version(), 2);
    client.approve_upgrade(&env.inv(), bytes(2), u32::MAX).unwrap();
    let next = env.sequence() + UPGRADE_TIMELOCK_LEDGERS;
    env.set_sequence_number(next);
    client.upgrade_contract(&env.inv(), bytes(2)).unwrap();
    assert_eq!(client.get_contract_version(), u32::MAX);
}

// ── Initialization ────────────────────────────────────────────────

#[test]
fn lib_initialization_writes_exactly_documented_state() {
    let env = fresh_env(true);
    let mut client = new_registry();
    assert_eq!(client.get_admin(), Err(ContractError::NotInitialized));
    initialize(&env, &mut client, address(ADMIN), address(ISSUER_REGISTRY_ID), address(PROTOCOL_CONFIG_ID)).unwrap();
    assert_eq!(client.get_admin(), Ok(address(ADMIN)));
    assert_eq!(client.get_issuer_registry(), Ok(address(ISSUER_REGISTRY_ID)));
    assert_eq!(client.get_protocol_config(), Ok(address(PROTOCOL_CONFIG_ID)));
    assert_eq!(client.get_contract_version(), 1);
    assert_eq!(client.get_dependency_versions(), Ok((1, 1)));
    assert!(client.instance_live_until.is_some());
}

#[test]
fn lib_reinitialization_by_same_admin_fails_atomically() {
    let (env, mut client, admin) = setup();
    let version = client.get_contract_version();
    let registry = client.get_issuer_registry();
    let result = initialize(&env, &mut client, admin, address(ISSUER_REGISTRY_ID), address(OTHER));
    assert_eq!(result, Err(Rejection::Typed(ContractError::AlreadyInitialized)));
    assert_eq!(client.get_admin(), Ok(admin));
    assert_eq!(client.get_issuer_registry(), registry);
    assert_eq!(client.get_contract_version(), version);
}

#[test]
fn reinitialization_with_different_dependencies_fails_atomically() {
    let (env, mut client, admin) = setup();
    let ir = client.get_issuer_registry();
    let pc = client.get_protocol_config();
    assert!(initialize(&env, &mut client, admin, address(OTHER), address(ISSUER)).is_err());
    assert_eq!(client.get_issuer_registry(), ir);
    assert_eq!(client.get_protocol_config(), pc);
}

#[test]
fn reinitialization_by_different_admin_fails() {
    let (env, mut client, admin) = setup();
    assert!(initialize(&env, &mut client, address(ISSUER), address(ISSUER_REGISTRY_ID), address(PROTOCOL_CONFIG_ID)).is_err());
    assert_eq!(client.get_admin(), Ok(admin));
}

#[test]
fn lib_reinitialization_guard_is_absolute() {
    let (env, mut client, admin) = setup();
    for _attempt in 1..=3 {
        assert!(initialize(&env, &mut client, admin, address(ISSUER_REGISTRY_ID), address(OTHER)).is_err());
        assert_eq!(client.get_admin(), Ok(admin));
    }
}

#[test]
fn lib_initialization_state_stable_across_operations() {
    let (mut env, mut client, admin) = setup();
    assert_eq!(client.get_admin(), Ok(admin));
    assert_eq!(client.get_contract_version(), 1);
    register(&mut env, &mut client, bytes(1), bytes(2), 1, 2_000);
    assert_eq!(client.get_admin(), Ok(admin));
    assert_eq!(client.get_issuer_registry(), Ok(address(ISSUER_REGISTRY_ID)));
    assert_eq!(client.get_protocol_config(), Ok(address(PROTOCOL_CONFIG_ID)));
    assert_eq!(client.get_contract_version(), 1);
}

#[test]
fn proof_registry_initialization_spec_summary() {
    let env = fresh_env(true);
    let mut client = new_registry();
    initialize(&env, &mut client, address(ADMIN), address(ISSUER_REGISTRY_ID), address(PROTOCOL_CONFIG_ID)).unwrap();
    assert_eq!(client.get_admin(), Ok(address(ADMIN)));
    assert_eq!(client.get_contract_version(), 1);
    assert!(initialize(&env, &mut client, address(ADMIN), address(ISSUER_REGISTRY_ID), address(PROTOCOL_CONFIG_ID)).is_err());
}

#[test]
fn initialization_rejects_invalid_dependency_addresses() {
    let env = fresh_env(true);
    let mut client = new_registry();
    let same = initialize(&env, &mut client, address(ADMIN), address(ISSUER_REGISTRY_ID), address(ISSUER_REGISTRY_ID));
    assert_eq!(same, Err(Rejection::Typed(ContractError::InvalidInput)));
    let itself = initialize(&env, &mut client, address(ADMIN), address(CONTRACT_ID), address(PROTOCOL_CONFIG_ID));
    assert_eq!(itself, Err(Rejection::Typed(ContractError::InvalidInput)));
    let mut zero = [b'A'; 56];
    zero[0] = b'G';
    zero[53] = b'W';
    zero[54] = b'H';
    zero[55] = b'F';
    let sentinel = initialize(&env, &mut client, address(ADMIN), Address { strkey: zero }, address(PROTOCOL_CONFIG_ID));
    assert_eq!(sentinel, Err(Rejection::Typed(ContractError::InvalidInput)));
    assert_eq!(client.get_admin(), Err(ContractError::NotInitialized));
}

#[test]
fn initialization_rejects_an_implausible_dependency_version() {
    let env = fresh_env(true);
    let mut client = new_registry();
    let result = client.initialize(&env.inv(), address(ADMIN), address(ISSUER_REGISTRY_ID), address(PROTOCOL_CONFIG_ID), Some(101), Some(1));
    assert_eq!(result, Err(Rejection::Typed(ContractError::InvalidInput)));
    let result = client.initialize(&env.inv(), address(ADMIN), address(ISSUER_REGISTRY_ID), address(PROTOCOL_CONFIG_ID), None, Some(7));
    assert_eq!(result, Ok(()));
    assert_eq!(client.get_dependency_versions(), Ok((1, 7)));
}

// ── Initialization order ──────────────────────────────────────────

#[test]
fn cross_contract_initialization_correct_order_succeeds() {
    let mut env = fresh_env(true);
    assert!(env.config.approved.contains(&1));
    let inv = env.inv();
    assert!(env.issuers.is_active_address(&inv, address(ISSUER)));
    let mut client = new_registry();
    initialize(&env, &mut client, address(ADMIN), address(ISSUER_REGISTRY_ID), address(PROTOCOL_CONFIG_ID)).unwrap();
    assert_eq!(client.get_admin(), Ok(address(ADMIN)));
    assert_eq!(client.get_contract_version(), 1);
    register(&mut env, &mut client, bytes(1), bytes(2), 1, 2_000);
    assert!(client.is_valid_proof(&env.inv(), bytes(1)));
}

#[test]
fn proof_registry_init_with_uninitialized_dependencies_defers_validation() {
    let mut env = fresh_env(false);
    let mut client = new_registry();
    initialize(&env, &mut client, address(ADMIN), address(ISSUER_REGISTRY_ID), address(PROTOCOL_CONFIG_ID)).unwrap();
    assert_eq!(client.get_admin(), Ok(address(ADMIN)));
    let result = try_register_proof(&mut env, &mut client, bytes(1), bytes(2), address(ISSUER), 1, 2_000);
    assert!(result.is_err(), "proof registration must fail with uninitialized dependencies");
}

#[test]
fn proof_registry_swapped_dependencies_fails_at_runtime() {
    let mut env = fresh_env(true);
    let mut client = new_registry();
    initialize(&env, &mut client, address(ADMIN), address(PROTOCOL_CONFIG_ID), address(ISSUER_REGISTRY_ID)).unwrap();
    assert_eq!(client.get_issuer_registry(), Ok(address(PROTOCOL_CONFIG_ID)));
    assert_eq!(client.get_protocol_config(), Ok(address(ISSUER_REGISTRY_ID)));
    let inv = env.inv();
    let issuer = address(ISSUER);
    assert!(client.registration_precheck(&inv, &issuer, 1, 2_000).is_none());
    let result = client.register_proof(
        &inv,
        bytes(1),
        bytes(2),
        issuer,
        1,
        2_000,
        DependencyReply::Failed,
        DependencyReply::Failed,
        DependencyReply::Failed,
    );
    assert_eq!(result, Err(Rejection::Aborted(Abort::DependencyFailure)));
}

#[test]
fn proof_registry_initialized_before_dependencies_fails_at_operations() {
    let mut env = fresh_env(false);
    let mut client = new_registry();
    initialize(&env, &mut client, address(ADMIN), address(ISSUER_REGISTRY_ID), address(PROTOCOL_CONFIG_ID)).unwrap();
    let inv = env.inv();
    env.issuers.initialize(&inv, address(ADMIN)).unwrap();
    env.config.approved.push(1);
    env.register_issuer(bytes(9), address(ISSUER));
    register(&mut env, &mut client, bytes(1), bytes(2), 1, 2_000);
    assert!(client.is_valid_proof(&env.inv(), bytes(1)));
}

#[test]
fn proof_registry_operations_fail_without_dependency_configuration() {
    let mut env = fresh_env(false);
    let inv = env.inv();
    env.issuers.initialize(&inv, address(ADMIN)).unwrap();
    let mut client = new_registry();
    initialize(&env, &mut client, address(ADMIN), address(ISSUER_REGISTRY_ID), address(PROTOCOL_CONFIG_ID)).unwrap();
    let result = try_register_proof(&mut env, &mut client, bytes(1), bytes(2), address(ISSUER), 1, 2_000);
    assert_eq!(result, Err(Rejection::Typed(ProofError::SchemaVersionNotApproved)));
    env.config.approved.push(1);
    let result = try_register_proof(&mut env, &mut client, bytes(2), bytes(3), address(ISSUER), 1, 2_000);
    assert_eq!(result, Err(Rejection::Typed(ProofError::InvalidSchemaVersion)));
    env.register_issuer(bytes(9), address(ISSUER));
    register(&mut env, &mut client, bytes(3), bytes(4), 1, 2_000);
    assert!(client.is_valid_proof(&env.inv(), bytes(3)));
}

#[test]
fn complete_system_initialization_happy_path() {
    let (mut env, mut client, admin) = setup();
    assert_eq!(env.issuers.get_admin(), Ok(admin));
    assert_eq!(client.get_admin(), Ok(admin));
    let inv = env.inv();
    assert!(env.issuers.initialize(&inv, address(OTHER)).is_err());
    assert!(initialize(&env, &mut client, address(OTHER), address(ISSUER_REGISTRY_ID), address(PROTOCOL_CONFIG_ID)).is_err());
    register(&mut env, &mut client, bytes(1), bytes(2), 1, 2_000);
    assert!(client.is_valid_proof(&env.inv(), bytes(1)));
    env.register_issuer(bytes(99), address(OTHER));
    let inv = env.inv();
    assert!(env.issuers.is_active_issuer(&inv, bytes(99)));
}

// ── Precondition codes ────────────────────────────────────────────

#[test]
fn register_proof_succeeds_when_all_preconditions_met() {
    let (mut env, mut client, _admin) = setup();
    let proof_id = bytes(200);
    let result = try_register_proof(&mut env, &mut client, proof_id, bytes(201), address(ISSUER), 1, 2_000);
    assert!(result.is_ok());
    assert!(client.is_valid_proof(&env.inv(), proof_id));
}

#[test]
fn register_proof_returns_contract_paused_when_paused() {
    let (mut env, mut client, _admin) = setup();
    env.config.paused = true;
    let result = try_register_proof(&mut env, &mut client, bytes(210), bytes(211), address(ISSUER), 1, 2_000);
    assert_eq!(result, Err(Rejection::Typed(ProofError::InvalidSchemaVersion)));
    assert_eq!(ProofError::InvalidSchemaVersion.code(), 304);
}

#[test]
fn register_proof_returns_issuer_inactive_when_issuer_not_active() {
    let (mut env, mut client, _admin) = setup();
    let inactive_issuer = address(OTHER);
    env.register_issuer(bytes(15), inactive_issuer);
    env.suspend_issuer(bytes(15));
    let result = try_register_proof(&mut env, &mut client, bytes(220), bytes(221), inactive_issuer, 1, 2_000);
    assert_eq!(result, Err(Rejection::Typed(ProofError::InvalidSchemaVersion)));
}

#[test]
fn register_proof_returns_unsupported_schema_for_unknown_schema() {
    let (mut env, mut client, _admin) = setup();
    let result = try_register_proof(&mut env, &mut client, bytes(230), bytes(231), address(ISSUER), 99, 2_000);
    assert_eq!(result, Err(Rejection::Typed(ProofError::SchemaVersionNotApproved)));
    assert_eq!(ProofError::SchemaVersionNotApproved.code(), 305);
    assert_ne!(ProofError::SchemaVersionNotApproved.code(), ProofError::InvalidSchemaVersion.code());
}

#[test]
fn register_proof_returns_malformed_input_for_bad_proof_data() {
    let (mut env, mut client, _admin) = setup();
    let result = try_register_proof(&mut env, &mut client, bytes(240), bytes(241), address(ISSUER), 0, 2_000);
    assert_eq!(result, Err(Rejection::Typed(ProofError::InvalidSchemaVersion)));
}

#[test]
fn error_codes_are_unique_across_enum() {
    let codes: Vec<u32> = vec![
        ProofError::ProofAlreadyRegistered.code(),
        ProofError::ProofNotFound.code(),
        ProofError::ProofAlreadyRevoked.code(),
        ProofError::ProofExpired.code(),
        ProofError::InvalidSchemaVersion.code(),
        ProofError::SchemaVersionNotApproved.code(),
        ProofError::InvalidAddress.code(),
    ];
    let mut sorted = codes.clone();
    sorted.sort();
    sorted.dedup();
    assert_eq!(codes.len(), sorted.len(), "ProofError codes must all be unique");
}

#[test]
fn auth_failure_is_not_collapsed_into_new_codes() {
    let (mut env, mut client, _admin) = setup();
    env.signers = Some(vec![]);
    let result = try_register_proof(&mut env, &mut client, bytes(250), bytes(251), address(ISSUER), 1, 2_000);
    assert_eq!(result, Err(Rejection::Aborted(Abort::Unauthorized)));
}

#[test]
fn contract_paused_checked_before_issuer() {
    let (mut env, mut client, _admin) = setup();
    env.config.paused = true;
    let inactive_issuer = address(OTHER);
    env.register_issuer(bytes(17), inactive_issuer);
    env.suspend_issuer(bytes(17));
    let inv = env.inv();
    let result = client.register_proof(
        &inv,
        bytes(160),
        bytes(161),
        inactive_issuer,
        1,
        2_000,
        DependencyReply::Answered(true),
        DependencyReply::Answered(true),
        DependencyReply::Failed,
    );
    assert_eq!(result, Err(Rejection::Typed(ProofError::InvalidSchemaVersion)));
    assert_eq!(
        next_registration_read(&vec![DependencyReply::Answered(true)], 1, inactive_issuer),
        None,
        "a paused protocol ends the reads before the issuer is consulted"
    );
}

// A request here fails both dependency checks: the schema version is not
// approved and the issuer is suspended. Registration reads its dependencies
// in the documented order (pause flag, schema version, issuer), and the shared
// `ProofError` has no issuer-inactive code, so the schema check answers first.
#[test]
fn issuer_checked_before_schema() {
    let (mut env, mut client, _admin) = setup();
    let inactive_issuer = address(OTHER);
    env.register_issuer(bytes(19), inactive_issuer);
    env.suspend_issuer(bytes(19));
    let result = try_register_proof(&mut env, &mut client, bytes(170), bytes(171), inactive_issuer, 99, 2_000);
    assert_eq!(result, Err(Rejection::Typed(ProofError::SchemaVersionNotApproved)));
}

#[test]
fn existing_error_code_values_unchanged() {
    assert_eq!(ProofError::ProofAlreadyRegistered.code(), 300);
    assert_eq!(ProofError::ProofNotFound.code(), 301);
    assert_eq!(ProofError::ProofAlreadyRevoked.code(), 302);
    assert_eq!(ProofError::ProofExpired.code(), 303);
    assert_eq!(ProofError::InvalidSchemaVersion.code(), 304);
    assert_eq!(ProofError::SchemaVersionNotApproved.code(), 305);
    assert_eq!(ProofError::InvalidAddress.code(), 306);
}

#[test]
fn new_codes_do_not_reuse_old_values() {
    let existing = [300_u32, 301, 302, 303, 304, 305, 306];
    for code in existing {
        let e = ProofError::from_code(code).unwrap();
        assert_eq!(e.code(), code);
    }
    for code in [299_u32, 307, 308, 309, 310] {
        assert_eq!(ProofError::from_code(code), None, "code {code} names no ProofError");
    }
}

// ── Upgrade timelock ──────────────────────────────────────────────

#[test]
fn test_approve_stores_created_at() {
    let (env, mut client, _) = setup();
    let start_ledger = env.sequence();
    client.approve_upgrade(&env.inv(), make_wasm_hash(), 2).unwrap();
    let approval = client.upgrade_approval.expect("Approval must be stored");
    assert_eq!(approval.created_at, start_ledger);
}

#[test]
fn test_approve_stores_earliest_execution() {
    let (env, mut client, _) = setup();
    let start = env.sequence();
    client.approve_upgrade(&env.inv(), make_wasm_hash(), 2).unwrap();
    assert_eq!(client.upgrade_approval.unwrap().earliest_execution, start.saturating_add(UPGRADE_TIMELOCK_LEDGERS));
}

#[test]
fn test_approve_stores_expires_at() {
    let (env, mut client, _) = setup();
    let start = env.sequence();
    client.approve_upgrade(&env.inv(), make_wasm_hash(), 2).unwrap();
    assert_eq!(client.upgrade_approval.unwrap().expires_at, start.saturating_add(UPGRADE_APPROVAL_EXPIRY_LEDGERS));
}

#[test]
fn test_re_approval_resets_all_timing_metadata() {
    let (mut env, mut client, _) = setup();
    client.approve_upgrade(&env.inv(), make_wasm_hash(), 2).unwrap();
    let first = client.upgrade_approval.unwrap();
    let next = env.sequence() + 1000;
    env.set_sequence_number(next);
    client.approve_upgrade(&env.inv(), make_wasm_hash(), 2).unwrap();
    let second = client.upgrade_approval.unwrap();
    assert_ne!(second.created_at, first.created_at);
    assert_ne!(second.earliest_execution, first.earliest_execution);
    assert_ne!(second.expires_at, first.expires_at);
}

#[test]
fn test_execute_before_timelock_rejected() {
    let (env, mut client, _) = setup();
    let hash = make_wasm_hash();
    client.approve_upgrade(&env.inv(), hash, 2).unwrap();
    let result = client.upgrade_contract(&env.inv(), hash);
    assert_eq!(result, Err(Rejection::Aborted(Abort::TimelockPending)));
}

#[test]
fn test_execute_exactly_at_timelock_succeeds() {
    let (mut env, mut client, _) = setup();
    let hash = make_wasm_hash();
    client.approve_upgrade(&env.inv(), hash, 2).unwrap();
    let next = env.sequence() + UPGRADE_TIMELOCK_LEDGERS;
    env.set_sequence_number(next);
    assert!(client.upgrade_contract(&env.inv(), hash).is_ok());
}

#[test]
fn test_execute_one_before_timelock_rejected() {
    let (mut env, mut client, _) = setup();
    let hash = make_wasm_hash();
    client.approve_upgrade(&env.inv(), hash, 2).unwrap();
    let next = env.sequence() + UPGRADE_TIMELOCK_LEDGERS - 1;
    env.set_sequence_number(next);
    assert!(client.upgrade_contract(&env.inv(), hash).is_err());
}

#[test]
fn test_execute_after_expiry_rejected() {
    let (mut env, mut client, _) = setup();
    let hash = make_wasm_hash();
    client.approve_upgrade(&env.inv(), hash, 2).unwrap();
    let next = env.sequence() + UPGRADE_APPROVAL_EXPIRY_LEDGERS + 1;
    env.set_sequence_number(next);
    assert_eq!(client.upgrade_contract(&env.inv(), hash), Err(Rejection::Aborted(Abort::ApprovalExpired)));
}

#[test]
fn test_execute_exactly_at_expiry_rejected() {
    let (mut env, mut client, _) = setup();
    let hash = make_wasm_hash();
    client.approve_upgrade(&env.inv(), hash, 2).unwrap();
    let next = env.sequence() + UPGRADE_APPROVAL_EXPIRY_LEDGERS;
    env.set_sequence_number(next);
    assert_eq!(client.upgrade_contract(&env.inv(), hash), Err(Rejection::Aborted(Abort::ApprovalExpired)));
}

#[test]
fn test_failed_execute_leaves_approval_unchanged() {
    let (env, mut client, _) = setup();
    let hash = make_wasm_hash();
    client.approve_upgrade(&env.inv(), hash, 2).unwrap();
    let before = client.upgrade_approval;
    let _ = client.upgrade_contract(&env.inv(), hash);
    assert!(client.upgrade_approval.is_some(), "Failed execute must not remove approval");
    assert_eq!(client.upgrade_approval, before);
}

#[test]
fn test_revoke_removes_approval() {
    let (env, mut client, _) = setup();
    let hash = make_wasm_hash();
    client.approve_upgrade(&env.inv(), hash, 2).unwrap();
    client.revoke_upgrade(&env.inv(), hash).unwrap();
    assert!(client.upgrade_approval.is_none(), "Revoke must remove approval");
}

#[test]
fn test_revoke_before_timelock_succeeds() {
    let (env, mut client, _) = setup();
    let hash = make_wasm_hash();
    client.approve_upgrade(&env.inv(), hash, 2).unwrap();
    assert!(client.revoke_upgrade(&env.inv(), hash).is_ok());
}

#[test]
fn test_revoke_after_expiry_succeeds_cleanup() {
    let (mut env, mut client, _) = setup();
    let hash = make_wasm_hash();
    client.approve_upgrade(&env.inv(), hash, 2).unwrap();
    let next = env.sequence() + UPGRADE_APPROVAL_EXPIRY_LEDGERS + 1;
    env.set_sequence_number(next);
    assert!(client.revoke_upgrade(&env.inv(), hash).is_ok());
}

#[test]
fn test_revoke_idempotent_when_no_approval() {
    let (env, mut client, _) = setup();
    assert!(client.revoke_upgrade(&env.inv(), make_wasm_hash()).is_ok());
}

#[test]
fn test_approve_at_max_ledger_does_not_overflow() {
    let (mut env, mut client, _) = setup();
    env.set_sequence_number(u32::MAX - 7_000_000);
    assert!(client.approve_upgrade(&env.inv(), make_wasm_hash(), 2).is_ok());
    env.set_sequence_number(u32::MAX - 100);
    client.approve_upgrade(&env.inv(), make_wasm_hash(), 2).unwrap();
    let approval = client.upgrade_approval.unwrap();
    assert_eq!(approval.earliest_execution, u32::MAX);
    assert_eq!(approval.expires_at, u32::MAX);
}

#[test]
fn test_saturating_add_caps_at_u32_max() {
    let near_max: u32 = u32::MAX - 100;
    let result = near_max.saturating_add(UPGRADE_TIMELOCK_LEDGERS);
    assert_eq!(result, u32::MAX, "saturating_add must cap at u32::MAX");
}

#[test]
fn test_cannot_replay_used_approval() {
    let (mut env, mut client, _) = setup();
    let hash = make_wasm_hash();
    client.approve_upgrade(&env.inv(), hash, 2).unwrap();
    let next = env.sequence() + UPGRADE_TIMELOCK_LEDGERS;
    env.set_sequence_number(next);
    client.upgrade_contract(&env.inv(), hash).unwrap();
    assert!(client.upgrade_contract(&env.inv(), hash).is_err(), "Replaying used approval must fail");
}

#[test]
fn test_hash_mismatch_rejected() {
    let (mut env, mut client, _) = setup();
    client.approve_upgrade(&env.inv(), make_wasm_hash(), 2).unwrap();
    let next = env.sequence() + UPGRADE_TIMELOCK_LEDGERS;
    env.set_sequence_number(next);
    assert!(client.upgrade_contract(&env.inv(), bytes(2)).is_err());
}

#[test]
fn test_approve_requires_admin_auth() {
    let (mut env, mut client, _) = setup();
    env.signers = Some(vec![]);
    assert!(client.approve_upgrade(&env.inv(), make_wasm_hash(), 2).is_err(), "Non-admin must not approve");
    assert!(!client.is_upgrade_allowed(make_wasm_hash()));
}

#[test]
fn test_execute_requires_admin_auth() {
    let (mut env, mut client, _) = setup();
    client.approve_upgrade(&env.inv(), make_wasm_hash(), 2).unwrap();
    env.signers = Some(vec![]);
    assert!(client.upgrade_contract(&env.inv(), make_wasm_hash()).is_err(), "Non-admin must not execute");
}

#[test]
fn test_revoke_requires_admin_auth() {
    let (mut env, mut client, _) = setup();
    client.approve_upgrade(&env.inv(), make_wasm_hash(), 2).unwrap();
    env.signers = Some(vec![]);
    assert!(client.revoke_upgrade(&env.inv(), make_wasm_hash()).is_err(), "Non-admin must not revoke");
    assert!(client.is_upgrade_allowed(make_wasm_hash()));
}

#[test]
fn lib_configuration_digest_matches_host_helper_and_version_changes() {
    let (mut env, mut client, admin) = setup();
    let ir = client.get_issuer_registry().unwrap();
    let pc = client.get_protocol_config().unwrap();
    let initial = client.get_config_digest().unwrap().unwrap();
    assert_eq!(ProofRegistryContract::get_config_digest_version(), CONFIG_DIGEST_VERSION);
    assert_eq!(initial, proof_registry_digest(&admin, &ir, &pc, 1));
    let wasm_hash = bytes(0xd2);
    client.approve_upgrade(&env.inv(), wasm_hash, 2).unwrap();
    let next = env.sequence() + UPGRADE_TIMELOCK_LEDGERS;
    env.set_sequence_number(next);
    client.upgrade_contract(&env.inv(), wasm_hash).unwrap();
    assert_ne!(client.get_config_digest().unwrap().unwrap(), initial);
}

#[test]
fn ttl_status_tracks_only_caller_named_proof_entries() {
    let (mut env, mut client, _admin) = setup();
    let proof_id = bytes(0xe4);
    let unknown_id = bytes(0xe5);
    assert_eq!(client.get_instance_ttl_status(&env.inv()).health, TtlHealth::Healthy);
    assert_eq!(client.get_proof_ttl_status(&env.inv(), unknown_id).health, TtlHealth::Missing);
    register(&mut env, &mut client, proof_id, bytes(0xe6), 1, 2_000);
    assert_eq!(client.get_proof_ttl_status(&env.inv(), proof_id).health, TtlHealth::Healthy);
}

// ── Receipts, history, approval metadata ──────────────────────────

#[test]
fn an_upgrade_leaves_a_receipt_and_a_history_record() {
    let (mut env, mut client, admin) = setup();
    assert_eq!(client.get_latest_upgrade_receipt(), None);
    assert_eq!(client.get_upgrade_history_count(), 0);
    let hash = bytes(0x51);
    client.approve_upgrade(&env.inv(), hash, 2).unwrap();
    let next = env.sequence() + UPGRADE_TIMELOCK_LEDGERS;
    env.set_sequence_number(next);
    env.ledger.timestamp = 777;
    client.upgrade_contract(&env.inv(), hash).unwrap();
    let receipt = client.get_latest_upgrade_receipt().unwrap();
    assert_eq!(receipt.wasm_hash, hash);
    assert_eq!(receipt.old_version, 1);
    assert_eq!(receipt.new_version, 2);
    assert_eq!(receipt.upgraded_at, 777);
    assert_eq!(receipt.upgraded_by, admin);
    assert_eq!(client.get_upgrade_history_count(), 1);
    let page = client.get_upgrade_history(0, 10);
    assert_eq!(page.len(), 1);
    assert_eq!(page[0].old_wasm_hash, Hash32::zero());
    assert_eq!(page[0].new_wasm_hash, hash);
    assert_eq!(page[0].ledger_sequence, UPGRADE_TIMELOCK_LEDGERS);
    assert!(client.get_upgrade_history(1, 10).is_empty());
    assert!(client.get_upgrade_history(0, 0).is_empty());
}

#[test]
fn approval_metadata_moves_from_active_to_executed() {
    let (mut env, mut client, admin) = setup();
    let hash = bytes(0x61);
    assert_eq!(client.get_upgrade_approval_metadata(&env.inv(), hash), ApprovalQuery::NotFound);
    client.approve_upgrade(&env.inv(), hash, 2).unwrap();
    match client.get_upgrade_approval_metadata(&env.inv(), hash) {
        ApprovalQuery::Found(m) => {
            assert_eq!(m.status, ApprovalStatus::Active);
            assert_eq!(m.approver, admin);
            assert_eq!(m.target_version, 2);
            assert_eq!(m.execution_ledger, None);
        },
        other => panic!("unexpected {:?}", other),
    }
    let next = env.sequence() + UPGRADE_TIMELOCK_LEDGERS;
    env.set_sequence_number(next);
    client.upgrade_contract(&env.inv(), hash).unwrap();
    match client.get_upgrade_approval_metadata(&env.inv(), hash) {
        ApprovalQuery::Found(m) => {
            assert_eq!(m.status, ApprovalStatus::Executed);
            assert_eq!(m.execution_ledger, Some(next));
        },
        other => panic!("unexpected {:?}", other),
    }
}

#[test]
fn revoking_the_pending_approval_keeps_the_allowlist_entry() {
    let (env, mut client, _) = setup();
    let hash = bytes(0x71);
    client.approve_upgrade(&env.inv(), hash, 2).unwrap();
    client.revoke_upgrade_approval(&env.inv()).unwrap();
    assert!(client.upgrade_approval.is_none());
    assert!(client.is_upgrade_allowed(hash));
}

// ── Scoped pauses ─────────────────────────────────────────────────

#[test]
fn a_registration_pause_blocks_registration_only() {
    let (mut env, mut client, _) = setup();
    register(&mut env, &mut client, bytes(1), bytes(2), 1, 2_000);
    client.pause_scope(&env.inv(), PauseScope::Registration).unwrap();
    assert!(client.is_scope_paused(PauseScope::Registration));
    let result = try_register_proof(&mut env, &mut client, bytes(3), bytes(4), address(ISSUER), 1, 2_000);
    assert_eq!(result, Err(Rejection::Typed(ProofError::InvalidSchemaVersion)));
    assert!(client.revoke_proof(&env.inv(), bytes(1)).is_ok());
    client.unpause_scope(&env.inv(), PauseScope::Registration).unwrap();
    assert!(!client.is_scope_paused(PauseScope::Registration));
    register(&mut env, &mut client, bytes(3), bytes(4), 1, 2_000);
}

#[test]
fn a_revocation_pause_blocks_revocation() {
    let (mut env, mut client, _) = setup();
    register(&mut env, &mut client, bytes(1), bytes(2), 1, 2_000);
    client.pause_scope(&env.inv(), PauseScope::Revocation).unwrap();
    assert_eq!(client.revoke_proof(&env.inv(), bytes(1)), Err(Rejection::Typed(ProofError::ProofAlreadyRevoked)));
    assert!(!client.is_revoked(&env.inv(), bytes(1)));
}

#[test]
fn an_upgrade_pause_blocks_governance() {
    let (env, mut client, _) = setup();
    client.pause_scope(&env.inv(), PauseScope::Upgrade).unwrap();
    assert_eq!(client.approve_upgrade(&env.inv(), bytes(1), 2), Err(Rejection::Aborted(Abort::UpgradePaused)));
}

#[test]
fn the_global_scope_is_never_reported_paused() {
    let (env, mut client, _) = setup();
    client.pause_scope(&env.inv(), PauseScope::Global).unwrap();
    assert!(!client.is_scope_paused(PauseScope::Global));
}

// ── Archival ──────────────────────────────────────────────────────

#[test]
fn an_expired_proof_is_archived_once() {
    let (mut env, mut client, _) = setup();
    register(&mut env, &mut client, bytes(1), bytes(2), 1, 2_000);
    assert_eq!(client.archive_proof(&env.inv(), bytes(1)), Err(Rejection::Typed(ProofError::InvalidAddress)));
    env.ledger.timestamp = 2_001;
    let event = client.archive_proof(&env.inv(), bytes(1)).unwrap();
    assert!(event.is_some());
    assert!(client.is_archived(bytes(1)));
    let archived = client.get_archived_proof(bytes(1)).unwrap();
    assert_eq!(archived.commitment_hash, bytes(2));
    assert!(!archived.was_revoked);
    assert_eq!(archived.archived_at, 2_001);
    assert_eq!(client.archive_proof(&env.inv(), bytes(1)), Ok(None));
    assert_eq!(client.get_archived_proof(bytes(5)), Err(ProofError::ProofNotFound));
}

#[test]
fn a_revoked_proof_may_be_archived_before_expiry() {
    let (mut env, mut client, _) = setup();
    register(&mut env, &mut client, bytes(1), bytes(2), 1, 2_000);
    client.admin_revoke_proof(&env.inv(), bytes(1)).unwrap();
    assert!(client.archive_proof(&env.inv(), bytes(1)).unwrap().is_some());
    assert!(client.get_archived_proof(bytes(1)).unwrap().was_revoked);
    assert!(client.is_revoked(&env.inv(), bytes(1)));
}

#[test]
fn revoking_twice_is_rejected() {
    let (mut env, mut client, _) = setup();
    register(&mut env, &mut client, bytes(1), bytes(2), 1, 2_000);
    client.revoke_proof(&env.inv(), bytes(1)).unwrap();
    assert_eq!(client.revoke_proof(&env.inv(), bytes(1)), Err(Rejection::Typed(ProofError::ProofAlreadyRevoked)));
    assert_eq!(client.revoke_proof(&env.inv(), bytes(7)), Err(Rejection::Typed(ProofError::ProofNotFound)));
}

#[test]
fn a_proof_is_valid_through_its_expiry_instant() {
    let (mut env, mut client, _) = setup();
    register(&mut env, &mut client, bytes(1), bytes(2), 1, 2_000);
    env.ledger.timestamp = 2_000;
    assert!(client.is_valid_proof(&env.inv(), bytes(1)));
    env.ledger.timestamp = 2_001;
    assert!(!client.is_valid_proof(&env.inv(), bytes(1)));
}
