//! Who may call each mutating entry point of the two registries.

use earnproof::context::{Invocation, LedgerInfo};
use earnproof::governance::UpgradeTiming;
use earnproof::issuer_registry::IssuerRegistryContract;
use earnproof::proof_registry::{next_registration_read, DependencyReply, ProofRegistryContract, RegistrationRead};
use earnproof::records::{IssuerRecord, ProofRecord};
use earnproof::table::{Address, Hash32};

const APPROVED_SCHEMA: u32 = 1;
const FIXTURE_PROOF: u8 = 0x11;

fn addr(tag: u8) -> Address {
    let mut strkey = [tag; 56];
    strkey[0] = b'G';
    Address { strkey }
}

fn contract_addr(tag: u8) -> Address {
    let mut strkey = [tag; 56];
    strkey[0] = b'C';
    Address { strkey }
}

fn hash(v: u8) -> Hash32 {
    Hash32 { bytes: [v; 32] }
}

#[derive(Clone, Copy, Debug, PartialEq, Eq)]
enum Identity {
    Missing,
    Wrong,
    Authorized,
}

struct Deployment {
    ledger: LedgerInfo,
    admin: Address,
    issuer: Address,
    issuer_id: Hash32,
    attacker: Address,
    issuers: IssuerRegistryContract,
    proofs: ProofRegistryContract,
}

#[derive(Debug, PartialEq)]
struct Snapshot {
    issuer_admin: Option<Address>,
    issuers: Vec<(Hash32, IssuerRecord)>,
    index: Vec<(Address, Hash32)>,
    proof_admin: Option<Address>,
    proofs: Vec<(Hash32, ProofRecord)>,
}

impl Deployment {
    fn uninitialized() -> Self {
        let timing = UpgradeTiming::new(17_280, 120_960).unwrap();
        Deployment {
            ledger: LedgerInfo { timestamp: 1_000, sequence: 10, max_ttl: 6_312_000 },
            admin: addr(b'A'),
            issuer: addr(b'I'),
            issuer_id: hash(0x01),
            attacker: addr(b'X'),
            issuers: IssuerRegistryContract::new(),
            proofs: ProofRegistryContract::new(contract_addr(b'P'), timing),
        }
    }

    fn new() -> Self {
        let mut d = Self::uninitialized();
        let all = Invocation::authorized_by_all(d.ledger);
        d.issuers.initialize(&all, d.admin).unwrap();
        d.issuers.register_issuer(&all, d.issuer_id, d.issuer, hash(0xAA)).unwrap();
        d.proofs.initialize(&all, d.admin, contract_addr(b'R'), contract_addr(b'C'), Some(1), Some(1)).unwrap();
        d
    }

    fn signed(&self, identity: Identity, authority: Address, wrong: Address) -> Invocation {
        match identity {
            Identity::Missing => Invocation::authorized_by(self.ledger, vec![]),
            Identity::Wrong => Invocation::authorized_by(self.ledger, vec![wrong]),
            Identity::Authorized => Invocation::authorized_by(self.ledger, vec![authority]),
        }
    }

    fn register_proof(&mut self, inv: &Invocation, discriminator: u8) -> bool {
        let issuer = self.issuer;
        let expires = self.ledger.timestamp + 100_000;
        let mut replies: Vec<DependencyReply> = Vec::new();
        if self.proofs.registration_precheck(inv, &issuer, APPROVED_SCHEMA, expires).is_none() {
            while let Some(read) = next_registration_read(&replies, APPROVED_SCHEMA, issuer) {
                let reply = match read {
                    RegistrationRead::ProtocolPaused => DependencyReply::Answered(false),
                    RegistrationRead::SchemaApproved(_) => DependencyReply::Answered(true),
                    RegistrationRead::IssuerActive(who) => {
                        let all = Invocation::authorized_by_all(self.ledger);
                        DependencyReply::Answered(self.issuers.is_active_address(&all, who))
                    },
                };
                replies.push(reply);
            }
        }
        let reply = |k: usize| replies.get(k).copied().unwrap_or(DependencyReply::Failed);
        self.proofs
            .register_proof(inv, hash(discriminator), hash(discriminator ^ 0xFF), issuer, APPROVED_SCHEMA, expires, reply(0), reply(1), reply(2))
            .is_ok()
    }

    fn snapshot(&self) -> Snapshot {
        Snapshot {
            issuer_admin: self.issuers.admin,
            issuers: self.issuers.issuers.entries.clone(),
            index: self.issuers.address_index.entries.clone(),
            proof_admin: self.proofs.admin,
            proofs: self.proofs.proofs.entries.clone(),
        }
    }
}

struct Case {
    name: &'static str,
    uninitialized: bool,
    setup: fn(&mut Deployment),
    call: fn(&mut Deployment, Identity) -> bool,
}

fn no_setup(_: &mut Deployment) {}

fn register_fixture_proof(d: &mut Deployment) {
    let all = Invocation::authorized_by_all(d.ledger);
    assert!(d.register_proof(&all, FIXTURE_PROOF));
}

fn suspend_fixture_issuer(d: &mut Deployment) {
    let all = Invocation::authorized_by_all(d.ledger);
    let id = d.issuer_id;
    d.issuers.suspend_issuer(&all, id).unwrap();
}

fn matrix() -> Vec<Case> {
    vec![
        Case {
            name: "issuer-registry::initialize",
            uninitialized: true,
            setup: no_setup,
            call: |d, id| {
                let inv = d.signed(id, d.admin, d.attacker);
                let admin = d.admin;
                d.issuers.initialize(&inv, admin).is_ok()
            },
        },
        Case {
            name: "issuer-registry::register_issuer",
            uninitialized: false,
            setup: no_setup,
            call: |d, id| {
                let inv = d.signed(id, d.admin, d.issuer);
                d.issuers.register_issuer(&inv, hash(0x02), addr(b'N'), hash(0xAB)).is_ok()
            },
        },
        Case {
            name: "issuer-registry::update_issuer",
            uninitialized: false,
            setup: no_setup,
            call: |d, id| {
                let inv = d.signed(id, d.admin, d.issuer);
                let issuer_id = d.issuer_id;
                d.issuers.update_issuer(&inv, issuer_id, hash(0xAC)).is_ok()
            },
        },
        Case {
            name: "issuer-registry::set_issuer_metadata_commitment",
            uninitialized: false,
            setup: no_setup,
            call: |d, id| {
                let inv = d.signed(id, d.admin, d.issuer);
                let issuer_id = d.issuer_id;
                d.issuers.set_issuer_metadata_commitment(&inv, issuer_id, hash(0xAD), hash(0xAE)).is_ok()
            },
        },
        Case {
            name: "issuer-registry::suspend_issuer",
            uninitialized: false,
            setup: no_setup,
            call: |d, id| {
                let inv = d.signed(id, d.admin, d.issuer);
                let issuer_id = d.issuer_id;
                d.issuers.suspend_issuer(&inv, issuer_id).is_ok()
            },
        },
        Case {
            name: "issuer-registry::reactivate_issuer",
            uninitialized: false,
            setup: suspend_fixture_issuer,
            call: |d, id| {
                let inv = d.signed(id, d.admin, d.issuer);
                let issuer_id = d.issuer_id;
                d.issuers.reactivate_issuer(&inv, issuer_id).is_ok()
            },
        },
        Case {
            name: "issuer-registry::revoke_issuer",
            uninitialized: false,
            setup: no_setup,
            call: |d, id| {
                let inv = d.signed(id, d.admin, d.issuer);
                let issuer_id = d.issuer_id;
                d.issuers.revoke_issuer(&inv, issuer_id).is_ok()
            },
        },
        Case {
            name: "issuer-registry::rotate_issuer_address",
            uninitialized: false,
            setup: no_setup,
            call: |d, id| {
                let inv = d.signed(id, d.admin, d.issuer);
                let issuer_id = d.issuer_id;
                d.issuers.rotate_issuer_address(&inv, issuer_id, addr(b'M')).is_ok()
            },
        },
        Case {
            name: "proof-registry::initialize",
            uninitialized: true,
            setup: no_setup,
            call: |d, id| {
                let inv = d.signed(id, d.admin, d.attacker);
                let admin = d.admin;
                d.proofs.initialize(&inv, admin, contract_addr(b'R'), contract_addr(b'C'), Some(1), Some(1)).is_ok()
            },
        },
        Case {
            name: "proof-registry::register_proof",
            uninitialized: false,
            setup: no_setup,
            call: |d, id| {
                let inv = d.signed(id, d.issuer, d.attacker);
                d.register_proof(&inv, 0x21)
            },
        },
        Case {
            name: "proof-registry::revoke_proof",
            uninitialized: false,
            setup: register_fixture_proof,
            call: |d, id| {
                let inv = d.signed(id, d.issuer, d.admin);
                d.proofs.revoke_proof(&inv, hash(FIXTURE_PROOF)).is_ok()
            },
        },
        Case {
            name: "proof-registry::admin_revoke_proof",
            uninitialized: false,
            setup: register_fixture_proof,
            call: |d, id| {
                let inv = d.signed(id, d.admin, d.issuer);
                d.proofs.admin_revoke_proof(&inv, hash(FIXTURE_PROOF)).is_ok()
            },
        },
    ]
}

fn deployment_for(case: &Case) -> Deployment {
    let mut d = if case.uninitialized { Deployment::uninitialized() } else { Deployment::new() };
    (case.setup)(&mut d);
    d
}

#[test]
fn every_mutation_rejects_a_missing_identity_without_side_effects() {
    for case in matrix() {
        let mut d = deployment_for(&case);
        let before = d.snapshot();
        assert!(!(case.call)(&mut d, Identity::Missing), "{} was accepted with no authorization at all", case.name);
        assert_eq!(before, d.snapshot(), "{} changed state while rejected", case.name);
    }
}

#[test]
fn every_mutation_rejects_a_wrong_identity_without_side_effects() {
    for case in matrix() {
        let mut d = deployment_for(&case);
        let before = d.snapshot();
        assert!(!(case.call)(&mut d, Identity::Wrong), "{} was accepted when signed by the wrong identity", case.name);
        assert_eq!(before, d.snapshot(), "{} changed state while rejected", case.name);
    }
}

#[test]
fn every_mutation_succeeds_for_the_documented_authority() {
    for case in matrix() {
        let mut d = deployment_for(&case);
        assert!((case.call)(&mut d, Identity::Authorized), "{} failed for its documented authority", case.name);
    }
}

#[test]
fn read_only_entry_points_require_no_authorization() {
    let mut d = Deployment::new();
    let all = Invocation::authorized_by_all(d.ledger);
    assert!(d.register_proof(&all, 0x90));
    let none = Invocation::authorized_by(d.ledger, vec![]);
    let (issuer_id, issuer) = (d.issuer_id, d.issuer);
    assert!(d.issuers.get_admin().is_ok());
    assert!(d.issuers.get_issuer(&none, issuer_id).is_ok());
    assert!(d.issuers.get_issuer_by_address(&none, issuer).is_ok());
    assert!(d.issuers.is_active_issuer(&none, issuer_id));
    assert!(d.issuers.is_active_address(&none, issuer));
    assert!(d.proofs.get_admin().is_ok());
    assert!(d.proofs.get_issuer_registry().is_ok());
    assert!(d.proofs.get_protocol_config().is_ok());
    assert!(d.proofs.get_proof(&none, hash(0x90)).is_ok());
    assert!(d.proofs.is_valid_proof(&none, hash(0x90)));
    assert!(!d.proofs.is_revoked(&none, hash(0x90)));
}
