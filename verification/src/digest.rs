//! Configuration digests.
//!
//! Each contract publishes a digest of its configuration: the SHA-256 of the
//! XDR encoding of a tuple that starts with the digest payload version and a
//! domain symbol naming the contract, followed by the configuration values.
//! The hashing and the encoding are the Soroban SDK's; this module fixes what
//! goes into them.

use soroban_sdk::xdr::ToXdr;
use vstd::prelude::*;
use crate::table::{Address, Hash32};

verus! {

/// Version of the canonical configuration digest payload.
pub const CONFIG_DIGEST_VERSION: u32 = 1;

/// A character that a Soroban symbol may hold.
pub open spec fn is_symbol_char(c: char) -> bool {
    ||| ('a' <= c && c <= 'z')
    ||| ('A' <= c && c <= 'Z')
    ||| ('0' <= c && c <= '9')
    ||| c == '_'
}

/// Text that `soroban_sdk::Symbol::new` accepts: at most 32 symbol characters.
pub open spec fn is_symbol_text(s: Seq<char>) -> bool {
    &&& s.len() <= 32
    &&& forall|i: int| 0 <= i < s.len() ==> #[trigger] is_symbol_char(s[i])
}

/// Whether a strkey text decodes to an account (`G...`) or contract (`C...`)
/// address.
pub uninterp spec fn strkey_names_address(strkey: Seq<u8>) -> bool;

/// SHA-256 of the XDR encoding of
/// `(version, Symbol(domain), Address(admin), paused, config_version, contract_version)`.
pub uninterp spec fn protocol_config_payload_hash(
    version: u32,
    domain: Seq<char>,
    admin: Seq<u8>,
    paused: bool,
    config_version: u32,
    contract_version: u32,
) -> Seq<u8>;

/// SHA-256 of the XDR encoding of
/// `(version, Symbol(domain), Address(admin), contract_version)`.
pub uninterp spec fn issuer_registry_payload_hash(
    version: u32,
    domain: Seq<char>,
    admin: Seq<u8>,
    contract_version: u32,
) -> Seq<u8>;

/// SHA-256 of the XDR encoding of
/// `(version, Symbol(domain), Address(admin), Address(issuer_registry),
/// Address(protocol_config), contract_version)`.
pub uninterp spec fn proof_registry_payload_hash(
    version: u32,
    domain: Seq<char>,
    admin: Seq<u8>,
    issuer_registry: Seq<u8>,
    protocol_config: Seq<u8>,
    contract_version: u32,
) -> Seq<u8>;

/// The domain symbol of the protocol-config digest.
pub open spec fn protocol_config_domain() -> Seq<char> {
    "earnproof_protocol_config"@
}

/// The domain symbol of the issuer-registry digest.
pub open spec fn issuer_registry_domain() -> Seq<char> {
    "earnproof_issuer_registry"@
}

/// The domain symbol of the proof-registry digest.
pub open spec fn proof_registry_domain() -> Seq<char> {
    "earnproof_proof_registry"@
}

/// Calls `stellar_strkey::Strkey::from_string` on the address's text, read
/// as the Soroban host reads it (`String::from_utf8_lossy`), and reports
/// whether it decodes to an ed25519 account key or a contract key. These are
/// the strkeys that `soroban_sdk::Address::from_string_bytes` turns into an
/// address; it panics on every other text. Claimed: the result is the named
/// predicate of the text, and nothing more.
#[verifier::external_body]
fn decodes_as_address(address: &Address) -> (r: bool)
    ensures
        r == strkey_names_address(address@),
{
    let text = std::string::String::from_utf8_lossy(&address.strkey);
    matches!(
        stellar_strkey::Strkey::from_string(&text),
        Ok(stellar_strkey::Strkey::PublicKeyEd25519(_)) | Ok(stellar_strkey::Strkey::Contract(_))
    )
}

/// Builds the protocol-config payload tuple in a fresh `soroban_sdk::Env`,
/// encodes it with `ToXdr::to_xdr` and hashes it with
/// `Crypto::sha256`. `Symbol::new` panics on text that is not a symbol and
/// `Address::from_string_bytes` on a strkey that names no address: both are
/// required. Claimed: the digest is the named hash of the arguments.
#[verifier::external_body]
fn hash_protocol_config_payload(
    version: u32,
    domain: &str,
    admin: &Address,
    paused: bool,
    config_version: u32,
    contract_version: u32,
) -> (digest: Hash32)
    requires
        is_symbol_text(domain@),
        strkey_names_address(admin@),
    ensures
        digest@ == protocol_config_payload_hash(
            version,
            domain@,
            admin@,
            paused,
            config_version,
            contract_version,
        ),
{
    let env = soroban_sdk::Env::default();
    let admin = soroban_sdk::Address::from_string_bytes(&soroban_sdk::Bytes::from_slice(&env, &admin.strkey));
    let symbol = soroban_sdk::Symbol::new(&env, domain);
    let payload = (version, symbol, admin, paused, config_version, contract_version).to_xdr(&env);
    Hash32 { bytes: env.crypto().sha256(&payload).to_array() }
}

/// As [`hash_protocol_config_payload`], for the issuer-registry tuple.
#[verifier::external_body]
fn hash_issuer_registry_payload(
    version: u32,
    domain: &str,
    admin: &Address,
    contract_version: u32,
) -> (digest: Hash32)
    requires
        is_symbol_text(domain@),
        strkey_names_address(admin@),
    ensures
        digest@ == issuer_registry_payload_hash(version, domain@, admin@, contract_version),
{
    let env = soroban_sdk::Env::default();
    let admin = soroban_sdk::Address::from_string_bytes(&soroban_sdk::Bytes::from_slice(&env, &admin.strkey));
    let symbol = soroban_sdk::Symbol::new(&env, domain);
    let payload = (version, symbol, admin, contract_version).to_xdr(&env);
    Hash32 { bytes: env.crypto().sha256(&payload).to_array() }
}

/// As [`hash_protocol_config_payload`], for the proof-registry tuple.
#[verifier::external_body]
fn hash_proof_registry_payload(
    version: u32,
    domain: &str,
    admin: &Address,
    issuer_registry: &Address,
    protocol_config: &Address,
    contract_version: u32,
) -> (digest: Hash32)
    requires
        is_symbol_text(domain@),
        strkey_names_address(admin@),
        strkey_names_address(issuer_registry@),
        strkey_names_address(protocol_config@),
    ensures
        digest@ == proof_registry_payload_hash(
            version,
            domain@,
            admin@,
            issuer_registry@,
            protocol_config@,
            contract_version,
        ),
{
    let env = soroban_sdk::Env::default();
    let admin = soroban_sdk::Address::from_string_bytes(&soroban_sdk::Bytes::from_slice(&env, &admin.strkey));
    let registry = soroban_sdk::Address::from_string_bytes(&soroban_sdk::Bytes::from_slice(&env, &issuer_registry.strkey));
    let config = soroban_sdk::Address::from_string_bytes(&soroban_sdk::Bytes::from_slice(&env, &protocol_config.strkey));
    let symbol = soroban_sdk::Symbol::new(&env, domain);
    let payload = (version, symbol, admin, registry, config, contract_version).to_xdr(&env);
    Hash32 { bytes: env.crypto().sha256(&payload).to_array() }
}

/// Whether `address` holds a strkey that names an account or a contract.
pub fn names_address(address: &Address) -> (r: bool)
    ensures
        r == strkey_names_address(address@),
{
    decodes_as_address(address)
}

/// Digest of a protocol configuration.
pub fn protocol_config_digest(
    admin: &Address,
    paused: bool,
    config_version: u32,
    contract_version: u32,
) -> (digest: Hash32)
    requires
        strkey_names_address(admin@),
    ensures
        digest@ == protocol_config_payload_hash(
            CONFIG_DIGEST_VERSION,
            protocol_config_domain(),
            admin@,
            paused,
            config_version,
            contract_version,
        ),
{
    let domain = "earnproof_protocol_config";
    proof {
        reveal_strlit("earnproof_protocol_config");
    }
    hash_protocol_config_payload(
        CONFIG_DIGEST_VERSION,
        domain,
        admin,
        paused,
        config_version,
        contract_version,
    )
}

/// Digest of an issuer-registry configuration.
pub fn issuer_registry_digest(admin: &Address, contract_version: u32) -> (digest: Hash32)
    requires
        strkey_names_address(admin@),
    ensures
        digest@ == issuer_registry_payload_hash(
            CONFIG_DIGEST_VERSION,
            issuer_registry_domain(),
            admin@,
            contract_version,
        ),
{
    let domain = "earnproof_issuer_registry";
    proof {
        reveal_strlit("earnproof_issuer_registry");
    }
    hash_issuer_registry_payload(CONFIG_DIGEST_VERSION, domain, admin, contract_version)
}

/// Digest of a proof-registry configuration.
pub fn proof_registry_digest(
    admin: &Address,
    issuer_registry: &Address,
    protocol_config: &Address,
    contract_version: u32,
) -> (digest: Hash32)
    requires
        strkey_names_address(admin@),
        strkey_names_address(issuer_registry@),
        strkey_names_address(protocol_config@),
    ensures
        digest@ == proof_registry_payload_hash(
            CONFIG_DIGEST_VERSION,
            proof_registry_domain(),
            admin@,
            issuer_registry@,
            protocol_config@,
            contract_version,
        ),
{
    let domain = "earnproof_proof_registry";
    proof {
        reveal_strlit("earnproof_proof_registry");
    }
    hash_proof_registry_payload(
        CONFIG_DIGEST_VERSION,
        domain,
        admin,
        issuer_registry,
        protocol_config,
        contract_version,
    )
}

/// [`protocol_config_digest`] for any admin text: `None` exactly when the
/// text names no address.
pub fn checked_protocol_config_digest(
    admin: &Address,
    paused: bool,
    config_version: u32,
    contract_version: u32,
) -> (digest: Option<Hash32>)
    ensures
        digest is None <==> !strkey_names_address(admin@),
        digest matches Some(d) ==> d@ == protocol_config_payload_hash(
            CONFIG_DIGEST_VERSION,
            protocol_config_domain(),
            admin@,
            paused,
            config_version,
            contract_version,
        ),
{
    if names_address(admin) {
        Some(protocol_config_digest(admin, paused, config_version, contract_version))
    } else {
        None
    }
}

} // verus!
