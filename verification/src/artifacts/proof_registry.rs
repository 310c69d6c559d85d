//! Golden interface of the proof registry.

use vstd::prelude::*;

verus! {

/// Public entry points.
pub fn abi() -> (r: Vec<&'static str>)
    ensures
        r@ == seq!["initialize", "register_proof", "revoke_proof", "admin_revoke_proof", "get_proof", "is_valid_proof", "is_revoked", "get_admin", "get_issuer_registry", "get_protocol_config"],
{
    let r = vec!["initialize", "register_proof", "revoke_proof", "admin_revoke_proof", "get_proof", "is_valid_proof", "is_revoked", "get_admin", "get_issuer_registry", "get_protocol_config"];
    assert(r@ =~= seq!["initialize", "register_proof", "revoke_proof", "admin_revoke_proof", "get_proof", "is_valid_proof", "is_revoked", "get_admin", "get_issuer_registry", "get_protocol_config"]);
    r
}

/// Storage keys.
pub fn storage_keys() -> (r: Vec<&'static str>)
    ensures
        r@ == seq!["Admin", "IssuerRegistry", "ProtocolConfig", "Proof"],
{
    let r = vec!["Admin", "IssuerRegistry", "ProtocolConfig", "Proof"];
    assert(r@ =~= seq!["Admin", "IssuerRegistry", "ProtocolConfig", "Proof"]);
    r
}

/// Error codes with their names.
pub fn error_codes() -> (r: Vec<(u32, &'static str)>)
    ensures
        r@ == seq![(1u32, "AlreadyInitialized"), (2u32, "NotInitialized"), (20u32, "Unauthorized"), (300u32, "ProofAlreadyRegistered"), (301u32, "ProofNotFound"), (302u32, "ProofAlreadyRevoked"), (303u32, "ProofExpired"), (304u32, "InvalidSchemaVersion"), (305u32, "SchemaVersionNotApproved")],
{
    let r = vec![(1u32, "AlreadyInitialized"), (2u32, "NotInitialized"), (20u32, "Unauthorized"), (300u32, "ProofAlreadyRegistered"), (301u32, "ProofNotFound"), (302u32, "ProofAlreadyRevoked"), (303u32, "ProofExpired"), (304u32, "InvalidSchemaVersion"), (305u32, "SchemaVersionNotApproved")];
    assert(r@ =~= seq![(1u32, "AlreadyInitialized"), (2u32, "NotInitialized"), (20u32, "Unauthorized"), (300u32, "ProofAlreadyRegistered"), (301u32, "ProofNotFound"), (302u32, "ProofAlreadyRevoked"), (303u32, "ProofExpired"), (304u32, "InvalidSchemaVersion"), (305u32, "SchemaVersionNotApproved")]);
    r
}

/// Event types: the proof registry publishes no typed proof events in this snapshot.
pub fn events() -> (r: Vec<&'static str>)
    ensures
        r@ == Seq::<&'static str>::empty(),
{
    let r: Vec<&'static str> = Vec::new();
    assert(r@ =~= Seq::<&'static str>::empty());
    r
}

} // verus!
