//! Golden interface of the issuer registry.

use vstd::prelude::*;

verus! {

/// Public entry points.
pub fn abi() -> (r: Vec<&'static str>)
    ensures
        r@ == seq!["initialize", "get_admin", "register_issuer", "update_issuer", "suspend_issuer", "reactivate_issuer", "revoke_issuer", "rotate_issuer_address", "get_issuer", "get_issuer_by_address", "is_active_issuer", "is_active_address"],
{
    let r = vec!["initialize", "get_admin", "register_issuer", "update_issuer", "suspend_issuer", "reactivate_issuer", "revoke_issuer", "rotate_issuer_address", "get_issuer", "get_issuer_by_address", "is_active_issuer", "is_active_address"];
    assert(r@ =~= seq!["initialize", "get_admin", "register_issuer", "update_issuer", "suspend_issuer", "reactivate_issuer", "revoke_issuer", "rotate_issuer_address", "get_issuer", "get_issuer_by_address", "is_active_issuer", "is_active_address"]);
    r
}

/// Storage keys.
pub fn storage_keys() -> (r: Vec<&'static str>)
    ensures
        r@ == seq!["Admin", "Issuer", "AddressIssuer"],
{
    let r = vec!["Admin", "Issuer", "AddressIssuer"];
    assert(r@ =~= seq!["Admin", "Issuer", "AddressIssuer"]);
    r
}

/// Error codes with their names.
pub fn error_codes() -> (r: Vec<(u32, &'static str)>)
    ensures
        r@ == seq![(1u32, "AlreadyInitialized"), (2u32, "NotInitialized"), (20u32, "Unauthorized"), (200u32, "IssuerAlreadyRegistered"), (201u32, "IssuerNotFound"), (202u32, "IssuerAddressAlreadyRegistered"), (203u32, "IssuerAddressNotFound"), (204u32, "IssuerRevoked"), (205u32, "IssuerInactive"), (206u32, "InvalidTransition")],
{
    let r = vec![(1u32, "AlreadyInitialized"), (2u32, "NotInitialized"), (20u32, "Unauthorized"), (200u32, "IssuerAlreadyRegistered"), (201u32, "IssuerNotFound"), (202u32, "IssuerAddressAlreadyRegistered"), (203u32, "IssuerAddressNotFound"), (204u32, "IssuerRevoked"), (205u32, "IssuerInactive"), (206u32, "InvalidTransition")];
    assert(r@ =~= seq![(1u32, "AlreadyInitialized"), (2u32, "NotInitialized"), (20u32, "Unauthorized"), (200u32, "IssuerAlreadyRegistered"), (201u32, "IssuerNotFound"), (202u32, "IssuerAddressAlreadyRegistered"), (203u32, "IssuerAddressNotFound"), (204u32, "IssuerRevoked"), (205u32, "IssuerInactive"), (206u32, "InvalidTransition")]);
    r
}

/// Event types.
pub fn events() -> (r: Vec<&'static str>)
    ensures
        r@ == seq!["IssuerRegistered", "IssuerMetadataUpdated", "IssuerSuspended", "IssuerReactivated", "IssuerRevoked", "IssuerAddressRotated"],
{
    let r: Vec<&'static str> = vec!["IssuerRegistered", "IssuerMetadataUpdated", "IssuerSuspended", "IssuerReactivated", "IssuerRevoked", "IssuerAddressRotated"];
    assert(r@ =~= seq!["IssuerRegistered", "IssuerMetadataUpdated", "IssuerSuspended", "IssuerReactivated", "IssuerRevoked", "IssuerAddressRotated"]);
    r
}

} // verus!
