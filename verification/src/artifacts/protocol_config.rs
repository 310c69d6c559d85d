//! Golden interface of protocol-config.

use vstd::prelude::*;

verus! {

/// Public entry points.
pub fn abi() -> (r: Vec<&'static str>)
    ensures
        r@ == seq!["initialize", "get_admin", "set_admin", "pause", "unpause", "is_paused", "approve_schema_version", "deprecate_schema_version", "is_schema_version_approved", "get_config_version"],
{
    let r = vec!["initialize", "get_admin", "set_admin", "pause", "unpause", "is_paused", "approve_schema_version", "deprecate_schema_version", "is_schema_version_approved", "get_config_version"];
    assert(r@ =~= seq!["initialize", "get_admin", "set_admin", "pause", "unpause", "is_paused", "approve_schema_version", "deprecate_schema_version", "is_schema_version_approved", "get_config_version"]);
    r
}

/// Storage keys.
pub fn storage_keys() -> (r: Vec<&'static str>)
    ensures
        r@ == seq!["Admin", "Paused", "ConfigVersion", "SchemaVersion"],
{
    let r = vec!["Admin", "Paused", "ConfigVersion", "SchemaVersion"];
    assert(r@ =~= seq!["Admin", "Paused", "ConfigVersion", "SchemaVersion"]);
    r
}

/// Error codes with their names.
pub fn error_codes() -> (r: Vec<(u32, &'static str)>)
    ensures
        r@ == seq![(1u32, "AlreadyInitialized"), (2u32, "NotInitialized"), (20u32, "Unauthorized"), (60u32, "InvalidInput"), (80u32, "ProtocolPaused")],
{
    let r = vec![(1u32, "AlreadyInitialized"), (2u32, "NotInitialized"), (20u32, "Unauthorized"), (60u32, "InvalidInput"), (80u32, "ProtocolPaused")];
    assert(r@ =~= seq![(1u32, "AlreadyInitialized"), (2u32, "NotInitialized"), (20u32, "Unauthorized"), (60u32, "InvalidInput"), (80u32, "ProtocolPaused")]);
    r
}

/// Event types.
pub fn events() -> (r: Vec<&'static str>)
    ensures
        r@ == seq!["Initialized", "AdminChanged", "Paused", "Unpaused", "SchemaApproved", "SchemaDeprecated"],
{
    let r: Vec<&'static str> = vec!["Initialized", "AdminChanged", "Paused", "Unpaused", "SchemaApproved", "SchemaDeprecated"];
    assert(r@ =~= seq!["Initialized", "AdminChanged", "Paused", "Unpaused", "SchemaApproved", "SchemaDeprecated"]);
    r
}

} // verus!
