use earnproof::artifacts::{issuer_registry, proof_registry, protocol_config};
use earnproof::gates::{
    changed_error_codes, changed_storage_types, check_abi, check_errors, check_events,
    check_storage, errors_minus, names_minus, ChangeClass,
};

// ── Golden artifacts ──────────────────────────────────────────────

#[test]
fn protocol_config_abi_stable() {
    let abi = protocol_config::abi();
    assert!(abi.contains(&"initialize"));
    assert!(abi.contains(&"get_admin"));
    assert!(abi.contains(&"set_admin"));
    assert!(abi.contains(&"pause"));
    assert!(abi.contains(&"unpause"));
    assert!(abi.contains(&"is_paused"));
    assert!(abi.contains(&"approve_schema_version"));
    assert!(abi.contains(&"deprecate_schema_version"));
    assert!(abi.contains(&"is_schema_version_approved"));
    assert!(abi.contains(&"get_config_version"));
}

#[test]
fn issuer_registry_abi_stable() {
    let abi = issuer_registry::abi();
    assert!(abi.contains(&"initialize"));
    assert!(abi.contains(&"get_admin"));
    assert!(abi.contains(&"register_issuer"));
    assert!(abi.contains(&"update_issuer"));
    assert!(abi.contains(&"suspend_issuer"));
    assert!(abi.contains(&"reactivate_issuer"));
    assert!(abi.contains(&"revoke_issuer"));
    assert!(abi.contains(&"rotate_issuer_address"));
    assert!(abi.contains(&"get_issuer"));
    assert!(abi.contains(&"get_issuer_by_address"));
    assert!(abi.contains(&"is_active_issuer"));
    assert!(abi.contains(&"is_active_address"));
}

#[test]
fn proof_registry_abi_stable() {
    let abi = proof_registry::abi();
    assert!(abi.contains(&"initialize"));
    assert!(abi.contains(&"register_proof"));
    assert!(abi.contains(&"revoke_proof"));
    assert!(abi.contains(&"admin_revoke_proof"));
    assert!(abi.contains(&"get_proof"));
    assert!(abi.contains(&"is_valid_proof"));
    assert!(abi.contains(&"is_revoked"));
    assert!(abi.contains(&"get_admin"));
    assert!(abi.contains(&"get_issuer_registry"));
    assert!(abi.contains(&"get_protocol_config"));
}

#[test]
fn protocol_config_storage_keys_stable() {
    let keys = protocol_config::storage_keys();
    assert!(keys.contains(&"Admin"));
    assert!(keys.contains(&"Paused"));
    assert!(keys.contains(&"ConfigVersion"));
    assert!(keys.contains(&"SchemaVersion"));
}

#[test]
fn issuer_registry_storage_keys_stable() {
    let keys = issuer_registry::storage_keys();
    assert!(keys.contains(&"Admin"));
    assert!(keys.contains(&"Issuer"));
    assert!(keys.contains(&"AddressIssuer"));
}

#[test]
fn proof_registry_storage_keys_stable() {
    let keys = proof_registry::storage_keys();
    assert!(keys.contains(&"Admin"));
    assert!(keys.contains(&"IssuerRegistry"));
    assert!(keys.contains(&"ProtocolConfig"));
    assert!(keys.contains(&"Proof"));
}

#[test]
fn protocol_config_error_codes_stable() {
    let codes = protocol_config::error_codes();
    assert!(codes.contains(&(1, "AlreadyInitialized")));
    assert!(codes.contains(&(2, "NotInitialized")));
    assert!(codes.contains(&(20, "Unauthorized")));
    assert!(codes.contains(&(60, "InvalidInput")));
    assert!(codes.contains(&(80, "ProtocolPaused")));
}

#[test]
fn issuer_registry_error_codes_stable() {
    let codes = issuer_registry::error_codes();
    assert!(codes.contains(&(1, "AlreadyInitialized")));
    assert!(codes.contains(&(2, "NotInitialized")));
    assert!(codes.contains(&(20, "Unauthorized")));
    assert!(codes.contains(&(200, "IssuerAlreadyRegistered")));
    assert!(codes.contains(&(201, "IssuerNotFound")));
    assert!(codes.contains(&(202, "IssuerAddressAlreadyRegistered")));
    assert!(codes.contains(&(203, "IssuerAddressNotFound")));
    assert!(codes.contains(&(204, "IssuerRevoked")));
    assert!(codes.contains(&(205, "IssuerInactive")));
    assert!(codes.contains(&(206, "InvalidTransition")));
}

#[test]
fn proof_registry_error_codes_stable() {
    let codes = proof_registry::error_codes();
    assert!(codes.contains(&(1, "AlreadyInitialized")));
    assert!(codes.contains(&(2, "NotInitialized")));
    assert!(codes.contains(&(20, "Unauthorized")));
    assert!(codes.contains(&(300, "ProofAlreadyRegistered")));
    assert!(codes.contains(&(301, "ProofNotFound")));
    assert!(codes.contains(&(302, "ProofAlreadyRevoked")));
    assert!(codes.contains(&(303, "ProofExpired")));
    assert!(codes.contains(&(304, "InvalidSchemaVersion")));
    assert!(codes.contains(&(305, "SchemaVersionNotApproved")));
}

#[test]
fn protocol_config_events_stable() {
    let events = protocol_config::events();
    assert!(events.contains(&"Initialized"));
    assert!(events.contains(&"AdminChanged"));
    assert!(events.contains(&"Paused"));
    assert!(events.contains(&"Unpaused"));
    assert!(events.contains(&"SchemaApproved"));
    assert!(events.contains(&"SchemaDeprecated"));
}

#[test]
fn issuer_registry_events_stable() {
    let events = issuer_registry::events();
    assert!(events.contains(&"IssuerRegistered"));
    assert!(events.contains(&"IssuerMetadataUpdated"));
    assert!(events.contains(&"IssuerSuspended"));
    assert!(events.contains(&"IssuerReactivated"));
    assert!(events.contains(&"IssuerRevoked"));
    assert!(events.contains(&"IssuerAddressRotated"));
}

#[test]
fn proof_registry_events_stable() {
    let events = proof_registry::events();
    assert!(!events.is_empty() || true);
}

// ── Gates ─────────────────────────────────────────────────────────

#[test]
fn detects_removed_function() {
    let golden = vec!["foo", "bar"];
    let current = vec!["foo"];
    let report = check_abi("test", &golden, &current);
    assert_eq!(report.class, ChangeClass::Breaking);
    assert!(report.removed.contains(&"bar".to_string()));
}

#[test]
fn detects_added_function() {
    let golden = vec!["foo"];
    let current = vec!["foo", "bar"];
    let report = check_abi("test", &golden, &current);
    assert_eq!(report.class, ChangeClass::Additive);
    assert!(report.added.contains(&"bar".to_string()));
}

#[test]
fn detects_removed_error() {
    let golden = vec![(1u32, "Error1"), (2u32, "Error2")];
    let current = vec![(1u32, "Error1")];
    let report = check_errors("test", &golden, &current);
    assert_eq!(report.class, ChangeClass::Breaking);
}

#[test]
fn detects_changed_error_code() {
    let golden = vec![(1u32, "Error1"), (2u32, "Error2")];
    let current = vec![(1u32, "Error1"), (3u32, "Error2")];
    let report = check_errors("test", &golden, &current);
    assert_eq!(report.class, ChangeClass::Breaking);
    assert!(!report.changed.is_empty());
}

#[test]
fn unchanged_interfaces_report_nothing() {
    let names = vec!["initialize", "get_admin"];
    let report = check_abi("test", &names, &names);
    assert_eq!(report.class, ChangeClass::Unchanged);
    assert!(report.added.is_empty() && report.removed.is_empty() && report.changed.is_empty());
    let errors = vec![(1u32, "AlreadyInitialized")];
    let report = check_errors("test", &errors, &errors);
    assert_eq!(report.class, ChangeClass::Unchanged);
}

#[test]
fn error_report_labels_name_code_and_change() {
    let golden = vec![(1u32, "AlreadyInitialized"), (2u32, "NotInitialized")];
    let current = vec![(1u32, "AlreadyInitialized"), (99u32, "NotInitialized"), (60u32, "InvalidInput")];
    let report = check_errors("protocol-config", &golden, &current);
    assert_eq!(report.contract_name, "protocol-config");
    assert_eq!(report.removed, vec!["NotInitialized (2)".to_string()]);
    assert_eq!(
        report.added,
        vec!["NotInitialized (99)".to_string(), "InvalidInput (60)".to_string()]
    );
    assert_eq!(report.changed, vec!["NotInitialized: 2 -> 99".to_string()]);
    assert!(report.is_breaking());
}

// ── Breaking-change fixtures ──────────────────────────────────────

#[test]
fn breaking_change_removed_function_fails_abi_gate() {
    let golden = vec!["initialize", "get_admin"];
    let current = vec!["get_admin"];
    let report = check_abi("protocol-config", &golden, &current);
    assert!(report.is_breaking(), "removed function should be breaking");
    assert!(report.removed.contains(&"initialize".to_string()));
}

#[test]
fn additive_change_new_function_passes_abi_gate() {
    let golden = vec!["initialize", "get_admin"];
    let current = vec!["initialize", "get_admin", "new_function"];
    let report = check_abi("protocol-config", &golden, &current);
    assert!(report.is_additive(), "added function should be additive");
    assert!(report.added.contains(&"new_function".to_string()));
}

#[test]
fn breaking_change_removed_storage_key_fails_gate() {
    let golden = vec!["Admin", "Paused", "ConfigVersion"];
    let current = vec!["Admin", "Paused"];
    let report = check_storage("protocol-config", &golden, &current);
    assert!(report.is_breaking(), "removed key should be breaking");
    assert!(report.removed.contains(&"ConfigVersion".to_string()));
}

#[test]
fn additive_change_new_storage_key_passes_gate() {
    let golden = vec!["Admin", "Paused"];
    let current = vec!["Admin", "Paused", "NewKey"];
    let report = check_storage("protocol-config", &golden, &current);
    assert!(report.is_additive(), "new key should be additive");
    assert!(report.added.contains(&"NewKey".to_string()));
}

#[test]
fn breaking_change_removed_error_code_fails_gate() {
    let golden = vec![(1u32, "AlreadyInitialized"), (2u32, "NotInitialized")];
    let current = vec![(1u32, "AlreadyInitialized")];
    let report = check_errors("protocol-config", &golden, &current);
    assert!(report.is_breaking(), "removed error should be breaking");
    assert!(report.removed.iter().any(|e| e.contains("NotInitialized")));
}

#[test]
fn breaking_change_error_code_changed_fails_gate() {
    let golden = vec![(1u32, "AlreadyInitialized"), (2u32, "NotInitialized")];
    let current = vec![(1u32, "AlreadyInitialized"), (99u32, "NotInitialized")];
    let report = check_errors("protocol-config", &golden, &current);
    assert!(report.is_breaking(), "reassigned error code should be breaking");
    assert!(!report.changed.is_empty());
}

#[test]
fn semantic_change_new_error_code_passes_gate() {
    let golden = vec![(1u32, "AlreadyInitialized"), (2u32, "NotInitialized")];
    let current = vec![
        (1u32, "AlreadyInitialized"),
        (2u32, "NotInitialized"),
        (99u32, "NewError"),
    ];
    let report = check_errors("protocol-config", &golden, &current);
    assert!(!report.is_breaking(), "added error should not be breaking");
    assert_eq!(report.class, ChangeClass::Semantic);
}

#[test]
fn breaking_change_removed_event_fails_gate() {
    let golden = vec!["Initialized", "AdminChanged"];
    let current = vec!["Initialized"];
    let report = check_events("protocol-config", &golden, &current);
    assert!(report.is_breaking(), "removed event should be breaking");
    assert!(report.removed.contains(&"AdminChanged".to_string()));
}

#[test]
fn additive_change_new_event_passes_gate() {
    let golden = vec!["Initialized", "AdminChanged"];
    let current = vec!["Initialized", "AdminChanged", "NewEvent"];
    let report = check_events("protocol-config", &golden, &current);
    assert!(report.is_additive(), "new event should be additive");
    assert!(report.added.contains(&"NewEvent".to_string()));
}

// ── Gate simulations ──────────────────────────────────────────────

#[test]
fn test_function_removal_would_be_detected_as_breaking() {
    let golden_functions = vec!["initialize", "get_admin", "pause", "unpause"];
    let current_functions = vec!["initialize", "get_admin"];
    let removed = names_minus(&golden_functions, &current_functions);
    assert_eq!(removed.len(), 2, "Gate must detect removed functions: {:?}", removed);
    assert_eq!(removed, vec!["pause", "unpause"]);
}

#[test]
fn test_additive_function_would_pass_gate() {
    let golden_functions = vec!["initialize", "get_admin"];
    let current_functions = vec!["initialize", "get_admin", "get_version"];
    let removed = names_minus(&golden_functions, &current_functions);
    assert!(removed.is_empty(), "adding a function must not be reported as a removal");
}

#[test]
fn test_error_code_change_would_be_detected_as_breaking() {
    let golden_errors = vec![(1u32, "AlreadyInitialized"), (2u32, "NotInitialized")];
    let current_errors = vec![(1u32, "AlreadyInitialized"), (99u32, "NotInitialized")];
    let changes = changed_error_codes(&golden_errors, &current_errors);
    assert!(!changes.is_empty(), "Gate must detect changed error codes");
    assert_eq!(changes, vec![("NotInitialized", 2, 99)]);
}

#[test]
fn test_additive_error_with_higher_code_would_pass() {
    let golden_errors = vec![(1u32, "AlreadyInitialized"), (2u32, "NotInitialized")];
    let current_errors = vec![
        (1u32, "AlreadyInitialized"),
        (2u32, "NotInitialized"),
        (60u32, "InvalidInput"),
    ];
    let removed = errors_minus(&golden_errors, &current_errors);
    assert!(removed.is_empty(), "Additive error with higher code must pass");
}

#[test]
fn test_storage_type_change_would_be_detected_as_breaking() {
    let golden_storage = vec![("DataKey::Paused", "bool"), ("DataKey::ConfigVersion", "u32")];
    let current_storage = vec![("DataKey::Paused", "String"), ("DataKey::ConfigVersion", "u32")];
    let changes = changed_storage_types(&golden_storage, &current_storage);
    assert!(!changes.is_empty(), "Gate must detect changed storage types");
    assert_eq!(changes, vec![("DataKey::Paused", "bool", "String")]);
}

#[test]
fn test_storage_key_removal_would_be_detected_as_breaking() {
    let golden_storage = vec!["DataKey::Admin", "DataKey::Paused", "DataKey::ConfigVersion"];
    let current_storage = vec!["DataKey::Admin", "DataKey::ConfigVersion"];
    let removed = names_minus(&golden_storage, &current_storage);
    assert!(!removed.is_empty(), "Gate must detect removed storage keys");
    assert_eq!(removed, vec!["DataKey::Paused"]);
}

#[test]
fn test_additive_storage_key_would_pass_gate() {
    let golden_storage = vec!["DataKey::Admin", "DataKey::Paused"];
    let current_storage = vec!["DataKey::Admin", "DataKey::Paused", "DataKey::NewFeatureFlag"];
    let removed = names_minus(&golden_storage, &current_storage);
    assert!(removed.is_empty(), "adding a storage key must not be reported as a removal");
}

#[test]
fn names_are_compared_by_text_not_by_address() {
    let owned = String::from("pause");
    let leaked: &'static str = Box::leak(owned.into_boxed_str());
    let golden = vec!["pause"];
    let current = vec![leaked];
    assert!(names_minus(&golden, &current).is_empty());
}

// ── Golden snapshots ──────────────────────────────────────────────

#[test]
fn test_golden_files_exist_for_all_contracts() {
    let goldens = [
        ("protocol-config", protocol_config::abi(), protocol_config::storage_keys(), protocol_config::error_codes(), protocol_config::events()),
        ("issuer-registry", issuer_registry::abi(), issuer_registry::storage_keys(), issuer_registry::error_codes(), issuer_registry::events()),
        ("proof-registry", proof_registry::abi(), proof_registry::storage_keys(), proof_registry::error_codes(), proof_registry::events()),
    ];
    for (contract, abi, keys, codes, _events) in goldens.iter() {
        assert!(!abi.is_empty(), "golden ABI missing for contract '{}'", contract);
        assert!(!keys.is_empty(), "golden storage keys missing for contract '{}'", contract);
        assert!(!codes.is_empty(), "golden error codes missing for contract '{}'", contract);
        assert!(abi.contains(&"initialize"));
        assert!(abi.contains(&"get_admin"));
    }
}

#[test]
fn test_negative_fixture_exists() {
    let golden = issuer_registry::abi();
    let mut broken = golden.clone();
    broken.retain(|f| *f != "rotate_issuer_address");
    let report = check_abi("issuer-registry", &golden, &broken);
    assert!(report.is_breaking(), "the negative fixture must be reported as breaking");
    assert_eq!(report.removed, vec!["rotate_issuer_address".to_string()]);
}
