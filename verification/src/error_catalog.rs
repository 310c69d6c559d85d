//! The reviewed catalog of every public contract error: what caused it,
//! whether retrying can help, what a client should do, and what it may show
//! an end user.
//!
//! Codes are stable: a published code is never reused for a different meaning
//! and never renumbered. [`domain_for`] attributes any code, known or not, to
//! the contract range it falls in, and [`retry_for`] never recommends retrying
//! a code it does not know.

use vstd::prelude::*;
use crate::errors::{ContractError, IssuerError, ProofError};

verus! {

/// Whether a code is returned by the current release.
#[derive(Copy, Clone, Debug, PartialEq, Eq, Structural)]
pub enum Status {
    /// At least one contract path returns this code.
    Returned,
    /// Declared and reserved, but returned by no path.
    Reserved,
}

/// Whether retrying the same call can ever succeed.
#[derive(Copy, Clone, Debug, PartialEq, Eq, Structural)]
pub enum Retry {
    /// Deterministically rejected; also the class of every unknown code.
    Never,
    /// Succeeds once an operator changes protocol state.
    AfterOperatorAction,
    /// Succeeds if the caller changes the request.
    AfterCallerChange,
}

/// Which contract or shared range a code belongs to.
#[derive(Copy, Clone, Debug, PartialEq, Eq, Structural)]
pub enum Domain {
    /// 1-99, shared by every contract.
    Common,
    /// 100-199, reserved for protocol-config.
    ProtocolConfig,
    /// 200-299, issuer-registry.
    IssuerRegistry,
    /// 300-399, proof-registry.
    ProofRegistry,
    /// Outside every allocated range.
    Unallocated,
}

pub open spec fn spec_status_name(s: Status) -> &'static str {
    match s {
        Status::Returned => "returned",
        Status::Reserved => "reserved",
    }
}

pub open spec fn spec_retry_name(r: Retry) -> &'static str {
    match r {
        Retry::Never => "never",
        Retry::AfterOperatorAction => "after-operator-action",
        Retry::AfterCallerChange => "after-caller-change",
    }
}

pub open spec fn spec_domain_name(d: Domain) -> &'static str {
    match d {
        Domain::Common => "common",
        Domain::ProtocolConfig => "protocol-config",
        Domain::IssuerRegistry => "issuer-registry",
        Domain::ProofRegistry => "proof-registry",
        Domain::Unallocated => "unallocated",
    }
}

/// The inclusive code range a domain owns, if it owns one.
pub open spec fn spec_domain_range(d: Domain) -> Option<(u32, u32)> {
    match d {
        Domain::Common => Some((1, 99)),
        Domain::ProtocolConfig => Some((100, 199)),
        Domain::IssuerRegistry => Some((200, 299)),
        Domain::ProofRegistry => Some((300, 399)),
        Domain::Unallocated => None,
    }
}

/// The domain whose range contains `code`, or `Unallocated`.
pub open spec fn spec_domain_for(code: u32) -> Domain {
    if 1 <= code <= 99 {
        Domain::Common
    } else if 100 <= code <= 199 {
        Domain::ProtocolConfig
    } else if 200 <= code <= 299 {
        Domain::IssuerRegistry
    } else if 300 <= code <= 399 {
        Domain::ProofRegistry
    } else {
        Domain::Unallocated
    }
}

impl Status {
    /// Stable lower-case name used in documentation and golden fixtures.
    pub fn as_str(self) -> (r: &'static str)
        ensures
            r == spec_status_name(self),
    {
        match self {
            Status::Returned => "returned",
            Status::Reserved => "reserved",
        }
    }
}

impl Retry {
    /// Stable lower-case name used in documentation and golden fixtures.
    pub fn as_str(self) -> (r: &'static str)
        ensures
            r == spec_retry_name(self),
    {
        match self {
            Retry::Never => "never",
            Retry::AfterOperatorAction => "after-operator-action",
            Retry::AfterCallerChange => "after-caller-change",
        }
    }
}

impl Domain {
    /// Stable lower-case name used in documentation and golden fixtures.
    pub fn as_str(self) -> (r: &'static str)
        ensures
            r == spec_domain_name(self),
    {
        match self {
            Domain::Common => "common",
            Domain::ProtocolConfig => "protocol-config",
            Domain::IssuerRegistry => "issuer-registry",
            Domain::ProofRegistry => "proof-registry",
            Domain::Unallocated => "unallocated",
        }
    }

    /// Inclusive code range owned by this domain, if it owns one.
    pub fn range(self) -> (r: Option<(u32, u32)>)
        ensures
            r == spec_domain_range(self),
    {
        match self {
            Domain::Common => Some((1, 99)),
            Domain::ProtocolConfig => Some((100, 199)),
            Domain::IssuerRegistry => Some((200, 299)),
            Domain::ProofRegistry => Some((300, 399)),
            Domain::Unallocated => None,
        }
    }
}

/// Classifies any code by range, including codes this build has never seen.
pub fn domain_for(code: u32) -> (r: Domain)
    ensures
        r == spec_domain_for(code),
{
    if code >= 1 && code <= 99 {
        Domain::Common
    } else if code >= 100 && code <= 199 {
        Domain::ProtocolConfig
    } else if code >= 200 && code <= 299 {
        Domain::IssuerRegistry
    } else if code >= 300 && code <= 399 {
        Domain::ProofRegistry
    } else {
        Domain::Unallocated
    }
}

/// A code falls in a domain's range exactly when it is classified into that
/// domain; `Unallocated` owns no range.
pub proof fn lemma_domain_for_matches_ranges(code: u32, d: Domain)
    ensures
        spec_domain_range(d) matches Some((lo, hi)) ==> ((lo <= code <= hi) <==> spec_domain_for(code) == d),
        spec_domain_range(spec_domain_for(code)) is None <==> spec_domain_for(code) == Domain::Unallocated,
{
}

/// One published error.
#[derive(Copy, Clone, Debug, PartialEq, Eq)]
pub struct ErrorSpec {
    /// Stable numeric code. Never reused, never renumbered.
    pub code: u32,
    /// Variant name, for logs and for humans. Clients must not switch on it.
    pub name: &'static str,
    /// Rust enum the variant belongs to.
    pub enum_name: &'static str,
    /// Range the code belongs to.
    pub domain: Domain,
    /// Whether any contract path returns this code in the current release.
    pub status: Status,
    /// What the contract observed that led to this error.
    pub cause: &'static str,
    /// Whether retrying can help, and under what condition.
    pub retry: Retry,
    /// What the operator or backend should do about it.
    pub remediation: &'static str,
    /// Suggested HTTP status for a backend surfacing this to an API client.
    pub http_status: u16,
    /// Message a client may show an end user; a fixed string.
    pub client_message: &'static str,
}

/// Number of published errors.
pub const ERROR_CATALOG_LEN: usize = 25;

/// The published error at position `i` of the catalog, which is ordered by code.
pub open spec fn spec_catalog_at(i: int) -> ErrorSpec {
    if i == 0 {
        ErrorSpec {
            code: 1,
            name: "AlreadyInitialized",
            enum_name: "ContractError",
            domain: Domain::Common,
            status: Status::Returned,
            cause: "initialize was called on a contract that already has an admin.",
            retry: Retry::Never,
            remediation: "Treat the deployment as already provisioned. Verify the recorded admin before assuming the deployment is the one you expected.",
            http_status: 409,
            client_message: "Contract is already initialized",
        }
    } else if i == 1 {
        ErrorSpec {
            code: 2,
            name: "NotInitialized",
            enum_name: "ContractError",
            domain: Domain::Common,
            status: Status::Returned,
            cause: "A call read instance state on a contract that was never initialized.",
            retry: Retry::AfterOperatorAction,
            remediation: "Initialize the contract, or point the client at the correct deployed address. Do not retry against the same uninitialized contract.",
            http_status: 500,
            client_message: "Service temporarily unavailable",
        }
    } else if i == 2 {
        ErrorSpec {
            code: 20,
            name: "Unauthorized",
            enum_name: "ContractError",
            domain: Domain::Common,
            status: Status::Reserved,
            cause: "Reserved for an explicit authorization rejection. The contracts currently enforce authorization through require_auth, which aborts the invocation with a host authorization error rather than returning this code.",
            retry: Retry::Never,
            remediation: "Sign with the address the operation requires. Clients must treat a host authorization abort and this code as the same outcome, and neither reveals which address would have been accepted.",
            http_status: 403,
            client_message: "Insufficient permissions",
        }
    } else if i == 3 {
        ErrorSpec {
            code: 40,
            name: "AlreadyExists",
            enum_name: "ContractError",
            domain: Domain::Common,
            status: Status::Reserved,
            cause: "Reserved for a generic duplicate-write rejection. The registries return their own specific codes instead: 200, 202, and 300.",
            retry: Retry::Never,
            remediation: "Read the existing record instead of rewriting it. Handle the specific codes 200, 202, and 300, and treat this one as a forward-compatible synonym.",
            http_status: 409,
            client_message: "Resource already exists",
        }
    } else if i == 4 {
        ErrorSpec {
            code: 41,
            name: "NotFound",
            enum_name: "ContractError",
            domain: Domain::Common,
            status: Status::Reserved,
            cause: "Reserved for a generic missing-record rejection. The registries return their own specific codes instead: 201, 203, and 301.",
            retry: Retry::AfterCallerChange,
            remediation: "Confirm the identifier hash was derived with the documented hashing rules. Handle the specific codes 201, 203, and 301, and treat this one as a forward-compatible synonym.",
            http_status: 404,
            client_message: "Resource not found",
        }
    } else if i == 5 {
        ErrorSpec {
            code: 42,
            name: "InvalidState",
            enum_name: "ContractError",
            domain: Domain::Common,
            status: Status::Reserved,
            cause: "Reserved for a generic lifecycle rejection. The issuer registry returns 204 and 206 instead, and the proof registry returns 302.",
            retry: Retry::Never,
            remediation: "Read the current status and choose an operation the lifecycle allows. Handle the specific codes 204, 206, and 302, and treat this one as a forward-compatible synonym.",
            http_status: 400,
            client_message: "Operation not permitted in current state",
        }
    } else if i == 6 {
        ErrorSpec {
            code: 60,
            name: "InvalidInput",
            enum_name: "ContractError",
            domain: Domain::Common,
            status: Status::Returned,
            cause: "An argument failed validation, such as a zero schema version.",
            retry: Retry::AfterCallerChange,
            remediation: "Correct the argument. Retrying the identical request will fail identically.",
            http_status: 400,
            client_message: "Invalid input provided",
        }
    } else if i == 7 {
        ErrorSpec {
            code: 61,
            name: "InvalidAddress",
            enum_name: "ContractError",
            domain: Domain::Common,
            status: Status::Reserved,
            cause: "An address argument is not a usable principal: not a 56-character base32 strkey, or the zero-key sentinel.",
            retry: Retry::AfterCallerChange,
            remediation: "Send the strkey of a real account or contract. The registries report unusable addresses through their own InvalidAddress codes (207, 306) or through InvalidInput (60) at initialization.",
            http_status: 400,
            client_message: "Invalid address",
        }
    } else if i == 8 {
        ErrorSpec {
            code: 80,
            name: "ProtocolPaused",
            enum_name: "ContractError",
            domain: Domain::Common,
            status: Status::Reserved,
            cause: "Reserved for the pause rejection. A paused protocol is currently reported by the proof registry as 304, not as this code.",
            retry: Retry::AfterOperatorAction,
            remediation: "Poll is_paused rather than waiting for this code: a paused protocol surfaces as 304 in the current release. Treat both as the same operator-action outcome.",
            http_status: 503,
            client_message: "Service temporarily paused",
        }
    } else if i == 9 {
        ErrorSpec {
            code: 200,
            name: "IssuerAlreadyRegistered",
            enum_name: "IssuerError",
            domain: Domain::IssuerRegistry,
            status: Status::Returned,
            cause: "register_issuer was called with an issuer_id_hash that already has a record.",
            retry: Retry::Never,
            remediation: "Use update_issuer to change metadata, or rotate_issuer_address to change the address. Registration is one-time per identifier.",
            http_status: 409,
            client_message: "Issuer already registered",
        }
    } else if i == 10 {
        ErrorSpec {
            code: 201,
            name: "IssuerNotFound",
            enum_name: "IssuerError",
            domain: Domain::IssuerRegistry,
            status: Status::Returned,
            cause: "A call referenced an issuer_id_hash with no record, or the registry has no admin yet.",
            retry: Retry::AfterCallerChange,
            remediation: "Register the issuer first, or confirm the identifier hash. If the registry is uninitialized, every call returns this code until an admin is set.",
            http_status: 404,
            client_message: "Issuer not found",
        }
    } else if i == 11 {
        ErrorSpec {
            code: 202,
            name: "IssuerAddressAlreadyRegistered",
            enum_name: "IssuerError",
            domain: Domain::IssuerRegistry,
            status: Status::Returned,
            cause: "A registration or rotation targeted a Stellar address already bound to an issuer.",
            retry: Retry::Never,
            remediation: "Choose an unused address. An address maps to at most one issuer so that address-based lookups stay unambiguous.",
            http_status: 409,
            client_message: "Issuer address already registered",
        }
    } else if i == 12 {
        ErrorSpec {
            code: 203,
            name: "IssuerAddressNotFound",
            enum_name: "IssuerError",
            domain: Domain::IssuerRegistry,
            status: Status::Returned,
            cause: "An address lookup found no entry in the reverse index.",
            retry: Retry::AfterCallerChange,
            remediation: "The address is not a registered issuer. Note that a rotated-away address returns this code, because the old index entry is removed.",
            http_status: 404,
            client_message: "Issuer address not found",
        }
    } else if i == 13 {
        ErrorSpec {
            code: 204,
            name: "IssuerRevoked",
            enum_name: "IssuerError",
            domain: Domain::IssuerRegistry,
            status: Status::Returned,
            cause: "The operation targeted an issuer whose status is Revoked.",
            retry: Retry::Never,
            remediation: "Revocation is terminal. Register a new issuer identifier if the party is to be readmitted.",
            http_status: 403,
            client_message: "Issuer has been revoked",
        }
    } else if i == 14 {
        ErrorSpec {
            code: 205,
            name: "IssuerInactive",
            enum_name: "IssuerError",
            domain: Domain::IssuerRegistry,
            status: Status::Reserved,
            cause: "Reserved for the suspended-issuer rejection. A suspended issuer is currently reported by the proof registry as 304, not as this code.",
            retry: Retry::AfterOperatorAction,
            remediation: "Call is_active_address before registering rather than waiting for this code: a suspended issuer surfaces as 304 in the current release. An admin must reactivate the issuer; suspension is reversible, revocation is not.",
            http_status: 403,
            client_message: "Issuer is not active",
        }
    } else if i == 15 {
        ErrorSpec {
            code: 206,
            name: "InvalidTransition",
            enum_name: "IssuerError",
            domain: Domain::IssuerRegistry,
            status: Status::Returned,
            cause: "A status change was requested that the lifecycle does not allow, such as reactivating a revoked issuer.",
            retry: Retry::Never,
            remediation: "Read the current status and choose a permitted transition.",
            http_status: 400,
            client_message: "Invalid status transition",
        }
    } else if i == 16 {
        ErrorSpec {
            code: 207,
            name: "InvalidAddress",
            enum_name: "IssuerError",
            domain: Domain::IssuerRegistry,
            status: Status::Returned,
            cause: "register_issuer or rotate_issuer_address was given an address that is not a usable principal (the zero-key sentinel or not a 56-character base32 strkey), or a rotation named the address the issuer already has.",
            retry: Retry::AfterCallerChange,
            remediation: "Send the strkey of the issuer's real account, and rotate only to an address different from the current one.",
            http_status: 400,
            client_message: "Invalid issuer address",
        }
    } else if i == 17 {
        ErrorSpec {
            code: 208,
            name: "InvalidMetadataCommitment",
            enum_name: "IssuerError",
            domain: Domain::IssuerRegistry,
            status: Status::Returned,
            cause: "set_issuer_metadata_commitment was given the all-zero digest as the content or the URI commitment; the all-zero digest means that no commitment is recorded.",
            retry: Retry::AfterCallerChange,
            remediation: "Compute both commitments off chain over the canonical metadata document and its canonical URI, and send the resulting non-zero digests.",
            http_status: 400,
            client_message: "Invalid metadata commitment",
        }
    } else if i == 18 {
        ErrorSpec {
            code: 300,
            name: "ProofAlreadyRegistered",
            enum_name: "ProofError",
            domain: Domain::ProofRegistry,
            status: Status::Returned,
            cause: "register_proof was called with a proof_id_hash that already has a record.",
            retry: Retry::Never,
            remediation: "Proof records are immutable once written, including after archival and restoration. Register a new identifier rather than replacing a commitment.",
            http_status: 409,
            client_message: "Proof already registered",
        }
    } else if i == 19 {
        ErrorSpec {
            code: 301,
            name: "ProofNotFound",
            enum_name: "ProofError",
            domain: Domain::ProofRegistry,
            status: Status::Returned,
            cause: "A call referenced a proof_id_hash with no record, or the proof registry has no instance state to read its dependencies from.",
            retry: Retry::AfterCallerChange,
            remediation: "Confirm the identifier hash. If register_proof returns this code, the registry itself is uninitialized and no write took place.",
            http_status: 404,
            client_message: "Proof not found",
        }
    } else if i == 20 {
        ErrorSpec {
            code: 302,
            name: "ProofAlreadyRevoked",
            enum_name: "ProofError",
            domain: Domain::ProofRegistry,
            status: Status::Returned,
            cause: "A revocation targeted a proof already in the Revoked state.",
            retry: Retry::Never,
            remediation: "Treat the revocation as complete. Revocation is terminal and idempotent in effect, though not in return value.",
            http_status: 400,
            client_message: "Proof already revoked",
        }
    } else if i == 21 {
        ErrorSpec {
            code: 303,
            name: "ProofExpired",
            enum_name: "ProofError",
            domain: Domain::ProofRegistry,
            status: Status::Returned,
            cause: "register_proof was given an expires_at at or before the current ledger timestamp.",
            retry: Retry::AfterCallerChange,
            remediation: "Send an expiration in the future relative to ledger time, not to wall-clock time on the calling host.",
            http_status: 400,
            client_message: "Invalid proof expiration",
        }
    } else if i == 22 {
        ErrorSpec {
            code: 304,
            name: "InvalidSchemaVersion",
            enum_name: "ProofError",
            domain: Domain::ProofRegistry,
            status: Status::Returned,
            cause: "register_proof was given schema version zero, or a precondition that the registry currently reports through this same code failed: the protocol is paused, or the issuer address is not active.",
            retry: Retry::AfterOperatorAction,
            remediation: "Check three things in order: that the schema version is non-zero, that is_paused is false, and that is_active_address is true for the issuer. This code is overloaded in the current release; see the ambiguity note in docs/errors.md.",
            http_status: 400,
            client_message: "Invalid schema version",
        }
    } else if i == 23 {
        ErrorSpec {
            code: 305,
            name: "SchemaVersionNotApproved",
            enum_name: "ProofError",
            domain: Domain::ProofRegistry,
            status: Status::Returned,
            cause: "The schema version is non-zero but is not approved in protocol-config, either because it was never approved or because it was deprecated.",
            retry: Retry::AfterOperatorAction,
            remediation: "A protocol operator must approve the version. A registry pointed at an uninitialized protocol config also returns this code, because no version can be approved there.",
            http_status: 400,
            client_message: "Schema version not approved",
        }
    } else {
        ErrorSpec {
            code: 306,
            name: "InvalidAddress",
            enum_name: "ProofError",
            domain: Domain::ProofRegistry,
            status: Status::Returned,
            cause: "register_proof was given an issuer address that is not a usable principal or that names the proof registry itself or one of its dependencies; archive_proof also returns it for a proof that is neither expired nor revoked.",
            retry: Retry::AfterCallerChange,
            remediation: "Register under the issuer's own account address. Archive a proof only once it has expired or been revoked.",
            http_status: 400,
            client_message: "Invalid address",
        }
    }
}

/// Every published error, ordered by code.
pub open spec fn spec_error_catalog() -> Seq<ErrorSpec> {
    Seq::new(ERROR_CATALOG_LEN as nat, |i: int| spec_catalog_at(i))
}

/// The code of the entry at position `i`.
pub open spec fn spec_code_at(i: int) -> u32 {
    spec_catalog_at(i).code
}

fn catalog_entry(i: usize) -> (r: ErrorSpec)
    requires
        i < ERROR_CATALOG_LEN,
    ensures
        r == spec_catalog_at(i as int),
{
    match i {
        0 => ErrorSpec {
            code: 1,
            name: "AlreadyInitialized",
            enum_name: "ContractError",
            domain: Domain::Common,
            status: Status::Returned,
            cause: "initialize was called on a contract that already has an admin.",
            retry: Retry::Never,
            remediation: "Treat the deployment as already provisioned. Verify the recorded admin before assuming the deployment is the one you expected.",
            http_status: 409,
            client_message: "Contract is already initialized",
        },
        1 => ErrorSpec {
            code: 2,
            name: "NotInitialized",
            enum_name: "ContractError",
            domain: Domain::Common,
            status: Status::Returned,
            cause: "A call read instance state on a contract that was never initialized.",
            retry: Retry::AfterOperatorAction,
            remediation: "Initialize the contract, or point the client at the correct deployed address. Do not retry against the same uninitialized contract.",
            http_status: 500,
            client_message: "Service temporarily unavailable",
        },
        2 => ErrorSpec {
            code: 20,
            name: "Unauthorized",
            enum_name: "ContractError",
            domain: Domain::Common,
            status: Status::Reserved,
            cause: "Reserved for an explicit authorization rejection. The contracts currently enforce authorization through require_auth, which aborts the invocation with a host authorization error rather than returning this code.",
            retry: Retry::Never,
            remediation: "Sign with the address the operation requires. Clients must treat a host authorization abort and this code as the same outcome, and neither reveals which address would have been accepted.",
            http_status: 403,
            client_message: "Insufficient permissions",
        },
        3 => ErrorSpec {
            code: 40,
            name: "AlreadyExists",
            enum_name: "ContractError",
            domain: Domain::Common,
            status: Status::Reserved,
            cause: "Reserved for a generic duplicate-write rejection. The registries return their own specific codes instead: 200, 202, and 300.",
            retry: Retry::Never,
            remediation: "Read the existing record instead of rewriting it. Handle the specific codes 200, 202, and 300, and treat this one as a forward-compatible synonym.",
            http_status: 409,
            client_message: "Resource already exists",
        },
        4 => ErrorSpec {
            code: 41,
            name: "NotFound",
            enum_name: "ContractError",
            domain: Domain::Common,
            status: Status::Reserved,
            cause: "Reserved for a generic missing-record rejection. The registries return their own specific codes instead: 201, 203, and 301.",
            retry: Retry::AfterCallerChange,
            remediation: "Confirm the identifier hash was derived with the documented hashing rules. Handle the specific codes 201, 203, and 301, and treat this one as a forward-compatible synonym.",
            http_status: 404,
            client_message: "Resource not found",
        },
        5 => ErrorSpec {
            code: 42,
            name: "InvalidState",
            enum_name: "ContractError",
            domain: Domain::Common,
            status: Status::Reserved,
            cause: "Reserved for a generic lifecycle rejection. The issuer registry returns 204 and 206 instead, and the proof registry returns 302.",
            retry: Retry::Never,
            remediation: "Read the current status and choose an operation the lifecycle allows. Handle the specific codes 204, 206, and 302, and treat this one as a forward-compatible synonym.",
            http_status: 400,
            client_message: "Operation not permitted in current state",
        },
        6 => ErrorSpec {
            code: 60,
            name: "InvalidInput",
            enum_name: "ContractError",
            domain: Domain::Common,
            status: Status::Returned,
            cause: "An argument failed validation, such as a zero schema version.",
            retry: Retry::AfterCallerChange,
            remediation: "Correct the argument. Retrying the identical request will fail identically.",
            http_status: 400,
            client_message: "Invalid input provided",
        },
        7 => ErrorSpec {
            code: 61,
            name: "InvalidAddress",
            enum_name: "ContractError",
            domain: Domain::Common,
            status: Status::Reserved,
            cause: "An address argument is not a usable principal: not a 56-character base32 strkey, or the zero-key sentinel.",
            retry: Retry::AfterCallerChange,
            remediation: "Send the strkey of a real account or contract. The registries report unusable addresses through their own InvalidAddress codes (207, 306) or through InvalidInput (60) at initialization.",
            http_status: 400,
            client_message: "Invalid address",
        },
        8 => ErrorSpec {
            code: 80,
            name: "ProtocolPaused",
            enum_name: "ContractError",
            domain: Domain::Common,
            status: Status::Reserved,
            cause: "Reserved for the pause rejection. A paused protocol is currently reported by the proof registry as 304, not as this code.",
            retry: Retry::AfterOperatorAction,
            remediation: "Poll is_paused rather than waiting for this code: a paused protocol surfaces as 304 in the current release. Treat both as the same operator-action outcome.",
            http_status: 503,
            client_message: "Service temporarily paused",
        },
        9 => ErrorSpec {
            code: 200,
            name: "IssuerAlreadyRegistered",
            enum_name: "IssuerError",
            domain: Domain::IssuerRegistry,
            status: Status::Returned,
            cause: "register_issuer was called with an issuer_id_hash that already has a record.",
            retry: Retry::Never,
            remediation: "Use update_issuer to change metadata, or rotate_issuer_address to change the address. Registration is one-time per identifier.",
            http_status: 409,
            client_message: "Issuer already registered",
        },
        10 => ErrorSpec {
            code: 201,
            name: "IssuerNotFound",
            enum_name: "IssuerError",
            domain: Domain::IssuerRegistry,
            status: Status::Returned,
            cause: "A call referenced an issuer_id_hash with no record, or the registry has no admin yet.",
            retry: Retry::AfterCallerChange,
            remediation: "Register the issuer first, or confirm the identifier hash. If the registry is uninitialized, every call returns this code until an admin is set.",
            http_status: 404,
            client_message: "Issuer not found",
        },
        11 => ErrorSpec {
            code: 202,
            name: "IssuerAddressAlreadyRegistered",
            enum_name: "IssuerError",
            domain: Domain::IssuerRegistry,
            status: Status::Returned,
            cause: "A registration or rotation targeted a Stellar address already bound to an issuer.",
            retry: Retry::Never,
            remediation: "Choose an unused address. An address maps to at most one issuer so that address-based lookups stay unambiguous.",
            http_status: 409,
            client_message: "Issuer address already registered",
        },
        12 => ErrorSpec {
            code: 203,
            name: "IssuerAddressNotFound",
            enum_name: "IssuerError",
            domain: Domain::IssuerRegistry,
            status: Status::Returned,
            cause: "An address lookup found no entry in the reverse index.",
            retry: Retry::AfterCallerChange,
            remediation: "The address is not a registered issuer. Note that a rotated-away address returns this code, because the old index entry is removed.",
            http_status: 404,
            client_message: "Issuer address not found",
        },
        13 => ErrorSpec {
            code: 204,
            name: "IssuerRevoked",
            enum_name: "IssuerError",
            domain: Domain::IssuerRegistry,
            status: Status::Returned,
            cause: "The operation targeted an issuer whose status is Revoked.",
            retry: Retry::Never,
            remediation: "Revocation is terminal. Register a new issuer identifier if the party is to be readmitted.",
            http_status: 403,
            client_message: "Issuer has been revoked",
        },
        14 => ErrorSpec {
            code: 205,
            name: "IssuerInactive",
            enum_name: "IssuerError",
            domain: Domain::IssuerRegistry,
            status: Status::Reserved,
            cause: "Reserved for the suspended-issuer rejection. A suspended issuer is currently reported by the proof registry as 304, not as this code.",
            retry: Retry::AfterOperatorAction,
            remediation: "Call is_active_address before registering rather than waiting for this code: a suspended issuer surfaces as 304 in the current release. An admin must reactivate the issuer; suspension is reversible, revocation is not.",
            http_status: 403,
            client_message: "Issuer is not active",
        },
        15 => ErrorSpec {
            code: 206,
            name: "InvalidTransition",
            enum_name: "IssuerError",
            domain: Domain::IssuerRegistry,
            status: Status::Returned,
            cause: "A status change was requested that the lifecycle does not allow, such as reactivating a revoked issuer.",
            retry: Retry::Never,
            remediation: "Read the current status and choose a permitted transition.",
            http_status: 400,
            client_message: "Invalid status transition",
        },
        16 => ErrorSpec {
            code: 207,
            name: "InvalidAddress",
            enum_name: "IssuerError",
            domain: Domain::IssuerRegistry,
            status: Status::Returned,
            cause: "register_issuer or rotate_issuer_address was given an address that is not a usable principal (the zero-key sentinel or not a 56-character base32 strkey), or a rotation named the address the issuer already has.",
            retry: Retry::AfterCallerChange,
            remediation: "Send the strkey of the issuer's real account, and rotate only to an address different from the current one.",
            http_status: 400,
            client_message: "Invalid issuer address",
        },
        17 => ErrorSpec {
            code: 208,
            name: "InvalidMetadataCommitment",
            enum_name: "IssuerError",
            domain: Domain::IssuerRegistry,
            status: Status::Returned,
            cause: "set_issuer_metadata_commitment was given the all-zero digest as the content or the URI commitment; the all-zero digest means that no commitment is recorded.",
            retry: Retry::AfterCallerChange,
            remediation: "Compute both commitments off chain over the canonical metadata document and its canonical URI, and send the resulting non-zero digests.",
            http_status: 400,
            client_message: "Invalid metadata commitment",
        },
        18 => ErrorSpec {
            code: 300,
            name: "ProofAlreadyRegistered",
            enum_name: "ProofError",
            domain: Domain::ProofRegistry,
            status: Status::Returned,
            cause: "register_proof was called with a proof_id_hash that already has a record.",
            retry: Retry::Never,
            remediation: "Proof records are immutable once written, including after archival and restoration. Register a new identifier rather than replacing a commitment.",
            http_status: 409,
            client_message: "Proof already registered",
        },
        19 => ErrorSpec {
            code: 301,
            name: "ProofNotFound",
            enum_name: "ProofError",
            domain: Domain::ProofRegistry,
            status: Status::Returned,
            cause: "A call referenced a proof_id_hash with no record, or the proof registry has no instance state to read its dependencies from.",
            retry: Retry::AfterCallerChange,
            remediation: "Confirm the identifier hash. If register_proof returns this code, the registry itself is uninitialized and no write took place.",
            http_status: 404,
            client_message: "Proof not found",
        },
        20 => ErrorSpec {
            code: 302,
            name: "ProofAlreadyRevoked",
            enum_name: "ProofError",
            domain: Domain::ProofRegistry,
            status: Status::Returned,
            cause: "A revocation targeted a proof already in the Revoked state.",
            retry: Retry::Never,
            remediation: "Treat the revocation as complete. Revocation is terminal and idempotent in effect, though not in return value.",
            http_status: 400,
            client_message: "Proof already revoked",
        },
        21 => ErrorSpec {
            code: 303,
            name: "ProofExpired",
            enum_name: "ProofError",
            domain: Domain::ProofRegistry,
            status: Status::Returned,
            cause: "register_proof was given an expires_at at or before the current ledger timestamp.",
            retry: Retry::AfterCallerChange,
            remediation: "Send an expiration in the future relative to ledger time, not to wall-clock time on the calling host.",
            http_status: 400,
            client_message: "Invalid proof expiration",
        },
        22 => ErrorSpec {
            code: 304,
            name: "InvalidSchemaVersion",
            enum_name: "ProofError",
            domain: Domain::ProofRegistry,
            status: Status::Returned,
            cause: "register_proof was given schema version zero, or a precondition that the registry currently reports through this same code failed: the protocol is paused, or the issuer address is not active.",
            retry: Retry::AfterOperatorAction,
            remediation: "Check three things in order: that the schema version is non-zero, that is_paused is false, and that is_active_address is true for the issuer. This code is overloaded in the current release; see the ambiguity note in docs/errors.md.",
            http_status: 400,
            client_message: "Invalid schema version",
        },
        23 => ErrorSpec {
            code: 305,
            name: "SchemaVersionNotApproved",
            enum_name: "ProofError",
            domain: Domain::ProofRegistry,
            status: Status::Returned,
            cause: "The schema version is non-zero but is not approved in protocol-config, either because it was never approved or because it was deprecated.",
            retry: Retry::AfterOperatorAction,
            remediation: "A protocol operator must approve the version. A registry pointed at an uninitialized protocol config also returns this code, because no version can be approved there.",
            http_status: 400,
            client_message: "Schema version not approved",
        },
        _ => ErrorSpec {
            code: 306,
            name: "InvalidAddress",
            enum_name: "ProofError",
            domain: Domain::ProofRegistry,
            status: Status::Returned,
            cause: "register_proof was given an issuer address that is not a usable principal or that names the proof registry itself or one of its dependencies; archive_proof also returns it for a proof that is neither expired nor revoked.",
            retry: Retry::AfterCallerChange,
            remediation: "Register under the issuer's own account address. Archive a proof only once it has expired or been revoked.",
            http_status: 400,
            client_message: "Invalid address",
        },
    }
}

/// Every published error, ordered by code.
pub fn error_catalog() -> (r: Vec<ErrorSpec>)
    ensures
        r@ == spec_error_catalog(),
{
    let mut v: Vec<ErrorSpec> = Vec::new();
    let mut i: usize = 0;
    while i < ERROR_CATALOG_LEN
        invariant
            i <= ERROR_CATALOG_LEN,
            v@ =~= Seq::new(i as nat, |k: int| spec_catalog_at(k)),
        decreases ERROR_CATALOG_LEN - i,
    {
        v.push(catalog_entry(i));
        i = i + 1;
    }
    v
}

/// The published error with `code`, if there is one.
pub open spec fn spec_lookup(code: u32) -> Option<ErrorSpec> {
    if exists|i: int| 0 <= i < ERROR_CATALOG_LEN && #[trigger] spec_code_at(i) == code {
        Some(spec_catalog_at(choose|i: int| 0 <= i < ERROR_CATALOG_LEN && #[trigger] spec_code_at(i) == code))
    } else {
        None
    }
}

/// Codes strictly increase along the catalog, so no code is published twice.
pub proof fn lemma_catalog_codes_strictly_increase(i: int, j: int)
    requires
        0 <= i < j < ERROR_CATALOG_LEN,
    ensures
        spec_code_at(i) < spec_code_at(j),
    decreases j - i,
{
    if j == i + 1 {
        assert(spec_code_at(i) < spec_code_at(i + 1)) by {
            if i == 0 {} else if i == 1 {} else if i == 2 {} else if i == 3 {}
            else if i == 4 {} else if i == 5 {} else if i == 6 {} else if i == 7 {}
            else if i == 8 {} else if i == 9 {} else if i == 10 {} else if i == 11 {}
            else if i == 12 {} else if i == 13 {} else if i == 14 {} else if i == 15 {}
            else if i == 16 {} else if i == 17 {} else if i == 18 {} else if i == 19 {}
            else if i == 20 {} else if i == 21 {} else if i == 22 {} else {}
        }
    } else {
        lemma_catalog_codes_strictly_increase(i, j - 1);
        lemma_catalog_codes_strictly_increase(j - 1, j);
    }
}

/// The entry at position `i` is the one `spec_lookup` finds for its code.
pub proof fn lemma_lookup_finds_position(i: int)
    requires
        0 <= i < ERROR_CATALOG_LEN,
    ensures
        spec_lookup(spec_code_at(i)) == Some(spec_catalog_at(i)),
{
    let code = spec_code_at(i);
    assert(exists|k: int| 0 <= k < ERROR_CATALOG_LEN && #[trigger] spec_code_at(k) == code);
    let k = choose|k: int| 0 <= k < ERROR_CATALOG_LEN && #[trigger] spec_code_at(k) == code;
    if k < i {
        lemma_catalog_codes_strictly_increase(k, i);
    } else if i < k {
        lemma_catalog_codes_strictly_increase(i, k);
    }
}

/// Looks up a published error by code.
pub fn spec(code: u32) -> (r: Option<ErrorSpec>)
    ensures
        r == spec_lookup(code),
{
    let catalog = error_catalog();
    let mut i: usize = 0;
    while i < ERROR_CATALOG_LEN
        invariant
            i <= ERROR_CATALOG_LEN,
            catalog@ == spec_error_catalog(),
            forall|k: int| 0 <= k < i ==> #[trigger] spec_code_at(k) != code,
        decreases ERROR_CATALOG_LEN - i,
    {
        let entry = catalog[i];
        assert(entry == spec_catalog_at(i as int));
        if entry.code == code {
            proof {
                lemma_lookup_finds_position(i as int);
            }
            return Some(entry);
        }
        i = i + 1;
    }
    assert(!exists|k: int| 0 <= k < ERROR_CATALOG_LEN && #[trigger] spec_code_at(k) == code);
    None
}

/// The retry class of `code`: the catalog's for a published code, `Never`
/// for any other.
pub open spec fn spec_retry_for(code: u32) -> Retry {
    match spec_lookup(code) {
        Some(entry) => entry.retry,
        None => Retry::Never,
    }
}

/// Retry classification for any code, known or not. An unknown code is never
/// retried automatically.
pub fn retry_for(code: u32) -> (r: Retry)
    ensures
        r == spec_retry_for(code),
        spec_lookup(code) is None ==> r == Retry::Never,
{
    match spec(code) {
        Some(entry) => entry.retry,
        None => Retry::Never,
    }
}

/// Every published entry sits in the range of the domain it declares, and a
/// lookup by its code finds exactly it.
pub proof fn lemma_catalog_entries_are_consistent(i: int)
    requires
        0 <= i < ERROR_CATALOG_LEN,
    ensures
        spec_domain_for(spec_code_at(i)) == spec_catalog_at(i).domain,
        spec_lookup(spec_code_at(i)) == Some(spec_catalog_at(i)),
{
    lemma_lookup_finds_position(i);
    if i == 0 {} else if i == 1 {} else if i == 2 {} else if i == 3 {} else if i == 4 {}
    else if i == 5 {} else if i == 6 {} else if i == 7 {} else if i == 8 {} else if i == 9 {}
    else if i == 10 {} else if i == 11 {} else if i == 12 {} else if i == 13 {}
    else if i == 14 {} else if i == 15 {} else if i == 16 {} else if i == 17 {}
    else if i == 18 {} else if i == 19 {} else if i == 20 {} else if i == 21 {}
    else if i == 22 {} else if i == 23 {} else {}
}

/// The variant name of a common error, as the catalog spells it.
pub open spec fn spec_contract_error_name(e: ContractError) -> &'static str {
    match e {
        ContractError::AlreadyInitialized => "AlreadyInitialized",
        ContractError::NotInitialized => "NotInitialized",
        ContractError::Unauthorized => "Unauthorized",
        ContractError::AlreadyExists => "AlreadyExists",
        ContractError::NotFound => "NotFound",
        ContractError::InvalidState => "InvalidState",
        ContractError::InvalidInput => "InvalidInput",
        ContractError::InvalidAddress => "InvalidAddress",
        ContractError::ProtocolPaused => "ProtocolPaused",
    }
}

/// The variant name of an issuer error, as the catalog spells it.
pub open spec fn spec_issuer_error_name(e: IssuerError) -> &'static str {
    match e {
        IssuerError::IssuerAlreadyRegistered => "IssuerAlreadyRegistered",
        IssuerError::IssuerNotFound => "IssuerNotFound",
        IssuerError::IssuerAddressAlreadyRegistered => "IssuerAddressAlreadyRegistered",
        IssuerError::IssuerAddressNotFound => "IssuerAddressNotFound",
        IssuerError::IssuerRevoked => "IssuerRevoked",
        IssuerError::IssuerInactive => "IssuerInactive",
        IssuerError::InvalidTransition => "InvalidTransition",
        IssuerError::InvalidAddress => "InvalidAddress",
        IssuerError::InvalidMetadataCommitment => "InvalidMetadataCommitment",
    }
}

/// The variant name of a proof error, as the catalog spells it.
pub open spec fn spec_proof_error_name(e: ProofError) -> &'static str {
    match e {
        ProofError::ProofAlreadyRegistered => "ProofAlreadyRegistered",
        ProofError::ProofNotFound => "ProofNotFound",
        ProofError::ProofAlreadyRevoked => "ProofAlreadyRevoked",
        ProofError::ProofExpired => "ProofExpired",
        ProofError::InvalidSchemaVersion => "InvalidSchemaVersion",
        ProofError::SchemaVersionNotApproved => "SchemaVersionNotApproved",
        ProofError::InvalidAddress => "InvalidAddress",
    }
}

/// Every error variant of the three enums has a catalog entry under its code,
/// with the variant's name and its enum's name.
pub proof fn lemma_every_error_is_published(c: ContractError, e: IssuerError, p: ProofError)
    ensures
        spec_lookup(crate::errors::spec_contract_error_code(c)) matches Some(entry) && entry.name
            == spec_contract_error_name(c) && entry.enum_name == "ContractError",
        spec_lookup(crate::errors::spec_issuer_error_code(e)) matches Some(entry) && entry.name
            == spec_issuer_error_name(e) && entry.enum_name == "IssuerError",
        spec_lookup(crate::errors::spec_proof_error_code(p)) matches Some(entry) && entry.name
            == spec_proof_error_name(p) && entry.enum_name == "ProofError",
{
    match c {
        ContractError::AlreadyInitialized => lemma_lookup_finds_position(0),
        ContractError::NotInitialized => lemma_lookup_finds_position(1),
        ContractError::Unauthorized => lemma_lookup_finds_position(2),
        ContractError::AlreadyExists => lemma_lookup_finds_position(3),
        ContractError::NotFound => lemma_lookup_finds_position(4),
        ContractError::InvalidState => lemma_lookup_finds_position(5),
        ContractError::InvalidInput => lemma_lookup_finds_position(6),
        ContractError::InvalidAddress => lemma_lookup_finds_position(7),
        ContractError::ProtocolPaused => lemma_lookup_finds_position(8),
    }
    match e {
        IssuerError::IssuerAlreadyRegistered => lemma_lookup_finds_position(9),
        IssuerError::IssuerNotFound => lemma_lookup_finds_position(10),
        IssuerError::IssuerAddressAlreadyRegistered => lemma_lookup_finds_position(11),
        IssuerError::IssuerAddressNotFound => lemma_lookup_finds_position(12),
        IssuerError::IssuerRevoked => lemma_lookup_finds_position(13),
        IssuerError::IssuerInactive => lemma_lookup_finds_position(14),
        IssuerError::InvalidTransition => lemma_lookup_finds_position(15),
        IssuerError::InvalidAddress => lemma_lookup_finds_position(16),
        IssuerError::InvalidMetadataCommitment => lemma_lookup_finds_position(17),
    }
    match p {
        ProofError::ProofAlreadyRegistered => lemma_lookup_finds_position(18),
        ProofError::ProofNotFound => lemma_lookup_finds_position(19),
        ProofError::ProofAlreadyRevoked => lemma_lookup_finds_position(20),
        ProofError::ProofExpired => lemma_lookup_finds_position(21),
        ProofError::InvalidSchemaVersion => lemma_lookup_finds_position(22),
        ProofError::SchemaVersionNotApproved => lemma_lookup_finds_position(23),
        ProofError::InvalidAddress => lemma_lookup_finds_position(24),
    }
}

} // verus!
