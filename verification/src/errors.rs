//! Error codes shared by every contract, and how a rejected call ended.
//!
//! Codes are allocated by range: common errors 1-99, protocol-config 100-199,
//! issuer-registry 200-299, proof-registry 300-399.

use vstd::prelude::*;

verus! {

/// Common errors shared across all contracts.
#[derive(Copy, Clone, Debug, PartialEq, Eq, Structural, PartialOrd, Ord)]
pub enum ContractError {
    AlreadyInitialized,
    NotInitialized,
    Unauthorized,
    AlreadyExists,
    NotFound,
    InvalidState,
    InvalidInput,
    InvalidAddress,
    ProtocolPaused,
}

/// Issuer-specific errors (200-299).
#[derive(Copy, Clone, Debug, PartialEq, Eq, Structural, PartialOrd, Ord)]
pub enum IssuerError {
    IssuerAlreadyRegistered,
    IssuerNotFound,
    IssuerAddressAlreadyRegistered,
    IssuerAddressNotFound,
    IssuerRevoked,
    IssuerInactive,
    InvalidTransition,
    InvalidAddress,
    InvalidMetadataCommitment,
}

/// Proof-specific errors (300-399).
#[derive(Copy, Clone, Debug, PartialEq, Eq, Structural, PartialOrd, Ord)]
pub enum ProofError {
    ProofAlreadyRegistered,
    ProofNotFound,
    ProofAlreadyRevoked,
    ProofExpired,
    InvalidSchemaVersion,
    SchemaVersionNotApproved,
    InvalidAddress,
}

/// The stable numeric code of a common error.
pub open spec fn spec_contract_error_code(e: ContractError) -> u32 {
    match e {
        ContractError::AlreadyInitialized => 1,
        ContractError::NotInitialized => 2,
        ContractError::Unauthorized => 20,
        ContractError::AlreadyExists => 40,
        ContractError::NotFound => 41,
        ContractError::InvalidState => 42,
        ContractError::InvalidInput => 60,
        ContractError::InvalidAddress => 61,
        ContractError::ProtocolPaused => 80,
    }
}

/// The stable numeric code of an issuer error.
pub open spec fn spec_issuer_error_code(e: IssuerError) -> u32 {
    match e {
        IssuerError::IssuerAlreadyRegistered => 200,
        IssuerError::IssuerNotFound => 201,
        IssuerError::IssuerAddressAlreadyRegistered => 202,
        IssuerError::IssuerAddressNotFound => 203,
        IssuerError::IssuerRevoked => 204,
        IssuerError::IssuerInactive => 205,
        IssuerError::InvalidTransition => 206,
        IssuerError::InvalidAddress => 207,
        IssuerError::InvalidMetadataCommitment => 208,
    }
}

/// The stable numeric code of a proof error.
pub open spec fn spec_proof_error_code(e: ProofError) -> u32 {
    match e {
        ProofError::ProofAlreadyRegistered => 300,
        ProofError::ProofNotFound => 301,
        ProofError::ProofAlreadyRevoked => 302,
        ProofError::ProofExpired => 303,
        ProofError::InvalidSchemaVersion => 304,
        ProofError::SchemaVersionNotApproved => 305,
        ProofError::InvalidAddress => 306,
    }
}

impl ContractError {
    /// The error's stable numeric code.
    pub fn code(&self) -> (r: u32)
        ensures
            r == spec_contract_error_code(*self),
    {
        match self {
            ContractError::AlreadyInitialized => 1,
            ContractError::NotInitialized => 2,
            ContractError::Unauthorized => 20,
            ContractError::AlreadyExists => 40,
            ContractError::NotFound => 41,
            ContractError::InvalidState => 42,
            ContractError::InvalidInput => 60,
            ContractError::InvalidAddress => 61,
            ContractError::ProtocolPaused => 80,
        }
    }

    /// The error with the given code, if one has it.
    pub fn from_code(code: u32) -> (r: Option<ContractError>)
        ensures
            match r {
                Some(e) => spec_contract_error_code(e) == code,
                None => forall|e: ContractError| spec_contract_error_code(e) != code,
            },
    {
        match code {
            1 => Some(ContractError::AlreadyInitialized),
            2 => Some(ContractError::NotInitialized),
            20 => Some(ContractError::Unauthorized),
            40 => Some(ContractError::AlreadyExists),
            41 => Some(ContractError::NotFound),
            42 => Some(ContractError::InvalidState),
            60 => Some(ContractError::InvalidInput),
            61 => Some(ContractError::InvalidAddress),
            80 => Some(ContractError::ProtocolPaused),
            _ => None,
        }
    }
}

impl IssuerError {
    /// The error's stable numeric code.
    pub fn code(&self) -> (r: u32)
        ensures
            r == spec_issuer_error_code(*self),
    {
        match self {
            IssuerError::IssuerAlreadyRegistered => 200,
            IssuerError::IssuerNotFound => 201,
            IssuerError::IssuerAddressAlreadyRegistered => 202,
            IssuerError::IssuerAddressNotFound => 203,
            IssuerError::IssuerRevoked => 204,
            IssuerError::IssuerInactive => 205,
            IssuerError::InvalidTransition => 206,
            IssuerError::InvalidAddress => 207,
            IssuerError::InvalidMetadataCommitment => 208,
        }
    }

    /// The error with the given code, if one has it.
    pub fn from_code(code: u32) -> (r: Option<IssuerError>)
        ensures
            match r {
                Some(e) => spec_issuer_error_code(e) == code,
                None => forall|e: IssuerError| spec_issuer_error_code(e) != code,
            },
    {
        match code {
            200 => Some(IssuerError::IssuerAlreadyRegistered),
            201 => Some(IssuerError::IssuerNotFound),
            202 => Some(IssuerError::IssuerAddressAlreadyRegistered),
            203 => Some(IssuerError::IssuerAddressNotFound),
            204 => Some(IssuerError::IssuerRevoked),
            205 => Some(IssuerError::IssuerInactive),
            206 => Some(IssuerError::InvalidTransition),
            207 => Some(IssuerError::InvalidAddress),
            208 => Some(IssuerError::InvalidMetadataCommitment),
            _ => None,
        }
    }
}

impl ProofError {
    /// The error's stable numeric code.
    pub fn code(&self) -> (r: u32)
        ensures
            r == spec_proof_error_code(*self),
    {
        match self {
            ProofError::ProofAlreadyRegistered => 300,
            ProofError::ProofNotFound => 301,
            ProofError::ProofAlreadyRevoked => 302,
            ProofError::ProofExpired => 303,
            ProofError::InvalidSchemaVersion => 304,
            ProofError::SchemaVersionNotApproved => 305,
            ProofError::InvalidAddress => 306,
        }
    }

    /// The error with the given code, if one has it.
    pub fn from_code(code: u32) -> (r: Option<ProofError>)
        ensures
            match r {
                Some(e) => spec_proof_error_code(e) == code,
                None => forall|e: ProofError| spec_proof_error_code(e) != code,
            },
    {
        match code {
            300 => Some(ProofError::ProofAlreadyRegistered),
            301 => Some(ProofError::ProofNotFound),
            302 => Some(ProofError::ProofAlreadyRevoked),
            303 => Some(ProofError::ProofExpired),
            304 => Some(ProofError::InvalidSchemaVersion),
            305 => Some(ProofError::SchemaVersionNotApproved),
            306 => Some(ProofError::InvalidAddress),
            _ => None,
        }
    }
}

/// Why an invocation was aborted by the host rather than answered with one of
/// the contract's typed errors. An aborted invocation leaves no trace.
#[derive(Copy, Clone, Debug, PartialEq, Eq, Structural)]
pub enum Abort {
    /// A required signature was not given.
    Unauthorized,
    /// A storage migration is under way and has not completed.
    MigrationInProgress,
    /// The contract has no administrator yet.
    NotInitialized,
    /// The requested version does not exceed the current contract version.
    VersionNotAdvanced,
    /// The WASM hash is not on the upgrade allowlist.
    NotAllowlisted,
    /// A storage migration towards the upgrade target has not completed.
    MigrationIncomplete,
    /// Upgrade operations are paused.
    UpgradePaused,
    /// The approval names another contract or role.
    ApprovalMismatch,
    /// The approval's timelock has not elapsed.
    TimelockPending,
    /// The approval's execution window has closed.
    ApprovalExpired,
    /// A dependency's reply failed or could not be decoded.
    DependencyFailure,
    /// A counter would overflow.
    CounterOverflow,
}

/// How a rejected invocation ended: with one of the contract's typed errors,
/// or aborted below the contract's error surface.
#[derive(Copy, Clone, Debug, PartialEq, Eq)]
pub enum Rejection<E> {
    Typed(E),
    Aborted(Abort),
}

} // verus!
