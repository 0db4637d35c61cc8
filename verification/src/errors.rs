use vstd::prelude::*;

verus! {

/// A reason the metadata registry gives for rejecting a cross-program call.
///
/// Any of these surfaces to the issuance flow as
/// `IssueError::MetadataBindingFailed(reason)`.
#[derive(Clone, Copy, Debug, PartialEq, Eq, Structural)]
pub enum RegistryRejection {
    /// The metadata address in the call was not derived from
    /// `["metadata", registry, mint]`.
    BadSeeds,
    /// A string field exceeds the registry's maximum byte length.
    FieldTooLong,
    /// A metadata record already exists at the derived address.
    DuplicateMetadata,
    /// A required signature (mint authority, payer, or update authority) is
    /// missing.
    MissingSigner,
    /// The record to be written does not fit in the pre-funded byte budget.
    InsufficientSpace,
    /// An account handed to the registry is absent, has the wrong owning
    /// program, or holds the wrong kind of record.
    AccountMismatch,
    /// The payer cannot fund the storage cost of the new record.
    InsufficientFunds,
    /// The record exists but was created with `is_mutable = false`; it can
    /// never be rewritten.
    ImmutableRecord,
}

/// Every failure the issuance flow can surface. The first violated
/// precondition is reported; the host's atomic execution discards all
/// partial effects.
#[derive(Clone, Copy, Debug, PartialEq, Eq, Structural)]
pub enum IssueError {
    /// A mint for this flow must have `decimals = 0` (a single non-fungible
    /// unit).
    InvalidDecimals,
    /// The payer's balance cannot cover the storage cost of a new record.
    InsufficientFunds,
    /// An account already exists at an address that was to be created.
    AccountAlreadyInitialized,
    /// An account is absent, has the wrong owning program, or holds the
    /// wrong kind of record.
    AccountMismatch,
    /// A required signature is missing, or the signing authority does not
    /// match the record's authority.
    Unauthorized,
    /// A string field exceeds the registry's maximum byte length.
    FieldTooLong,
    /// The metadata record does not fit in the fixed byte budget reserved
    /// for its account.
    InsufficientSpace,
    /// No disambiguation byte yields an off-curve derived address
    /// (practically unreachable; treated as fatal).
    DerivationExhausted,
    /// The metadata registry rejected the cross-program call.
    MetadataBindingFailed(RegistryRejection),
}

} // verus!
