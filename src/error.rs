use vstd::prelude::*;

verus! {

/// Every way an operation on a metadata record can be rejected.
#[derive(Clone, Copy, Debug, PartialEq, Eq, Structural)]
pub enum MetadataError {
    /// The record address is not the one derived from the program and the mint.
    AddressDerivationMismatch,
    /// The account paying for the record did not sign.
    MissingRequiredSignature,
    /// The record's account is not owned by this program.
    OwnershipMismatch,
    /// The signer is not the record's update authority, or did not sign.
    AuthorityMismatch,
    /// The proposed data breaks a length, fee, share or creator rule.
    DataValidationFailed,
    /// Data was supplied for a record that is no longer mutable.
    DataIsImmutable,
    /// The primary-sale flag was asked to go back to false.
    OneWayFlagViolation,
    /// No record could be read at the address.
    RecordNotFoundOrCorrupt,
    /// The instruction has been retired.
    OperationDeprecated,
}

} // verus!
