use vstd::prelude::*;

verus! {

/// Every way an operation of the marketplace can be refused.
///
/// An operation that returns an error has changed nothing.
#[derive(Clone, Copy, Debug, PartialEq, Eq, Structural)]
pub enum ErrorCode {
    /// The model name has more than `MAX_NAME_LEN` characters.
    NameTooLong,
    /// The description has more than `MAX_DESCRIPTION_LEN` characters.
    DescriptionTooLong,
    /// A content hash or usage fingerprint has more than `MAX_HASH_LEN` characters.
    HashTooLong,
    /// The storage location has more than `MAX_URI_LEN` characters.
    UriTooLong,
    /// The model is not open for purchases.
    ModelInactive,
    /// The access right has been switched off.
    AccessInactive,
    /// The access right has run out.
    AccessExpired,
    /// The access right is of a kind that does not cover the operation.
    InvalidAccessType,
    /// A subscription was requested without a duration.
    InvalidDuration,
    /// The fee rate is above one whole (`MAX_FEE_BPS`).
    InvalidFee,
    /// The caller is not the identity that the record names as its owner.
    Unauthorized,
    /// The record to create is already there.
    AlreadyInitialized,
    /// The user already holds an access right to the model.
    DuplicateAccess,
    /// The usage fingerprint has been recorded before.
    DuplicateUsage,
    /// An amount, a counter or a timestamp does not fit its integer type.
    ArithmeticOverflow,
}

} // verus!
